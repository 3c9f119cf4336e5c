use itad_api::api::values::{lex_less, split_list, str_eq, ValueSet};

#[test]
fn three_values_round_trip() {
    let mut s = ValueSet::new();
    s.insert("steam");
    s.insert("gog");
    s.insert("epic");
    let joined = s.joined();
    assert_eq!(joined, "epic,gog,steam");
    let back = split_list(&joined);
    assert_eq!(back, vec!["epic".to_string(), "gog".to_string(), "steam".to_string()]);
    for v in ["steam", "gog", "epic"] {
        assert!(s.contains(v));
    }
    assert_eq!(s.len(), 3);
}

#[test]
fn duplicates_kept_once() {
    let mut s = ValueSet::new();
    assert!(s.is_empty());
    s.insert("b");
    s.insert("b");
    s.insert("a");
    assert_eq!(s.len(), 2);
    assert_eq!(s.joined(), "a,b");
    assert!(!s.contains("c"));
}

#[test]
fn split_keeps_empty_values() {
    assert_eq!(split_list(""), vec!["".to_string()]);
    assert_eq!(split_list("a,,b"), vec!["a".to_string(), "".to_string(), "b".to_string()]);
}

#[test]
fn string_order() {
    assert!(lex_less("ab", "b"));
    assert!(lex_less("a", "ab"));
    assert!(!lex_less("b", "ab"));
    assert!(!lex_less("a", "a"));
    assert!(str_eq("gog", "gog"));
    assert!(!str_eq("gog", "go"));
}
