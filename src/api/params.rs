//! Query parameters as a list of key/value pairs, and their encoding.
use vstd::prelude::*;

use vstd::utf8::encode_utf8;

use super::error::BodyError;
use super::values::{join_values, ValueSet};

verus! {

/// A query parameter list as plain strings.
pub type Pairs = Seq<(Seq<char>, Seq<char>)>;

/// The key/value strings of a list of pairs.
pub open spec fn pairs_view(v: Seq<(String, String)>) -> Pairs {
    v.map_values(|p: (String, String)| (p.0@, p.1@))
}

/// The characters of an optional string.
pub open spec fn opt_view(v: Option<String>) -> Option<Seq<char>> {
    match v {
        Some(s) => Some(s@),
        None => None,
    }
}

/// One pair when the value is present, none when it is absent.
pub open spec fn opt_param(key: Seq<char>, v: Option<Seq<char>>) -> Pairs {
    match v {
        Some(s) => seq![(key, s)],
        None => seq![],
    }
}

/// A multi-valued parameter: one pair holding the values joined with `,`, or
/// none when there are no values.
pub open spec fn list_param(key: Seq<char>, s: Seq<Seq<char>>) -> Pairs {
    if s.len() == 0 {
        seq![]
    } else {
        seq![(key, join_values(s))]
    }
}

/// The keys of a list of pairs, in order.
pub open spec fn keys(pairs: Pairs) -> Seq<Seq<char>> {
    pairs.map_values(|p: (Seq<char>, Seq<char>)| p.0)
}

/// `key` once when `present`, else nothing.
pub open spec fn key_if(present: bool, key: Seq<char>) -> Seq<Seq<char>> {
    if present {
        seq![key]
    } else {
        seq![]
    }
}

/// The keys of two lists one after the other.
pub proof fn lemma_keys_concat(a: Pairs, b: Pairs)
    ensures
        keys(a + b) == keys(a) + keys(b),
{
    assert(keys(a + b) =~= keys(a) + keys(b));
}

/// An optional parameter has its key exactly when its value is present.
pub proof fn lemma_opt_param_keys(key: Seq<char>, v: Option<Seq<char>>)
    ensures
        keys(opt_param(key, v)) == key_if(v is Some, key),
{
    assert(keys(opt_param(key, v)) =~= key_if(v is Some, key));
}

/// A multi-valued parameter has its key exactly when it holds a value.
pub proof fn lemma_list_param_keys(key: Seq<char>, s: Seq<Seq<char>>)
    ensures
        keys(list_param(key, s)) == key_if(s.len() > 0, key),
{
    assert(keys(list_param(key, s)) =~= key_if(s.len() > 0, key));
}

/// The decimal digit for `d < 10`.
pub open spec fn digit_char(d: nat) -> char {
    if d == 0 {
        '0'
    } else if d == 1 {
        '1'
    } else if d == 2 {
        '2'
    } else if d == 3 {
        '3'
    } else if d == 4 {
        '4'
    } else if d == 5 {
        '5'
    } else if d == 6 {
        '6'
    } else if d == 7 {
        '7'
    } else if d == 8 {
        '8'
    } else {
        '9'
    }
}

/// The decimal representation of a natural number, without leading zeros.
pub open spec fn decimal(n: nat) -> Seq<char>
    decreases n,
{
    if n < 10 {
        seq![digit_char(n)]
    } else {
        decimal(n / 10).push(digit_char(n % 10))
    }
}

/// The decimal representation of a signed integer, with `-` before a negative one.
pub open spec fn signed_decimal(n: int) -> Seq<char> {
    if n < 0 {
        seq!['-'] + decimal((-n) as nat)
    } else {
        decimal(n as nat)
    }
}

/// `true` or `false`.
pub open spec fn bool_text(b: bool) -> Seq<char> {
    if b {
        "true"@
    } else {
        "false"@
    }
}

/// `1` or `0`.
pub open spec fn flag_text(b: bool) -> Seq<char> {
    if b {
        "1"@
    } else {
        "0"@
    }
}

pub open spec fn opt_u64_text(v: Option<u64>) -> Option<Seq<char>> {
    match v {
        Some(n) => Some(decimal(n as nat)),
        None => None,
    }
}

pub open spec fn opt_usize_text(v: Option<usize>) -> Option<Seq<char>> {
    match v {
        Some(n) => Some(decimal(n as nat)),
        None => None,
    }
}

pub open spec fn opt_i64_text(v: Option<i64>) -> Option<Seq<char>> {
    match v {
        Some(n) => Some(signed_decimal(n as int)),
        None => None,
    }
}

pub open spec fn opt_bool_text(v: Option<bool>) -> Option<Seq<char>> {
    match v {
        Some(b) => Some(bool_text(b)),
        None => None,
    }
}

pub open spec fn opt_flag_text(v: Option<bool>) -> Option<Seq<char>> {
    match v {
        Some(b) => Some(flag_text(b)),
        None => None,
    }
}

fn digit_text(d: u64) -> (r: &'static str)
    requires
        d < 10,
    ensures
        r@ == seq![digit_char(d as nat)],
{
    proof {
        reveal_strlit("0");
        reveal_strlit("1");
        reveal_strlit("2");
        reveal_strlit("3");
        reveal_strlit("4");
        reveal_strlit("5");
        reveal_strlit("6");
        reveal_strlit("7");
        reveal_strlit("8");
        reveal_strlit("9");
    }
    if d == 0 {
        "0"
    } else if d == 1 {
        "1"
    } else if d == 2 {
        "2"
    } else if d == 3 {
        "3"
    } else if d == 4 {
        "4"
    } else if d == 5 {
        "5"
    } else if d == 6 {
        "6"
    } else if d == 7 {
        "7"
    } else if d == 8 {
        "8"
    } else {
        "9"
    }
}

/// Appends the decimal representation of `n`.
pub fn push_decimal(out: &mut String, n: u64)
    ensures
        final(out)@ == old(out)@ + decimal(n as nat),
    decreases n,
{
    if n < 10 {
        out.append(digit_text(n));
    } else {
        push_decimal(out, n / 10);
        out.append(digit_text(n % 10));
        assert(final(out)@ =~= old(out)@ + decimal(n as nat));
    }
}

/// The decimal representation of `n`.
pub fn decimal_string(n: u64) -> (r: String)
    ensures
        r@ == decimal(n as nat),
{
    let mut s = String::new();
    push_decimal(&mut s, n);
    assert(s@ =~= decimal(n as nat));
    s
}

/// The decimal representation of `n`, with `-` before a negative one.
pub fn signed_decimal_string(n: i64) -> (r: String)
    ensures
        r@ == signed_decimal(n as int),
{
    if n < 0 {
        let m: u64 = (0i128 - n as i128) as u64;
        let mut s = String::new();
        proof {
            reveal_strlit("-");
        }
        s.append("-");
        push_decimal(&mut s, m);
        assert(s@ =~= signed_decimal(n as int));
        s
    } else {
        decimal_string(n as u64)
    }
}

/// A pair of owned strings.
pub fn pair(key: &str, value: &str) -> (r: (String, String))
    ensures
        r.0@ == key@,
        r.1@ == value@,
{
    (key.to_string(), value.to_string())
}

/// Appends `key=value`.
pub fn push_param(pairs: &mut Vec<(String, String)>, key: &str, value: &str)
    ensures
        pairs_view(final(pairs)@) == pairs_view(old(pairs)@) + seq![(key@, value@)],
{
    pairs.push(pair(key, value));
    assert(pairs_view(final(pairs)@) =~= pairs_view(old(pairs)@) + seq![(key@, value@)]);
}

/// Appends `key=value` when the value is present.
pub fn push_opt(pairs: &mut Vec<(String, String)>, key: &str, value: &Option<String>)
    ensures
        pairs_view(final(pairs)@) == pairs_view(old(pairs)@) + opt_param(key@, opt_view(*value)),
{
    match value {
        Some(v) => push_param(pairs, key, v.as_str()),
        None => {
            assert(pairs_view(old(pairs)@) + opt_param(key@, opt_view(*value)) =~= pairs_view(
                old(pairs)@,
            ));
        },
    }
}

/// Appends the values joined with `,`, when there are any.
pub fn serialize_as_csv(pairs: &mut Vec<(String, String)>, key: &str, values: &ValueSet)
    ensures
        pairs_view(final(pairs)@) == pairs_view(old(pairs)@) + list_param(key@, values@),
{
    if values.is_empty() {
        assert(pairs_view(old(pairs)@) + list_param(key@, values@) =~= pairs_view(old(pairs)@));
    } else {
        let joined = values.joined();
        push_param(pairs, key, joined.as_str());
    }
}

/// Appends a number in decimal when it is present.
pub fn push_opt_u64(pairs: &mut Vec<(String, String)>, key: &str, value: Option<u64>)
    ensures
        pairs_view(final(pairs)@) == pairs_view(old(pairs)@) + opt_param(
            key@,
            opt_u64_text(value),
        ),
{
    match value {
        Some(n) => {
            let s = decimal_string(n);
            push_param(pairs, key, s.as_str());
        },
        None => {
            assert(pairs_view(old(pairs)@) + opt_param(key@, opt_u64_text(value)) =~= pairs_view(
                old(pairs)@,
            ));
        },
    }
}

/// Appends a size in decimal when it is present.
pub fn push_opt_usize(pairs: &mut Vec<(String, String)>, key: &str, value: Option<usize>)
    ensures
        pairs_view(final(pairs)@) == pairs_view(old(pairs)@) + opt_param(
            key@,
            opt_usize_text(value),
        ),
{
    match value {
        Some(n) => push_opt_u64(pairs, key, Some(n as u64)),
        None => push_opt_u64(pairs, key, None),
    }
}

/// Appends a signed number in decimal when it is present.
pub fn push_opt_i64(pairs: &mut Vec<(String, String)>, key: &str, value: Option<i64>)
    ensures
        pairs_view(final(pairs)@) == pairs_view(old(pairs)@) + opt_param(
            key@,
            opt_i64_text(value),
        ),
{
    match value {
        Some(n) => {
            let s = signed_decimal_string(n);
            push_param(pairs, key, s.as_str());
        },
        None => {
            assert(pairs_view(old(pairs)@) + opt_param(key@, opt_i64_text(value)) =~= pairs_view(
                old(pairs)@,
            ));
        },
    }
}

/// Appends `true` or `false` when the value is present.
pub fn push_opt_bool(pairs: &mut Vec<(String, String)>, key: &str, value: Option<bool>)
    ensures
        pairs_view(final(pairs)@) == pairs_view(old(pairs)@) + opt_param(
            key@,
            opt_bool_text(value),
        ),
{
    match value {
        Some(b) => {
            if b {
                push_param(pairs, key, "true");
            } else {
                push_param(pairs, key, "false");
            }
        },
        None => {
            assert(pairs_view(old(pairs)@) + opt_param(key@, opt_bool_text(value)) =~= pairs_view(
                old(pairs)@,
            ));
        },
    }
}

/// Appends `1` or `0` when the value is present.
pub fn serialize_option_bool_as_int(
    pairs: &mut Vec<(String, String)>,
    key: &str,
    value: Option<bool>,
)
    ensures
        pairs_view(final(pairs)@) == pairs_view(old(pairs)@) + opt_param(
            key@,
            opt_flag_text(value),
        ),
{
    match value {
        Some(b) => {
            if b {
                push_param(pairs, key, "1");
            } else {
                push_param(pairs, key, "0");
            }
        },
        None => {
            assert(pairs_view(old(pairs)@) + opt_param(key@, opt_flag_text(value)) =~= pairs_view(
                old(pairs)@,
            ));
        },
    }
}

/// The `application/x-www-form-urlencoded` text of a list of pairs, as
/// `serde_urlencoded` writes it.
pub uninterp spec fn form_encoded(pairs: Pairs) -> Seq<char>;

#[verifier::external_type_specification]
#[verifier::external_body]
pub struct ExUrlEncodedError(serde_urlencoded::ser::Error);

/// Relies on serde_urlencoded::to_string: a list of string pairs is written as
/// `k1=v1&k2=v2...` with keys and values form-encoded; such input is always
/// accepted, and no pairs give the empty string.
#[verifier::external_body]
pub(crate) fn encode_pairs(pairs: &Vec<(String, String)>) -> (r: Result<
    String,
    serde_urlencoded::ser::Error,
>)
    ensures
        r is Ok,
        r is Ok ==> r->Ok_0@ == form_encoded(pairs_view(pairs@)),
        r is Ok && pairs@.len() == 0 ==> r->Ok_0@.len() == 0,
{
    serde_urlencoded::to_string(pairs)
}


/// The standard base64 text of some bytes, with padding.
pub uninterp spec fn base64_of(b: Seq<u8>) -> Seq<char>;

/// Relies on base64::encode: the standard alphabet with padding; the text
/// depends on the bytes alone.
#[verifier::external_body]
fn base64_encode(b: &[u8]) -> (r: String)
    ensures
        r@ == base64_of(b@),
{
    base64::encode(b)
}

/// The form that uploads a document: `file` holds the document's UTF-8 bytes
/// in base64, and `upload` is empty.
pub open spec fn upload_form(document: Seq<char>) -> Seq<u8> {
    encode_utf8(
        form_encoded(seq![("file"@, base64_of(encode_utf8(document))), ("upload"@, ""@)]),
    )
}

/// The bytes of the form that uploads `document`.
pub fn upload_form_body(document: &str) -> (r: Result<Vec<u8>, BodyError>)
    ensures
        r is Ok,
        r is Ok ==> r->Ok_0@ == upload_form(document@),
{
    let encoded = base64_encode(document.as_bytes());
    let mut pairs: Vec<(String, String)> = Vec::new();
    push_param(&mut pairs, "file", encoded.as_str());
    push_param(&mut pairs, "upload", "");
    assert(pairs_view(pairs@) =~= seq![
        ("file"@, base64_of(encode_utf8(document@))),
        ("upload"@, ""@),
    ]);
    match encode_pairs(&pairs) {
        Ok(s) => Ok(s.as_str().as_bytes_vec()),
        Err(source) => Err(BodyError::UrlEncoded { source }),
    }
}

} // verus!
