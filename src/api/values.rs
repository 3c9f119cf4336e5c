//! Canonical multi-valued query parameters: a set of strings kept in
//! lexicographic order, joined with `,` on the wire.
use vstd::prelude::*;

verus! {

/// Strict lexicographic order on strings, character by character.
pub open spec fn lex_lt(a: Seq<char>, b: Seq<char>) -> bool
    decreases a.len(),
{
    if a.len() == 0 {
        b.len() > 0
    } else if b.len() == 0 {
        false
    } else if a[0] != b[0] {
        a[0] < b[0]
    } else {
        lex_lt(a.drop_first(), b.drop_first())
    }
}

/// Every element is strictly below the next ones: sorted and free of duplicates.
pub open spec fn strictly_sorted(s: Seq<Seq<char>>) -> bool {
    forall|i: int, j: int| 0 <= i < j < s.len() ==> lex_lt(#[trigger] s[i], #[trigger] s[j])
}

pub proof fn lemma_lex_irreflexive(a: Seq<char>)
    ensures
        !lex_lt(a, a),
    decreases a.len(),
{
    if a.len() > 0 {
        lemma_lex_irreflexive(a.drop_first());
    }
}

pub proof fn lemma_lex_total(a: Seq<char>, b: Seq<char>)
    ensures
        a == b || lex_lt(a, b) || lex_lt(b, a),
    decreases a.len(),
{
    if a.len() > 0 && b.len() > 0 && a[0] == b[0] {
        lemma_lex_total(a.drop_first(), b.drop_first());
        if a.drop_first() == b.drop_first() {
            assert(a =~= seq![a[0]] + a.drop_first());
            assert(b =~= seq![b[0]] + b.drop_first());
        }
    } else if a.len() == 0 && b.len() == 0 {
        assert(a =~= b);
    } else if a.len() > 0 && b.len() > 0 {
        assert(a[0] != b[0]);
    }
}

pub proof fn lemma_lex_asymmetric(a: Seq<char>, b: Seq<char>)
    ensures
        !(lex_lt(a, b) && lex_lt(b, a)),
    decreases a.len(),
{
    if a.len() > 0 && b.len() > 0 && a[0] == b[0] {
        lemma_lex_asymmetric(a.drop_first(), b.drop_first());
    }
}

pub proof fn lemma_lex_transitive(a: Seq<char>, b: Seq<char>, c: Seq<char>)
    requires
        lex_lt(a, b),
        lex_lt(b, c),
    ensures
        lex_lt(a, c),
    decreases a.len(),
{
    if a.len() > 0 && b.len() > 0 && c.len() > 0 && a[0] == b[0] && b[0] == c[0] {
        lemma_lex_transitive(a.drop_first(), b.drop_first(), c.drop_first());
    }
}

/// Compares two strings in lexicographic order.
pub fn lex_less(a: &str, b: &str) -> (r: bool)
    ensures
        r == lex_lt(a@, b@),
{
    let na = a.unicode_len();
    let nb = b.unicode_len();
    let mut i: usize = 0;
    assert(a@.skip(0) =~= a@);
    assert(b@.skip(0) =~= b@);
    while i < na && i < nb
        invariant
            na == a@.len(),
            nb == b@.len(),
            i <= na,
            i <= nb,
            lex_lt(a@, b@) == lex_lt(a@.skip(i as int), b@.skip(i as int)),
        decreases na - i,
    {
        let ca = a.get_char(i);
        let cb = b.get_char(i);
        assert(a@.skip(i as int)[0] == ca);
        assert(b@.skip(i as int)[0] == cb);
        if ca != cb {
            return ca < cb;
        }
        assert(a@.skip(i as int).drop_first() =~= a@.skip(i + 1));
        assert(b@.skip(i as int).drop_first() =~= b@.skip(i + 1));
        i = i + 1;
    }
    i < nb
}

/// Decides whether two strings hold the same characters.
pub fn str_eq(a: &str, b: &str) -> (r: bool)
    ensures
        r == (a@ == b@),
{
    proof {
        lemma_lex_total(a@, b@);
        lemma_lex_irreflexive(a@);
    }
    !lex_less(a, b) && !lex_less(b, a)
}


/// Joins strings with `,` between neighbours.
pub open spec fn join_values(s: Seq<Seq<char>>) -> Seq<char>
    decreases s.len(),
{
    if s.len() == 0 {
        seq![]
    } else if s.len() == 1 {
        s[0]
    } else {
        join_values(s.drop_last()) + seq![','] + s.last()
    }
}

/// Splits a string at each `,`; a string without `,` is one value.
pub open spec fn split_values(t: Seq<char>) -> Seq<Seq<char>>
    decreases t.len(),
{
    if t.len() == 0 {
        seq![seq![]]
    } else {
        let init = split_values(t.drop_last());
        if t.last() == ',' {
            init.push(seq![])
        } else {
            init.update(init.len() - 1, init.last().push(t.last()))
        }
    }
}

pub proof fn lemma_split_nonempty(t: Seq<char>)
    ensures
        split_values(t).len() > 0,
    decreases t.len(),
{
    if t.len() > 0 {
        lemma_split_nonempty(t.drop_last());
    }
}

/// Appending characters other than `,` extends the last value.
pub proof fn lemma_split_extend(p: Seq<char>, w: Seq<char>)
    requires
        !w.contains(','),
    ensures
        split_values(p + w) == split_values(p).update(
            split_values(p).len() - 1,
            split_values(p).last() + w,
        ),
    decreases w.len(),
{
    lemma_split_nonempty(p);
    let sp = split_values(p);
    if w.len() == 0 {
        assert(p + w =~= p);
        assert(sp.last() + w =~= sp.last());
        assert(sp.update(sp.len() - 1, sp.last()) =~= sp);
    } else {
        let w0 = w.drop_last();
        assert(!w0.contains(',')) by {
            if w0.contains(',') {
                let k = choose|k: int| 0 <= k < w0.len() && w0[k] == ',';
                assert(w[k] == ',');
            }
        }
        lemma_split_extend(p, w0);
        assert((p + w).drop_last() =~= p + w0);
        assert((p + w).last() == w.last());
        assert(w.last() != ',') by {
            assert(w[w.len() - 1] == w.last());
        }
        lemma_split_nonempty(p + w0);
        assert(sp.last() + w0 + seq![w.last()] =~= sp.last() + w);
        let init = split_values(p + w0);
        assert(init == sp.update(sp.len() - 1, sp.last() + w0));
        assert(init.last() == sp.last() + w0);
        assert(split_values(p + w) == init.update(init.len() - 1, init.last().push(w.last())));
        assert(init.last().push(w.last()) =~= sp.last() + w);
        assert(split_values(p + w) =~= sp.update(sp.len() - 1, sp.last() + w));
    }
}

/// Splitting at `,` undoes joining with `,`, for values without `,`.
pub proof fn lemma_split_join(s: Seq<Seq<char>>)
    requires
        s.len() > 0,
        forall|i: int| 0 <= i < s.len() ==> !(#[trigger] s[i]).contains(','),
    ensures
        split_values(join_values(s)) == s,
    decreases s.len(),
{
    if s.len() == 1 {
        assert(!s[0].contains(','));
        lemma_split_extend(seq![], s[0]);
        assert(seq![] + s[0] =~= s[0]);
        assert(split_values(seq![]).update(0, seq![] + s[0]) =~= s);
    } else {
        let init = s.drop_last();
        assert forall|i: int| 0 <= i < init.len() implies !(#[trigger] init[i]).contains(',') by {
            assert(init[i] == s[i]);
        }
        lemma_split_join(init);
        let p = join_values(init) + seq![','];
        assert(p.drop_last() =~= join_values(init));
        assert(split_values(p) == init.push(seq![]));
        assert(!s[s.len() - 1].contains(','));
        lemma_split_extend(p, s.last());
        assert(seq![] + s.last() =~= s.last());
        assert(init.push(seq![]).update(init.len() as int, s.last()) =~= s);
    }
}

/// Splits a string at each `,`.
pub fn split_list(text: &str) -> (r: Vec<String>)
    ensures
        r@.map_values(|s: String| s@) == split_values(text@),
{
    let n = text.unicode_len();
    let mut done: Vec<String> = Vec::new();
    let mut current = String::new();
    let mut i: usize = 0;
    assert(text@.take(0) =~= Seq::<char>::empty());
    while i < n
        invariant
            n == text@.len(),
            i <= n,
            done@.map_values(|s: String| s@).push(current@) == split_values(text@.take(i as int)),
        decreases n - i,
    {
        let c = text.get_char(i);
        assert(text@.take(i + 1).drop_last() =~= text@.take(i as int));
        assert(text@.take(i + 1).last() == c);
        if c == ',' {
            let ghost before = done@.map_values(|s: String| s@).push(current@);
            let finished = current;
            done.push(finished);
            current = String::new();
            assert(done@.map_values(|s: String| s@).push(current@) =~= before.push(seq![]));
        } else {
            let ghost before = done@.map_values(|s: String| s@).push(current@);
            let piece = text.substring_char(i, i + 1);
            assert(piece@ =~= seq![c]);
            let ghost old_current = current@;
            current.append(piece);
            assert(current@ =~= old_current.push(c));
            assert(done@.map_values(|s: String| s@).push(current@) =~= before.update(
                before.len() - 1,
                before.last().push(c),
            ));
        }
        i = i + 1;
    }
    assert(text@.take(n as int) =~= text@);
    done.push(current);
    assert(done@.map_values(|s: String| s@) =~= split_values(text@));
    done
}

/// Two strictly sorted sequences that hold the same strings are the same sequence.
pub proof fn lemma_sorted_canonical(a: Seq<Seq<char>>, b: Seq<Seq<char>>)
    requires
        strictly_sorted(a),
        strictly_sorted(b),
        a.to_set() == b.to_set(),
    ensures
        a == b,
    decreases a.len(),
{
    broadcast use vstd::seq_lib::group_seq_properties;
    if a.len() == 0 {
        if b.len() > 0 {
            assert(b.to_set().contains(b[0]));
        }
    } else if b.len() == 0 {
        assert(a.to_set().contains(a[0]));
    } else {
        let la = a.last();
        let lb = b.last();
        assert(a.to_set().contains(la));
        assert(b.to_set().contains(lb));
        // the largest element of each is the same
        assert(la == lb) by {
            let ia = choose|i: int| 0 <= i < b.len() && b[i] == la;
            let ib = choose|i: int| 0 <= i < a.len() && a[i] == lb;
            if la != lb {
                if ia < b.len() - 1 {
                    assert(lex_lt(la, lb));
                } else {
                    assert(false);
                }
                if ib < a.len() - 1 {
                    assert(lex_lt(lb, la));
                } else {
                    assert(false);
                }
                lemma_lex_asymmetric(la, lb);
            }
        }
        let a0 = a.drop_last();
        let b0 = b.drop_last();
        assert forall|x: Seq<char>| a0.to_set().contains(x) implies b0.to_set().contains(x) by {
            let i = choose|i: int| 0 <= i < a0.len() && a0[i] == x;
            assert(lex_lt(a[i], la));
            assert(b.to_set().contains(x));
            let j = choose|j: int| 0 <= j < b.len() && b[j] == x;
            if j == b.len() - 1 {
                lemma_lex_irreflexive(x);
            }
            assert(b0[j] == x);
        }
        assert forall|x: Seq<char>| b0.to_set().contains(x) implies a0.to_set().contains(x) by {
            let i = choose|i: int| 0 <= i < b0.len() && b0[i] == x;
            assert(lex_lt(b[i], lb));
            assert(a.to_set().contains(x));
            let j = choose|j: int| 0 <= j < a.len() && a[j] == x;
            if j == a.len() - 1 {
                lemma_lex_irreflexive(x);
            }
            assert(a0[j] == x);
        }
        assert(a0.to_set() =~= b0.to_set());
        lemma_sorted_canonical(a0, b0);
        assert(a =~= a0.push(la));
        assert(b =~= b0.push(lb));
    }
}

fn copy_strings(v: &Vec<String>) -> (r: Vec<String>)
    ensures
        r@ == v@,
{
    let mut r: Vec<String> = Vec::new();
    let mut i: usize = 0;
    while i < v.len()
        invariant
            i <= v@.len(),
            r@ == v@.take(i as int),
        decreases v@.len() - i,
    {
        r.push(v[i].clone());
        assert(r@ =~= v@.take(i + 1));
        i = i + 1;
    }
    assert(v@.take(i as int) =~= v@);
    r
}

/// The characters of each string.
pub open spec fn strs_view(s: Seq<&str>) -> Seq<Seq<char>> {
    s.map_values(|x: &str| x@)
}

/// Taking one more element of a sequence adds that element to its set.
pub proof fn lemma_take_one_more(s: Seq<Seq<char>>, i: int)
    requires
        0 <= i < s.len(),
    ensures
        s.take(i + 1).to_set() == s.take(i).to_set().insert(s[i]),
{
    assert(s.take(i + 1) =~= s.take(i).push(s[i]));
    assert(s.take(i).push(s[i]).to_set() =~= s.take(i).to_set().insert(s[i])) by {
        broadcast use vstd::seq_lib::group_seq_properties;
    }
}

/// A set of strings kept in lexicographic order without duplicates.
#[derive(Debug)]
pub struct ValueSet {
    items: Vec<String>,
}

impl View for ValueSet {
    type V = Seq<Seq<char>>;

    closed spec fn view(&self) -> Seq<Seq<char>> {
        self.items@.map_values(|s: String| s@)
    }
}

impl ValueSet {
    #[verifier::type_invariant]
    spec fn sorted(&self) -> bool {
        strictly_sorted(self@)
    }

    /// The empty set.
    pub fn new() -> (r: Self)
        ensures
            r@ == Seq::<Seq<char>>::empty(),
    {
        let r = ValueSet { items: Vec::new() };
        assert(r@ =~= Seq::<Seq<char>>::empty());
        r
    }

    pub fn len(&self) -> (r: usize)
        ensures
            r == self@.len(),
    {
        self.items.len()
    }

    pub fn is_empty(&self) -> (r: bool)
        ensures
            r == (self@.len() == 0),
    {
        self.items.len() == 0
    }

    /// The values are in strictly increasing order.
    pub fn lemma_sorted(&self)
        ensures
            strictly_sorted(self@),
    {
        proof {
            use_type_invariant(self);
        }
    }

    /// Whether `v` is one of the values.
    pub fn contains(&self, v: &str) -> (r: bool)
        ensures
            r == self@.contains(v@),
    {
        let mut i: usize = 0;
        while i < self.items.len()
            invariant
                i <= self.items@.len(),
                forall|k: int| 0 <= k < i ==> self@[k] != v@,
            decreases self.items@.len() - i,
        {
            if str_eq(self.items[i].as_str(), v) {
                assert(self@[i as int] == v@);
                return true;
            }
            i = i + 1;
        }
        false
    }

    /// Adds `v`, keeping the order; a value already present is kept once.
    pub fn insert(&mut self, v: &str)
        ensures
            final(self)@.to_set() == old(self)@.to_set().insert(v@),
            strictly_sorted(final(self)@),
    {
        proof {
            use_type_invariant(&*self);
        }
        let ghost old_view = self@;
        let n = self.items.len();
        let mut j: usize = 0;
        while j < n && lex_less(self.items[j].as_str(), v)
            invariant
                n == self.items@.len(),
                self@ == old_view,
                j <= n,
                forall|k: int| 0 <= k < j ==> lex_lt(#[trigger] old_view[k], v@),
            decreases n - j,
        {
            j = j + 1;
        }
        if j < n && str_eq(self.items[j].as_str(), v) {
            assert(old_view.to_set().insert(v@) =~= old_view.to_set()) by {
                assert(old_view.contains(v@)) by {
                    assert(old_view[j as int] == v@);
                }
            }
            return;
        }
        proof {
            if j < n {
                lemma_lex_total(old_view[j as int], v@);
            }
            assert forall|k: int| j <= k < n implies lex_lt(v@, #[trigger] old_view[k]) by {
                if k > j {
                    lemma_lex_transitive(v@, old_view[j as int], old_view[k]);
                }
            }
        }
        let mut items = copy_strings(&self.items);
        items.insert(j, v.to_string());
        proof {
            let nv = items@.map_values(|s: String| s@);
            assert(nv =~= old_view.insert(j as int, v@));
            assert forall|a: int, b: int| 0 <= a < b < nv.len() implies lex_lt(
                #[trigger] nv[a],
                #[trigger] nv[b],
            ) by {
                if a < j && b > j {
                    assert(nv[a] == old_view[a]);
                    assert(nv[b] == old_view[b - 1]);
                    lemma_lex_transitive(nv[a], v@, nv[b]);
                } else if a > j {
                    assert(nv[a] == old_view[a - 1]);
                    assert(nv[b] == old_view[b - 1]);
                }
            }
        }
        *self = ValueSet { items };
        proof {
            let nv = self@;
            assert(nv =~= old_view.insert(j as int, v@));
            assert forall|a: int, b: int| 0 <= a < b < nv.len() implies lex_lt(
                #[trigger] nv[a],
                #[trigger] nv[b],
            ) by {
                if a < j && b > j {
                    assert(nv[a] == old_view[a]);
                    assert(nv[b] == old_view[b - 1]);
                    lemma_lex_transitive(nv[a], v@, nv[b]);
                } else if a > j {
                    assert(nv[a] == old_view[a - 1]);
                    assert(nv[b] == old_view[b - 1]);
                }
            }
            assert(nv.to_set() =~= old_view.to_set().insert(v@)) by {
                assert forall|x|
                    nv.to_set().contains(x) implies old_view.to_set().insert(v@).contains(x) by {
                    let i = choose|i: int| 0 <= i < nv.len() && nv[i] == x;
                    if i < j {
                        assert(old_view[i] == x);
                    } else if i > j {
                        assert(old_view[i - 1] == x);
                    }
                }
                assert forall|x|
                    old_view.to_set().insert(v@).contains(x) implies nv.to_set().contains(x) by {
                    if x == v@ {
                        assert(nv[j as int] == x);
                    } else {
                        let i = choose|i: int| 0 <= i < old_view.len() && old_view[i] == x;
                        if i < j {
                            assert(nv[i] == x);
                        } else {
                            assert(nv[i + 1] == x);
                        }
                    }
                }
            }
        }
    }

    /// The values joined with `,`, in order.
    pub fn joined(&self) -> (r: String)
        ensures
            r@ == join_values(self@),
    {
        let mut out = String::new();
        let mut i: usize = 0;
        while i < self.items.len()
            invariant
                i <= self.items@.len(),
                out@ == join_values(self@.take(i as int)),
            decreases self.items@.len() - i,
        {
            let ghost prev = out@;
            proof {
                assert(self@.take(i + 1).drop_last() =~= self@.take(i as int));
                assert(self@.take(i + 1).last() == self.items@[i as int]@);
            }
            if i > 0 {
                proof {
                    reveal_strlit(",");
                }
                out.append(",");
            }
            out.append(self.items[i].as_str());
            proof {
                if i == 0 {
                    assert(out@ =~= join_values(self@.take(1)));
                } else {
                    let t = self@.take(i + 1);
                    assert(join_values(t) == join_values(t.drop_last()) + seq![','] + t.last());
                    assert(out@ =~= prev + seq![','] + self.items@[i as int]@);
                    assert(out@ =~= join_values(self@.take(i + 1)));
                }
            }
            i = i + 1;
        }
        assert(self@.take(i as int) =~= self@);
        out
    }
}

impl Clone for ValueSet {
    fn clone(&self) -> (r: Self)
        ensures
            r@ == self@,
    {
        proof {
            use_type_invariant(self);
        }
        ValueSet { items: copy_strings(&self.items) }
    }
}

} // verus!
