//! Order of text the way `String`'s `Ord` orders it (by code points, which
//! is the order of the UTF-8 bytes), and sorting by a text key.
use vstd::prelude::*;
use crate::text::chars_of;

verus! {

broadcast use vstd::seq_lib::group_to_multiset_ensures;

/// `a` comes strictly before `b`: at the first difference `a` has the smaller
/// code point, or `a` is a proper prefix of `b`.
pub open spec fn lex_lt(a: Seq<char>, b: Seq<char>) -> bool
    decreases a.len(),
{
    if a.len() == 0 {
        b.len() > 0
    } else if b.len() == 0 {
        false
    } else if a[0] == b[0] {
        lex_lt(a.drop_first(), b.drop_first())
    } else {
        a[0] < b[0]
    }
}

pub proof fn lemma_lex_irreflexive(a: Seq<char>)
    ensures
        !lex_lt(a, a),
    decreases a.len(),
{
    if a.len() > 0 {
        lemma_lex_irreflexive(a.drop_first());
    }
}

pub proof fn lemma_lex_transitive(a: Seq<char>, b: Seq<char>, c: Seq<char>)
    requires
        lex_lt(a, b),
        lex_lt(b, c),
    ensures
        lex_lt(a, c),
    decreases a.len(),
{
    if a.len() > 0 && b.len() > 0 && c.len() > 0 {
        if a[0] == b[0] && b[0] == c[0] {
            lemma_lex_transitive(a.drop_first(), b.drop_first(), c.drop_first());
        }
    }
}

pub proof fn lemma_lex_total(a: Seq<char>, b: Seq<char>)
    requires
        a != b,
    ensures
        lex_lt(a, b) || lex_lt(b, a),
    decreases a.len(),
{
    if a.len() > 0 && b.len() > 0 && a[0] == b[0] {
        if a.drop_first() == b.drop_first() {
            assert(a =~= seq![a[0]] + a.drop_first());
            assert(b =~= seq![b[0]] + b.drop_first());
        }
        lemma_lex_total(a.drop_first(), b.drop_first());
    } else if a.len() > 0 && b.len() > 0 {

    } else if a.len() == 0 && b.len() == 0 {
        assert(a =~= b);
    }
}

pub proof fn lemma_lex_asymmetric(a: Seq<char>, b: Seq<char>)
    requires
        lex_lt(a, b),
    ensures
        !lex_lt(b, a),
{
    if lex_lt(b, a) {
        lemma_lex_transitive(a, b, a);
        lemma_lex_irreflexive(a);
    }
}

/// Whether `a` comes strictly before `b`.
pub fn str_lt(a: &str, b: &str) -> (r: bool)
    ensures
        r == lex_lt(a@, b@),
{
    let x = chars_of(a);
    let y = chars_of(b);
    let mut i: usize = 0;
    assert(a@.skip(0) =~= a@);
    assert(b@.skip(0) =~= b@);
    while i < x.len() && i < y.len() && x[i] == y[i]
        invariant
            x@ == a@,
            y@ == b@,
            i <= x@.len(),
            i <= y@.len(),
            lex_lt(a@, b@) == lex_lt(a@.skip(i as int), b@.skip(i as int)),
        decreases x@.len() - i,
    {
        assert(a@.skip(i as int).drop_first() =~= a@.skip(i + 1));
        assert(b@.skip(i as int).drop_first() =~= b@.skip(i + 1));
        i = i + 1;
    }
    if i == x.len() {
        i < y.len()
    } else if i == y.len() {
        false
    } else {
        x[i] < y[i]
    }
}

/// Values that carry a text key.
pub trait Keyed {
    spec fn key(&self) -> Seq<char>;

    fn key_str(&self) -> (r: &str)
        ensures
            r@ == self.key(),
    ;
}

impl Keyed for String {
    open spec fn key(&self) -> Seq<char> {
        self@
    }

    fn key_str(&self) -> (r: &str) {
        self.as_str()
    }
}

/// The keys are in ascending order.
pub open spec fn sorted_by_key<T: Keyed>(s: Seq<T>) -> bool {
    forall|i: int, j: int| 0 <= i < j < s.len() ==> !lex_lt(s[j].key(), s[i].key())
}

proof fn lemma_insert_multiset<T>(s: Seq<T>, pos: int, x: T)
    requires
        0 <= pos <= s.len(),
    ensures
        s.insert(pos, x).to_multiset() =~= s.to_multiset().insert(x),
{
    let t = s.insert(pos, x);
    s.insert_ensures(pos, x);
    assert(t.remove(pos) =~= s);
    assert(t[pos] == x);
    assert(t.remove(pos).to_multiset() =~= t.to_multiset().remove(x));
    assert(t.contains(x));
    assert(t.to_multiset().count(x) > 0);
}

/// The values ordered by key; values of equal keys keep their order.
pub fn sort_by_key<T: Keyed>(v: Vec<T>) -> (r: Vec<T>)
    ensures
        sorted_by_key(r@),
        r@.to_multiset() =~= v@.to_multiset(),
{
    let mut out: Vec<T> = Vec::new();
    let mut rest = v;
    let ghost orig = rest@;
    let n0 = rest.len();
    assert(orig.len() == n0);
    let mut consumed: usize = 0;
    assert(orig.skip(0) =~= orig);
    while rest.len() > 0
        invariant
            sorted_by_key(out@),
            rest@ == orig.skip(consumed as int),
            consumed <= orig.len(),
            consumed + rest@.len() == orig.len(),
            orig.len() <= usize::MAX,
            out@.to_multiset() =~= orig.take(consumed as int).to_multiset(),
        decreases rest@.len(),
    {
        let x = rest.remove(0);
        assert(x == orig[consumed as int]);
        assert(orig.skip(consumed as int).remove(0) =~= orig.skip(consumed + 1));
        assert(orig.take(consumed + 1) =~= orig.take(consumed as int).push(x));
        let mut pos: usize = 0;
        while pos < out.len() && !str_lt(x.key_str(), out[pos].key_str())
            invariant
                pos <= out@.len(),
                forall|k: int| 0 <= k < pos ==> !lex_lt(x.key(), #[trigger] out@[k].key()),
            decreases out@.len() - pos,
        {
            pos = pos + 1;
        }
        let ghost before = out@;
        proof {
            if pos < before.len() {
                assert(lex_lt(x.key(), before[pos as int].key()));
                assert forall|k: int| pos <= k < before.len() implies lex_lt(
                    x.key(),
                    #[trigger] before[k].key(),
                ) by {
                    if k > pos {
                        if before[k].key() == before[pos as int].key() {
                        } else {
                            lemma_lex_total(before[k].key(), before[pos as int].key());
                            lemma_lex_transitive(x.key(), before[pos as int].key(), before[k].key());
                        }
                    }
                }
            }
            lemma_insert_multiset(before, pos as int, x);
        }
        out.insert(pos, x);
        proof {
            let t = out@;
            before.insert_ensures(pos as int, x);
            assert forall|i: int, j: int| 0 <= i < j < t.len() implies !lex_lt(
                t[j].key(),
                t[i].key(),
            ) by {
                if i < pos && j < pos {
                } else if i < pos && j == pos {
                    assert(!lex_lt(x.key(), before[i].key()));
                } else if i < pos && j > pos {
                    assert(t[j] == before[j - 1]);
                } else if i == pos {
                    assert(t[j] == before[j - 1]);
                    lemma_lex_asymmetric(x.key(), before[j - 1].key());
                } else {
                    assert(t[i] == before[i - 1]);
                    assert(t[j] == before[j - 1]);
                }
            }
        }
        consumed = consumed + 1;
    }
    assert(orig.take(consumed as int) =~= orig);
    out
}

/// The values ordered by key, descending.
pub fn sort_by_key_desc<T: Keyed>(v: Vec<T>) -> (r: Vec<T>)
    ensures
        forall|i: int, j: int| 0 <= i < j < r@.len() ==> !lex_lt(r@[i].key(), r@[j].key()),
        r@.to_multiset() =~= v@.to_multiset(),
{
    let mut s = sort_by_key(v);
    let ghost asc = s@;
    let mut out: Vec<T> = Vec::new();
    while s.len() > 0
        invariant
            s@ == asc.take(s@.len() as int),
            s@.len() <= asc.len(),
            out@ == asc.skip(s@.len() as int).reverse(),
        decreases s@.len(),
    {
        let ghost n = s@.len();
        let x = s.pop().unwrap();
        assert(asc.take(n - 1) =~= asc.take(n as int).drop_last());
        assert(asc.skip(n - 1).reverse() =~= asc.skip(n as int).reverse().push(x));
        out.push(x);
    }
    proof {
        assert(asc.skip(0) =~= asc);
        asc.lemma_reverse_to_multiset();
        let r = out@;
        assert forall|i: int, j: int| 0 <= i < j < r.len() implies !lex_lt(r[i].key(), r[j].key()) by {
            assert(r[i] == asc[asc.len() - 1 - i]);
            assert(r[j] == asc[asc.len() - 1 - j]);
        }
    }
    out
}

/// No two entries share a key.
pub open spec fn keys_distinct<T: Keyed>(s: Seq<T>) -> bool {
    forall|i: int, j: int| 0 <= i < j < s.len() ==> s[i].key() != s[j].key()
}

/// Each key comes strictly before the next ones.
pub open spec fn strictly_ascending<T: Keyed>(s: Seq<T>) -> bool {
    forall|i: int, j: int| 0 <= i < j < s.len() ==> lex_lt(s[i].key(), s[j].key())
}

/// Each key comes strictly after the next ones.
pub open spec fn strictly_descending<T: Keyed>(s: Seq<T>) -> bool {
    forall|i: int, j: int| 0 <= i < j < s.len() ==> lex_lt(s[j].key(), s[i].key())
}

/// Keeping some entries keeps the keys distinct.
pub proof fn lemma_filter_keeps_keys_distinct<T: Keyed>(s: Seq<T>, pred: spec_fn(T) -> bool)
    requires
        keys_distinct(s),
    ensures
        keys_distinct(s.filter(pred)),
    decreases s.len(),
{
    reveal_with_fuel(Seq::filter, 1);
    if s.len() > 0 {
        let d = s.drop_last();
        assert(keys_distinct(d)) by {
            assert forall|i: int, j: int| 0 <= i < j < d.len() implies d[i].key() != d[j].key() by {
                assert(d[i] == s[i] && d[j] == s[j]);
            }
        }
        lemma_filter_keeps_keys_distinct(d, pred);
        let f = s.filter(pred);
        let fd = d.filter(pred);
        if pred(s.last()) {
            assert(f == fd.push(s.last()));
            assert forall|x: int, y: int| 0 <= x < y < f.len() implies f[x].key() != f[y].key() by {
                if y == f.len() - 1 {
                    assert(f[x] == fd[x]);
                    assert(fd.contains(fd[x]));
                    d.lemma_filter_contains_rev(pred, fd[x]);
                    let k = choose|k: int| 0 <= k < d.len() && d[k] == fd[x];
                    assert(s[k] == d[k]);
                    assert(s[s.len() - 1] == s.last());
                } else {
                    assert(f[x] == fd[x] && f[y] == fd[y]);
                }
            }
        } else {
            assert(f == fd);
        }
    }
}

/// Reordering entries with distinct keys keeps the keys distinct.
pub proof fn lemma_permutation_keeps_keys_distinct<T: Keyed>(r: Seq<T>, s: Seq<T>)
    requires
        r.to_multiset() =~= s.to_multiset(),
        keys_distinct(s),
    ensures
        keys_distinct(r),
{
    assert(s.no_duplicates()) by {
        assert forall|i: int, j: int| 0 <= i < s.len() && 0 <= j < s.len() && i != j implies s[i] != s[j] by {
            if i < j {
                assert(s[i].key() != s[j].key());
            } else {
                assert(s[j].key() != s[i].key());
            }
        }
    }
    s.lemma_multiset_has_no_duplicates();
    r.lemma_multiset_has_no_duplicates_conv();
    assert forall|i: int, j: int| 0 <= i < j < r.len() implies r[i].key() != r[j].key() by {
        assert(r.contains(r[i]));
        assert(r.contains(r[j]));
        assert(r.to_multiset().count(r[i]) > 0);
        assert(r.to_multiset().count(r[j]) > 0);
        assert(s.contains(r[i]));
        assert(s.contains(r[j]));
        let a = choose|a: int| 0 <= a < s.len() && s[a] == r[i];
        let b = choose|b: int| 0 <= b < s.len() && s[b] == r[j];
        assert(r[i] != r[j]);
        assert(a != b);
        if a < b {
            assert(s[a].key() != s[b].key());
        } else {
            assert(s[b].key() != s[a].key());
        }
    }
}

/// In key order and with distinct keys, the order is strict.
pub proof fn lemma_sorted_distinct_is_strict<T: Keyed>(r: Seq<T>)
    requires
        sorted_by_key(r),
        keys_distinct(r),
    ensures
        strictly_ascending(r),
{
    assert forall|i: int, j: int| 0 <= i < j < r.len() implies lex_lt(r[i].key(), r[j].key()) by {
        lemma_lex_total(r[i].key(), r[j].key());
    }
}

/// In descending key order and with distinct keys, the order is strict.
pub proof fn lemma_desc_distinct_is_strict<T: Keyed>(r: Seq<T>)
    requires
        forall|i: int, j: int| 0 <= i < j < r.len() ==> !lex_lt(r[i].key(), r[j].key()),
        keys_distinct(r),
    ensures
        strictly_descending(r),
{
    assert forall|i: int, j: int| 0 <= i < j < r.len() implies lex_lt(r[j].key(), r[i].key()) by {
        lemma_lex_total(r[i].key(), r[j].key());
    }
}

} // verus!
