//! Sorting file names in the order of `String`'s `Ord`: lexicographic by
//! character, which is the byte order of their UTF-8 encoding.

use vstd::prelude::*;
use crate::text::str_chars;

verus! {

broadcast use vstd::seq_lib::group_to_multiset_ensures;

/// `a` comes strictly before `b`: at the first position where they differ the
/// character of `a` is smaller, or `a` is a proper prefix of `b`.
pub open spec fn name_lt(a: Seq<char>, b: Seq<char>) -> bool
    decreases a.len(),
{
    if a.len() == 0 {
        b.len() > 0
    } else if b.len() == 0 {
        false
    } else if a[0] != b[0] {
        (a[0] as int) < (b[0] as int)
    } else {
        name_lt(a.drop_first(), b.drop_first())
    }
}

pub open spec fn name_le(a: Seq<char>, b: Seq<char>) -> bool {
    a == b || name_lt(a, b)
}

/// The names are in ascending order.
pub open spec fn names_sorted(s: Seq<Seq<char>>) -> bool {
    forall|i: int, j: int| 0 <= i < j < s.len() ==> name_le(#[trigger] s[i], #[trigger] s[j])
}

pub open spec fn names_view(v: Seq<String>) -> Seq<Seq<char>> {
    v.map_values(|s: String| s@)
}

proof fn lemma_lt_total(a: Seq<char>, b: Seq<char>)
    ensures
        a == b || name_lt(a, b) || name_lt(b, a),
        name_lt(a, b) ==> !name_lt(b, a),
    decreases a.len(),
{
    if a.len() > 0 && b.len() > 0 && a[0] == b[0] {
        lemma_lt_total(a.drop_first(), b.drop_first());
        if a.drop_first() == b.drop_first() {
            assert(a =~= seq![a[0]] + a.drop_first());
            assert(b =~= seq![b[0]] + b.drop_first());
        }
    } else if a.len() == 0 && b.len() == 0 {
        assert(a =~= b);
    }
}

proof fn lemma_lt_transitive(a: Seq<char>, b: Seq<char>, c: Seq<char>)
    requires
        name_lt(a, b),
        name_lt(b, c),
    ensures
        name_lt(a, c),
    decreases a.len(),
{
    if a.len() > 0 && b.len() > 0 && c.len() > 0 && a[0] == b[0] && b[0] == c[0] {
        lemma_lt_transitive(a.drop_first(), b.drop_first(), c.drop_first());
    }
}

proof fn lemma_le_transitive(a: Seq<char>, b: Seq<char>, c: Seq<char>)
    requires
        name_le(a, b),
        name_le(b, c),
    ensures
        name_le(a, c),
{
    if name_lt(a, b) && name_lt(b, c) {
        lemma_lt_transitive(a, b, c);
    }
}

/// Whether `a` comes strictly before `b` (see [`name_lt`]).
pub fn name_before(a: &str, b: &str) -> (r: bool)
    ensures
        r == name_lt(a@, b@),
{
    let x = str_chars(a);
    let y = str_chars(b);
    let mut k: usize = 0;
    assert(x@.skip(0) =~= x@);
    assert(y@.skip(0) =~= y@);
    while k < x.len() && k < y.len()
        invariant
            x@ == a@,
            y@ == b@,
            k <= x@.len(),
            k <= y@.len(),
            name_lt(a@, b@) == name_lt(x@.skip(k as int), y@.skip(k as int)),
        decreases x@.len() - k,
    {
        let ghost xs = x@.skip(k as int);
        let ghost ys = y@.skip(k as int);
        assert(xs[0] == x@[k as int]);
        assert(ys[0] == y@[k as int]);
        if x[k] != y[k] {
            return x[k] < y[k];
        }
        assert(xs.drop_first() =~= x@.skip(k + 1));
        assert(ys.drop_first() =~= y@.skip(k + 1));
        k = k + 1;
    }
    assert(x@.skip(k as int).len() == x@.len() - k);
    k == x.len() && k < y.len()
}

/// The names in ascending order (see [`names_sorted`]), with the same names
/// as before: `names.sort()`.
pub fn sort_names(names: Vec<String>) -> (out: Vec<String>)
    ensures
        names_sorted(names_view(out@)),
        names_view(out@).to_multiset() == names_view(names@).to_multiset(),
{
    let mut out: Vec<String> = Vec::new();
    let n = names.len();
    let mut i: usize = 0;
    while i < n
        invariant
            n == names@.len(),
            i <= n,
            names_sorted(names_view(out@)),
            names_view(out@).to_multiset() == names_view(names@.subrange(0, i as int)).to_multiset(),
        decreases n - i,
    {
        let x = names[i].clone();
        let mut j: usize = 0;
        while j < out.len() && !name_before(x.as_str(), out[j].as_str())
            invariant
                j <= out@.len(),
                forall|k: int| 0 <= k < j ==> !name_lt(x@, #[trigger] names_view(out@)[k]),
            decreases out@.len() - j,
        {
            j = j + 1;
        }
        let ghost before = names_view(out@);
        proof {
            assert forall|k: int| 0 <= k < j implies name_le(#[trigger] before[k], x@) by {
                lemma_lt_total(x@, before[k]);
            }
            if j < before.len() {
                assert(name_lt(x@, before[j as int]));
                assert forall|k: int| j <= k < before.len() implies name_le(x@, #[trigger] before[k]) by {
                    if k > j {
                        assert(name_le(before[j as int], before[k]));
                        lemma_le_transitive(x@, before[j as int], before[k]);
                    }
                }
            }
        }
        out.insert(j, x);
        proof {
            let after = names_view(out@);
            assert(after =~= before.insert(j as int, names@[i as int]@));
            assert forall|p: int, q: int| 0 <= p < q < after.len() implies name_le(#[trigger] after[p], #[trigger] after[q]) by {
                if p < j && q < j {
                    assert(after[p] == before[p] && after[q] == before[q]);
                } else if p < j && q == j {
                } else if p < j && q > j {
                    assert(after[p] == before[p] && after[q] == before[q - 1]);
                    lemma_le_transitive(before[p], x@, before[q - 1]);
                } else if p == j {
                    assert(after[q] == before[q - 1]);
                } else {
                    assert(after[p] == before[p - 1] && after[q] == before[q - 1]);
                }
            }
            vstd::seq_lib::to_multiset_insert(before, j as int, names@[i as int]@);
            let pre = names_view(names@.subrange(0, i + 1));
            assert(pre =~= names_view(names@.subrange(0, i as int)).push(names@[i as int]@));
            vstd::seq_lib::to_multiset_build(names_view(names@.subrange(0, i as int)), names@[i as int]@);
        }
        i = i + 1;
    }
    assert(names@.subrange(0, n as int) =~= names@);
    out
}

} // verus!
