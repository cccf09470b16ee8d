//! Lexicographic order on texts, and sorting paths by it.

use vstd::prelude::*;
use vstd::seq_lib::{group_to_multiset_ensures, lemma_multiset_commutative};

use crate::text::chars_of;

verus! {

/// `a` comes before `b` in code-point order, which is the order of `str`'s `Ord`.
pub open spec fn seq_lt(a: Seq<char>, b: Seq<char>) -> bool
    decreases a.len(),
{
    if a.len() == 0 {
        b.len() > 0
    } else if b.len() == 0 {
        false
    } else if a[0] != b[0] {
        a[0] < b[0]
    } else {
        seq_lt(a.drop_first(), b.drop_first())
    }
}

/// Texts in ascending order.
pub open spec fn sorted_ascending(s: Seq<String>) -> bool {
    forall|i: int, j: int| 0 <= i < j < s.len() ==> !seq_lt(#[trigger] s[j]@, #[trigger] s[i]@)
}

pub proof fn lemma_lt_transitive(a: Seq<char>, b: Seq<char>, c: Seq<char>)
    requires
        seq_lt(a, b),
        seq_lt(b, c),
    ensures
        seq_lt(a, c),
    decreases a.len(),
{
    if a.len() > 0 && b.len() > 0 && c.len() > 0 && a[0] == b[0] && b[0] == c[0] {
        lemma_lt_transitive(a.drop_first(), b.drop_first(), c.drop_first());
    }
}

pub proof fn lemma_lt_irreflexive(a: Seq<char>)
    ensures
        !seq_lt(a, a),
    decreases a.len(),
{
    if a.len() > 0 {
        lemma_lt_irreflexive(a.drop_first());
    }
}

pub proof fn lemma_insert_multiset<A>(s: Seq<A>, p: int, x: A)
    requires
        0 <= p <= s.len(),
    ensures
        s.insert(p, x).to_multiset() == s.to_multiset().insert(x),
{
    broadcast use group_to_multiset_ensures;

    let a = s.subrange(0, p);
    let b = s.subrange(p, s.len() as int);
    lemma_multiset_commutative(a.push(x), b);
    lemma_multiset_commutative(a, b);
    assert(s =~= a + b);
    assert(s.to_multiset().insert(x) =~= a.push(x).to_multiset().add(b.to_multiset()));
}

/// Whether `a` comes before `b`.
pub fn chars_lt(a: &Vec<char>, b: &Vec<char>) -> (r: bool)
    ensures
        r == seq_lt(a@, b@),
{
    let mut i: usize = 0;
    assert(a@.subrange(0, a@.len() as int) =~= a@);
    assert(b@.subrange(0, b@.len() as int) =~= b@);
    loop
        invariant
            i <= a@.len(),
            i <= b@.len(),
            seq_lt(a@, b@) == seq_lt(
                a@.subrange(i as int, a@.len() as int),
                b@.subrange(i as int, b@.len() as int),
            ),
        decreases a@.len() - i,
    {
        if i == a.len() {
            return i < b.len();
        }
        if i == b.len() {
            return false;
        }
        if a[i] != b[i] {
            return a[i] < b[i];
        }
        assert(a@.subrange(i as int, a@.len() as int).drop_first() =~= a@.subrange(
            i + 1,
            a@.len() as int,
        ));
        assert(b@.subrange(i as int, b@.len() as int).drop_first() =~= b@.subrange(
            i + 1,
            b@.len() as int,
        ));
        i += 1;
    }
}

/// Whether text `a` comes before text `b`.
pub fn str_lt(a: &str, b: &str) -> (r: bool)
    ensures
        r == seq_lt(a@, b@),
{
    chars_lt(&chars_of(a), &chars_of(b))
}

/// The paths in ascending order; equal paths keep their order.
pub fn sort_paths(paths: Vec<String>) -> (r: Vec<String>)
    ensures
        sorted_ascending(r@),
        r@.to_multiset() == paths@.to_multiset(),
{
    let mut res: Vec<String> = Vec::new();
    let mut k: usize = 0;
    assert(paths@.subrange(0, 0) =~= Seq::<String>::empty());
    while k < paths.len()
        invariant
            k <= paths@.len(),
            sorted_ascending(res@),
            res@.to_multiset() == paths@.subrange(0, k as int).to_multiset(),
        decreases paths@.len() - k,
    {
        let x = paths[k].clone();
        let mut p: usize = 0;
        while p < res.len() && !str_lt(x.as_str(), res[p].as_str())
            invariant
                k < paths@.len(),
                sorted_ascending(res@),
                res@.to_multiset() == paths@.subrange(0, k as int).to_multiset(),
                x == paths@[k as int],
                p <= res@.len(),
                forall|i: int| 0 <= i < p ==> !seq_lt(x@, #[trigger] res@[i]@),
            decreases res@.len() - p,
        {
            p += 1;
        }
        let ghost old_res = res@;
        res.insert(p, x);
        proof {
            old_res.insert_ensures(p as int, x);
            lemma_insert_multiset(old_res, p as int, x);
            assert(paths@.subrange(0, k + 1) =~= paths@.subrange(0, k as int).push(paths@[k as int]));
            broadcast use group_to_multiset_ensures;
            assert forall|i: int, j: int| 0 <= i < j < res@.len() implies !seq_lt(
                #[trigger] res@[j]@,
                #[trigger] res@[i]@,
            ) by {
                if i < p && j == p {
                } else if i == p && j > p {
                    assert(res@[j] == old_res[j - 1]);
                    if seq_lt(old_res[j - 1]@, x@) {
                        lemma_lt_transitive(old_res[j - 1]@, x@, old_res[p as int]@);
                        lemma_lt_irreflexive(old_res[p as int]@);
                    }
                } else if i < p && j > p {
                    assert(res@[i] == old_res[i]);
                    assert(res@[j] == old_res[j - 1]);
                } else if j < p {
                } else {
                    assert(res@[i] == old_res[i - 1]);
                    assert(res@[j] == old_res[j - 1]);
                }
            }
        }
        k += 1;
    }
    assert(paths@.subrange(0, paths@.len() as int) =~= paths@);
    res
}

} // verus!
