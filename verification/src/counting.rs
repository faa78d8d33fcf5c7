use vstd::prelude::*;

verus! {

/// How many elements of `s` equal `c`.
pub open spec fn count_of<T>(s: Seq<T>, c: T) -> nat
    decreases s.len(),
{
    if s.len() == 0 {
        0
    } else {
        count_of(s.drop_last(), c) + if s.last() == c {
            1nat
        } else {
            0nat
        }
    }
}

/// Writing `v` at `i` changes the count of `c` by what left and what came.
pub proof fn lemma_count_update<T>(s: Seq<T>, i: int, v: T, c: T)
    requires
        0 <= i < s.len(),
    ensures
        count_of(s.update(i, v), c) + (if s[i] == c {
            1int
        } else {
            0int
        }) == count_of(s, c) + (if v == c {
            1int
        } else {
            0int
        }),
    decreases s.len(),
{
    let u = s.update(i, v);
    if i == s.len() - 1 {
        assert(u.drop_last() =~= s.drop_last());
    } else {
        assert(u.drop_last() =~= s.drop_last().update(i, v));
        lemma_count_update(s.drop_last(), i, v, c);
    }
}

/// A sequence with no element equal to `c` counts none of it.
pub proof fn lemma_count_none<T>(s: Seq<T>, c: T)
    requires
        forall|i: int| 0 <= i < s.len() ==> s[i] != c,
    ensures
        count_of(s, c) == 0,
    decreases s.len(),
{
    if s.len() > 0 {
        lemma_count_none(s.drop_last(), c);
    }
}

} // verus!
