//! Position of the first set flag in a sequence of flags.
//!
//! Every "first element that ..." query of this crate is phrased as: mark
//! each element with a flag, then take the first set flag.

use vstd::prelude::*;

verus! {

/// `i` is a position of `flags` that is set, and no earlier position is.
pub open spec fn is_first_set(flags: Seq<bool>, i: int) -> bool {
    &&& 0 <= i < flags.len()
    &&& flags[i]
    &&& forall|j: int| 0 <= j < i ==> !flags[j]
}

/// The position of the first set flag, if any flag is set.
pub open spec fn first_set(flags: Seq<bool>) -> Option<int> {
    if exists|i: int| is_first_set(flags, i) {
        Some(choose|i: int| is_first_set(flags, i))
    } else {
        None
    }
}

/// A position that satisfies `is_first_set` is the value of `first_set`.
pub proof fn lemma_first_set_at(flags: Seq<bool>, i: int)
    requires
        is_first_set(flags, i),
    ensures
        first_set(flags) == Some(i),
{
    let k = choose|k: int| is_first_set(flags, k);
    assert(is_first_set(flags, k));
    if k < i {
        assert(!flags[k]);
    } else if i < k {
        assert(!flags[i]);
    }
}

/// With no flag set there is no first set flag.
pub proof fn lemma_first_set_none(flags: Seq<bool>)
    requires
        forall|j: int| 0 <= j < flags.len() ==> !flags[j],
    ensures
        first_set(flags) is None,
{
}

/// A set flag at `k` means that a first set flag exists, at `k` or before it.
pub proof fn lemma_first_set_upto(flags: Seq<bool>, k: int)
    requires
        0 <= k < flags.len(),
        flags[k],
    ensures
        first_set(flags) is Some,
        is_first_set(flags, first_set(flags).unwrap()),
        first_set(flags).unwrap() <= k,
    decreases k,
{
    if forall|j: int| 0 <= j < k ==> !flags[j] {
        assert(is_first_set(flags, k));
        lemma_first_set_at(flags, k);
    } else {
        let j = choose|j: int| 0 <= j < k && flags[j];
        lemma_first_set_upto(flags, j);
    }
}

/// What `first_set` returns is a first set flag, and it returns nothing only
/// when no flag is set.
pub proof fn lemma_first_set_sound(flags: Seq<bool>)
    ensures
        match first_set(flags) {
            Some(i) => is_first_set(flags, i),
            None => forall|j: int| 0 <= j < flags.len() ==> !flags[j],
        },
{
    if first_set(flags) is None {
        assert forall|j: int| 0 <= j < flags.len() implies !flags[j] by {
            if flags[j] {
                lemma_first_set_upto(flags, j);
            }
        }
    }
}

/// Finds the first set flag.
pub fn first_flagged(flags: &[bool]) -> (found: Option<usize>)
    ensures
        match found {
            Some(i) => first_set(flags@) == Some(i as int),
            None => first_set(flags@) is None,
        },
{
    let mut i: usize = 0;
    while i < flags.len()
        invariant
            i <= flags.len(),
            forall|j: int| 0 <= j < i ==> !flags@[j],
        decreases flags.len() - i,
    {
        if flags[i] {
            proof {
                lemma_first_set_at(flags@, i as int);
            }
            return Some(i);
        }
        i += 1;
    }
    proof {
        lemma_first_set_none(flags@);
    }
    None
}

} // verus!
