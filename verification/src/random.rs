//! Shuffling through the `rand` crate.

use vstd::prelude::*;
use rand::rngs::ThreadRng;

verus! {

#[verifier::external_type_specification]
#[verifier::external_body]
pub struct ExThreadRng(ThreadRng);

/// Calls `rand::thread_rng`: a handle to the thread-local random number
/// generator. Nothing is stated of it; its outputs are random.
#[verifier::external_body]
pub(crate) fn thread_rng() -> ThreadRng {
    rand::thread_rng()
}

/// Calls `rand::seq::SliceRandom::shuffle` on the elements of `v`. The
/// crate's implementation (a Fisher-Yates shuffle) only swaps elements, so
/// the result holds the same elements as many times each: a permutation.
/// Which permutation is random and not stated.
#[verifier::external_body]
pub(crate) fn shuffle<E>(v: &mut Vec<E>, rng: &mut ThreadRng)
    ensures
        final(v)@.to_multiset() == old(v)@.to_multiset(),
        final(v)@.len() == old(v)@.len(),
{
    rand::seq::SliceRandom::shuffle(v.as_mut_slice(), rng)
}

} // verus!
