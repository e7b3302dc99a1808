//! The random draws of the quiz, taken from the `rand` crate.
//!
//! Nothing in here is proved: each item states what the crate's source shows
//! of the function it stands for. No item says which values are drawn.

use rand::rngs::ThreadRng;
use rand::seq::SliceRandom;
use rand::RngCore;
use vstd::prelude::*;

verus! {

/// `rand::rngs::ThreadRng`, the handle to the thread's generator. Its inside
/// is not looked at.
#[verifier::external_type_specification]
#[verifier::external_body]
pub struct ExThreadRng(rand::rngs::ThreadRng);

/// `rand::thread_rng` hands out the calling thread's generator. Nothing is
/// claimed of it. (It seeds itself from the operating system on first use
/// and gives up only if the system has no randomness to offer.)
pub assume_specification[ rand::thread_rng ]() -> (rng: ThreadRng)
;

/// `SliceRandom::shuffle` on the vector's slice. The crate's loop does
/// nothing but swap two places of the slice, so afterwards the vector holds
/// the same items as before, each as often as before, in some order.
#[verifier::external_body]
pub(crate) fn shuffle(order: &mut Vec<usize>, rng: &mut ThreadRng)
    ensures
        final(order)@.to_multiset() == old(order)@.to_multiset(),
{
    order.shuffle(rng);
}

/// `RngCore::next_u32` of the thread's generator: some 32-bit number.
#[verifier::external_body]
pub(crate) fn next_u32(rng: &mut ThreadRng) -> (raw: u32) {
    rng.next_u32()
}

} // verus!
