//! The source of random numbers: the thread-local generator of `rand`.

use rand::Rng;
use vstd::prelude::*;

verus! {

/// `rand::rngs::ThreadRng`, the handle to the thread-local generator. Its
/// contents are not looked into.
#[verifier::external_type_specification]
#[verifier::external_body]
pub struct ExThreadRng(rand::rngs::ThreadRng);

/// `rand::thread_rng` hands out the handle to the thread-local generator.
/// Nothing is claimed of the handle. The call takes no argument; it fails
/// only where the operating system has no entropy to seed the generator.
pub assume_specification[ rand::thread_rng ]() -> (rng: rand::rngs::ThreadRng);

/// Draws one `usize` with `Rng::gen`. The number depends on chance, so
/// nothing is claimed of it: callers are proved for every value.
#[verifier::external_body]
pub(crate) fn next_usize(rng: &mut rand::rngs::ThreadRng) -> (r: usize) {
    rng.gen::<usize>()
}

} // verus!
