use rand::rngs::ThreadRng;
use rand::RngExt;
use vstd::prelude::*;

verus! {

/// `rand`'s per-thread generator, carried through the library opaquely.
#[verifier::external_type_specification]
#[verifier::external_body]
pub struct ExThreadRng(ThreadRng);

/// `rand::rng()`: a handle to the thread-local random generator. Nothing is
/// claimed of its state.
#[verifier::external_body]
pub fn thread_rng() -> ThreadRng {
    rand::rng()
}

/// `RngExt::random_range(lo..hi)` on `u32`: a value drawn from the half-open
/// range. The contract claims only that the draw lies in `[lo, hi)`, which
/// holds of every outcome; `rand` panics on an empty range, so `lo < hi` is
/// required.
#[verifier::external_body]
pub fn random_below(rng: &mut ThreadRng, lo: u32, hi: u32) -> (res: u32)
    requires
        lo < hi,
    ensures
        lo <= res < hi,
{
    rng.random_range(lo..hi)
}

/// `RngExt::random_ratio(numerator, denominator)`: `true` with probability
/// `numerator / denominator`. `rand` documents that it is always `true` when
/// the two are equal and always `false` when the numerator is 0, and panics
/// when the denominator is 0 or below the numerator; nothing else is claimed
/// of the outcome.
#[verifier::external_body]
pub fn random_ratio(rng: &mut ThreadRng, numerator: u32, denominator: u32) -> (res: bool)
    requires
        0 < denominator,
        numerator <= denominator,
    ensures
        numerator == denominator ==> res,
        numerator == 0 ==> !res,
{
    rng.random_ratio(numerator, denominator)
}

} // verus!
