//! The process-wide random source, behind trusted wrappers.  Nothing is
//! promised of a drawn value beyond its range: every caller must hold
//! for every outcome.

use vstd::prelude::*;
use rand::Rng;

verus! {

/// Relies on rand's `thread_rng` and `Rng::gen`: a random integer, of
/// which nothing is promised.
#[verifier::external_body]
pub(crate) fn random_u64() -> u64 {
    rand::thread_rng().gen()
}

/// Relies on rand's `thread_rng` and `Rng::gen_range` with the range
/// 32..127: a random printable-ASCII character; only the range is
/// promised.
#[verifier::external_body]
pub(crate) fn random_printable_char() -> (r: char)
    ensures
        32 <= (r as u32) && (r as u32) < 127,
{
    char::from(rand::thread_rng().gen_range(32u8..127))
}

} // verus!
