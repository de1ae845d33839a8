//! The random draws the exchange needs, behind trusted wrappers around the
//! rand crate.  A caller builds a `rand::rngs::StdRng` itself (for a
//! reproducible run, from a fixed seed) and passes it in; everything proved
//! here holds whatever numbers come out.

use vstd::prelude::*;

verus! {

/// The rand crate's standard generator, carried opaquely through the
/// steward's and the strongholds' draws.
#[verifier::external_type_specification]
#[verifier::external_body]
pub struct ExStdRng(rand::rngs::StdRng);

/// Relies on rand's `Rng::gen_range`: a sample from `0..3` lies below
/// three, and the range is not empty, so the call returns.
#[verifier::external_body]
pub(crate) fn draw_index(rng: &mut rand::rngs::StdRng) -> (i: usize)
    ensures
        i < 3,
{
    rand::Rng::gen_range(rng, 0..3)
}

/// Relies on rand's `Rng::gen_range`: a sample from `5..10` lies in that
/// window, and the range is not empty, so the call returns.
#[verifier::external_body]
pub(crate) fn draw_delay(rng: &mut rand::rngs::StdRng) -> (t: u64)
    ensures
        5 <= t < 10,
{
    rand::Rng::gen_range(rng, 5..10)
}

} // verus!
