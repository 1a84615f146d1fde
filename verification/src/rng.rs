//! Trusted boundary around the pseudo-random utility. The generator is a
//! pure function of its explicit state — no clock, process or machine input
//! — so seeding and drawing are named: a round of the game replays
//! deterministically given the seed. Nothing here is of cryptographic
//! quality, and the spawner is not designed to resist prediction.
use vstd::prelude::*;

verus! {

/// The generator state that seeding produces, as its plain state pair.
pub uninterp spec fn rand_init_of(seed: u64) -> (u64, u64);

/// The draw and the successor state of one ranged draw on a generator with
/// the given state.
pub uninterp spec fn rand_step_of(state: (u64, u64), lo: u32, hi: u32) -> (u32, (u64, u64));

/// Relies on oorandom::Rand32::new and Rand32::state: the seeded generator's
/// state is a function of the seed alone (pure wrapping arithmetic).
#[verifier::external_body]
pub(crate) fn rng_new(seed: u64) -> (r: (u64, u64))
    ensures
        r == rand_init_of(seed),
{
    oorandom::Rand32::new(seed).state()
}

/// Relies on oorandom::Rand32::rand_range, with Rand32::from_state and
/// Rand32::state carrying the plain state in and out (they round-trip the
/// struct exactly): the draw is uniform in the half-open range `lo..hi` and,
/// with its successor state, a function of the state and range alone. The
/// source rejects an empty range, so `lo < hi` is owed.
#[verifier::external_body]
pub(crate) fn rng_range(state: (u64, u64), lo: u32, hi: u32) -> (r: (u32, (u64, u64)))
    requires
        lo < hi,
    ensures
        r == rand_step_of(state, lo, hi),
        lo <= r.0 < hi,
{
    let mut g = oorandom::Rand32::from_state(state);
    let d = g.rand_range(lo..hi);
    (d, g.state())
}

} // verus!
