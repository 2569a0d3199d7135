//! Random draws taken from the `rand` crate.
use vstd::prelude::*;
use rand::{RngExt, SeedableRng};
use rand::rngs::StdRng;

verus! {

/// The value that a `StdRng` seeded by `seed_from_u64(seed)` yields first for
/// `random_range(low..=high)`.
pub uninterp spec fn seeded_roll_value(seed: u64, low: u8, high: u8) -> u8;

/// Seeds `rand::rngs::StdRng` with `SeedableRng::seed_from_u64(seed)` and draws one value with
/// `RngExt::random_range(low..=high)`. Claimed: the value lies in `low..=high`, as
/// `random_range` documents for a non-empty range (an empty one panics, hence the
/// `requires`), and it is the same for the same seed and range, since a seeded `StdRng` is
/// reproducible. Which value a seed gives is not stated.
#[verifier::external_body]
pub(crate) fn seeded_roll(seed: u64, low: u8, high: u8) -> (r: u8)
    requires
        low <= high,
    ensures
        low <= r <= high,
        r == seeded_roll_value(seed, low, high),
{
    StdRng::seed_from_u64(seed).random_range(low..=high)
}

/// Draws one value with `rand::random_range(low..=high)` from the thread-local generator.
/// Claimed: the value lies in `low..=high` (an empty range panics, hence the `requires`).
/// Nothing more is stated: it is random.
#[verifier::external_body]
pub(crate) fn thread_roll(low: u8, high: u8) -> (r: u8)
    requires
        low <= high,
    ensures
        low <= r <= high,
{
    rand::random_range(low..=high)
}

/// Draws a `bool` with `rand::random()` from the thread-local generator. Nothing is claimed
/// of the result: it is random.
#[verifier::external_body]
pub(crate) fn coin_flip() -> bool {
    rand::random()
}

} // verus!
