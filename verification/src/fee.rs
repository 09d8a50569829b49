//! The parking fee: a flat hourly rate, charged on the seconds a spot was
//! held and rounded up to a whole unit of currency.

use vstd::prelude::*;

verus! {

/// Currency units charged per hour.
pub const RATE_PER_HOUR: u64 = 5;

/// Seconds in an hour.
pub const SECONDS_PER_HOUR: u64 = 3600;

/// The fee for `duration` seconds: `duration / 3600 * 5`, rounded up.
pub open spec fn fee_for(duration: nat) -> nat {
    ((duration * RATE_PER_HOUR + SECONDS_PER_HOUR - 1) / (SECONDS_PER_HOUR as int)) as nat
}

/// `fee_for` is the ceiling of the exact charge: it covers the charge, and one
/// unit less would not.
pub proof fn lemma_fee_is_ceiling(duration: nat)
    ensures
        fee_for(duration) * SECONDS_PER_HOUR >= duration * RATE_PER_HOUR,
        (fee_for(duration) - 1) * SECONDS_PER_HOUR < duration * RATE_PER_HOUR,
{
}

/// A longer stay never costs less.
pub proof fn lemma_fee_monotonic(shorter: nat, longer: nat)
    requires
        shorter <= longer,
    ensures
        fee_for(shorter) <= fee_for(longer),
{
}

/// Computes the fee for a stay of `duration` seconds.
pub fn calculate_fee(duration: u64) -> (fee: u64)
    ensures
        fee == fee_for(duration as nat),
{
    let charge: u128 = duration as u128 * RATE_PER_HOUR as u128;
    let fee: u128 = (charge + (SECONDS_PER_HOUR as u128 - 1)) / SECONDS_PER_HOUR as u128;
    fee as u64
}

} // verus!
