//! What the computations of all beams share: the share that may fail, and
//! what is left above an amount.

use vstd::prelude::*;
use crate::math::{
    checked_proportional_with_rounding, proportional_fits, proportional_spec, RoundingMode,
};

verus! {

/// The reason a beam's computation was refused.
#[derive(Clone, Copy, Debug, PartialEq, Eq, Structural)]
pub enum BeamCalculationError {
    /// A share does not fit 64 bits.
    CalculationFailure,
    /// The key names no registered beam.
    UnidentifiedBeam,
}

/// The share `amount * numerator / denominator`, rounded down; `amount`
/// where the denominator is zero. Refused where the share does not fit 64
/// bits.
pub fn proportional(amount: u64, numerator: u64, denominator: u64) -> (result: Result<
    u64,
    BeamCalculationError,
>)
    ensures
        match result {
            Ok(share) => share == proportional_spec(
                amount as int,
                numerator as int,
                denominator as int,
                RoundingMode::Down,
            ),
            Err(e) => e == BeamCalculationError::CalculationFailure && !proportional_fits(
                amount as int,
                numerator as int,
                denominator as int,
                RoundingMode::Down,
            ),
        },
{
    match checked_proportional_with_rounding(amount, numerator, denominator, RoundingMode::Down) {
        Some(share) => Ok(share),
        None => Err(BeamCalculationError::CalculationFailure),
    }
}

/// What is left of `value` above `staked`, and zero where nothing is.
pub open spec fn surplus(value: int, staked: int) -> int {
    if value >= staked {
        value - staked
    } else {
        0
    }
}

} // verus!
