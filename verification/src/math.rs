//! Proportional arithmetic: `amount * numerator / denominator` on 64-bit
//! amounts, computed in 128 bits.

use vstd::prelude::*;

verus! {

/// The direction in which a quotient that is not whole is rounded.
#[derive(Clone, Copy, Debug, PartialEq, Eq, Structural)]
pub enum RoundingMode {
    Up,
    Down,
}

/// The share `amount * numerator / denominator`, rounded as `mode` says.
/// A zero denominator leaves `amount` as it is.
pub open spec fn proportional_spec(
    amount: int,
    numerator: int,
    denominator: int,
    mode: RoundingMode,
) -> int {
    if denominator == 0 {
        amount
    } else {
        match mode {
            RoundingMode::Down => (amount * numerator) / denominator,
            RoundingMode::Up => (amount * numerator + (denominator - 1)) / denominator,
        }
    }
}

/// Whether the share fits the 64 bits of an amount.
pub open spec fn proportional_fits(
    amount: int,
    numerator: int,
    denominator: int,
    mode: RoundingMode,
) -> bool {
    proportional_spec(amount, numerator, denominator, mode) <= u64::MAX
}

/// `num_traits::NumCast::from`, from `u128` to `u64`: the same number where
/// it fits 64 bits, and `None` where it does not.
#[verifier::external_body]
fn narrow_to_u64(value: u128) -> (result: Option<u64>)
    ensures
        result == (if value <= u64::MAX {
            Some(value as u64)
        } else {
            None::<u64>
        }),
{
    num_traits::NumCast::from(value)
}

/// The product of two amounts never leaves 128 bits, nor does it with one
/// less than a third amount added.
pub proof fn lemma_product_bounds(amount: u64, numerator: u64, denominator: u64)
    ensures
        0 <= amount * numerator,
        amount * numerator + denominator <= u128::MAX,
{
    assert(0 <= amount * numerator && amount * numerator <= 0xffff_ffff_ffff_ffff
        * 0xffff_ffff_ffff_ffff) by (nonlinear_arith)
        requires
            0 <= amount <= 0xffff_ffff_ffff_ffff,
            0 <= numerator <= 0xffff_ffff_ffff_ffff,
    ;
}

/// The share in the given rounding mode, or `None` where it does not fit
/// 64 bits.
pub fn checked_proportional_with_rounding(
    amount: u64,
    numerator: u64,
    denominator: u64,
    rounding_mode: RoundingMode,
) -> (result: Option<u64>)
    ensures
        match result {
            Some(share) => share == proportional_spec(
                amount as int,
                numerator as int,
                denominator as int,
                rounding_mode,
            ),
            None => !proportional_fits(
                amount as int,
                numerator as int,
                denominator as int,
                rounding_mode,
            ),
        },
{
    if denominator == 0 {
        return Some(amount);
    }
    proof {
        lemma_product_bounds(amount, numerator, denominator);
    }
    let product: u128 = (amount as u128) * (numerator as u128);
    let quotient: u128 = match rounding_mode {
        RoundingMode::Up => (product + (denominator as u128 - 1)) / (denominator as u128),
        RoundingMode::Down => product / (denominator as u128),
    };
    narrow_to_u64(quotient)
}

/// The share in the given rounding mode.
pub fn proportional_with_rounding(
    amount: u64,
    numerator: u64,
    denominator: u64,
    rounding_mode: RoundingMode,
) -> (result: u64)
    requires
        proportional_fits(amount as int, numerator as int, denominator as int, rounding_mode),
    ensures
        result == proportional_spec(
            amount as int,
            numerator as int,
            denominator as int,
            rounding_mode,
        ),
{
    let share = checked_proportional_with_rounding(amount, numerator, denominator, rounding_mode);
    share.unwrap()
}

/// The share, rounded down.
pub fn proportional(amount: u64, numerator: u64, denominator: u64) -> (result: u64)
    requires
        proportional_fits(
            amount as int,
            numerator as int,
            denominator as int,
            RoundingMode::Down,
        ),
    ensures
        result == proportional_spec(
            amount as int,
            numerator as int,
            denominator as int,
            RoundingMode::Down,
        ),
{
    proportional_with_rounding(amount, numerator, denominator, RoundingMode::Down)
}

/// The share of amounts kept in 128 bits with a sign, rounded down. No
/// operand is negative, and the product fits.
pub fn proportional_wide(amount: i128, numerator: i128, denominator: i128) -> (result: i128)
    requires
        0 <= amount,
        0 <= numerator,
        0 <= denominator,
        amount * numerator <= i128::MAX,
    ensures
        result == proportional_spec(
            amount as int,
            numerator as int,
            denominator as int,
            RoundingMode::Down,
        ),
{
    if denominator == 0 {
        return amount;
    }
    assert(0 <= amount * numerator) by (nonlinear_arith)
        requires
            0 <= amount,
            0 <= numerator,
    ;
    amount * numerator / denominator
}

/// As `proportional_wide`, or `None` where an operand is negative or the
/// product leaves 128 bits with a sign.
pub fn checked_proportional_wide(amount: i128, numerator: i128, denominator: i128) -> (result:
    Option<i128>)
    ensures
        match result {
            Some(share) => {
                &&& 0 <= amount
                &&& 0 <= numerator
                &&& 0 <= denominator
                &&& amount * numerator <= i128::MAX
                &&& share == proportional_spec(
                    amount as int,
                    numerator as int,
                    denominator as int,
                    RoundingMode::Down,
                )
            },
            None => !(0 <= amount && 0 <= numerator && 0 <= denominator && amount * numerator
                <= i128::MAX),
        },
{
    if amount < 0 || numerator < 0 || denominator < 0 {
        return None;
    }
    assert(0 <= amount * numerator) by (nonlinear_arith)
        requires
            0 <= amount,
            0 <= numerator,
    ;
    if amount.checked_mul(numerator).is_none() {
        return None;
    }
    Some(proportional_wide(amount, numerator, denominator))
}

/// Rounding down never gives more than rounding up.
pub proof fn lemma_down_at_most_up(amount: nat, numerator: nat, denominator: nat)
    ensures
        proportional_spec(amount as int, numerator as int, denominator as int, RoundingMode::Down)
            <= proportional_spec(
            amount as int,
            numerator as int,
            denominator as int,
            RoundingMode::Up,
        ),
{
    if denominator != 0 {
        let product = amount as int * numerator as int;
        vstd::arithmetic::div_mod::lemma_div_is_ordered(
            product,
            product + (denominator as int - 1),
            denominator as int,
        );
    }
}

/// With a zero denominator the share is the amount itself, in either
/// rounding mode.
pub proof fn lemma_zero_denominator_is_identity(amount: nat, numerator: nat, mode: RoundingMode)
    ensures
        proportional_spec(amount as int, numerator as int, 0, mode) == amount,
{
}

} // verus!
