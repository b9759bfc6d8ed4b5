//! A beam on a stake pool: the worth of its pool tokens and the yield that
//! it could hand over.

use vstd::prelude::*;
use crate::beam::{proportional, surplus, BeamCalculationError};
use crate::math::{proportional_fits, proportional_spec, RoundingMode};
use crate::pubkey::Pubkey;
use crate::state::{first_index, is_registered, State};

verus! {

/// A fee as a fraction.
#[derive(Clone, Copy, Debug, PartialEq, Eq, Structural)]
pub struct Fee {
    pub denominator: u64,
    pub numerator: u64,
}

/// What a beam reads of a stake pool.
#[derive(Clone, Copy, Debug, PartialEq, Eq, Structural)]
pub struct StakePool {
    /// The lamports staked in the pool.
    pub total_lamports: u64,
    /// The pool tokens in existence.
    pub pool_token_supply: u64,
    /// The fee that the pool takes when stake is withdrawn.
    pub stake_withdrawal_fee: Fee,
}

/// The pool tokens that `lamports` are worth, rounded down.
pub fn pool_tokens_from_lamports(stake_pool: &StakePool, lamports: u64) -> (result: Result<
    u64,
    BeamCalculationError,
>)
    ensures
        match result {
            Ok(tokens) => tokens == proportional_spec(
                lamports as int,
                stake_pool.pool_token_supply as int,
                stake_pool.total_lamports as int,
                RoundingMode::Down,
            ),
            Err(e) => e == BeamCalculationError::CalculationFailure && !proportional_fits(
                lamports as int,
                stake_pool.pool_token_supply as int,
                stake_pool.total_lamports as int,
                RoundingMode::Down,
            ),
        },
{
    proportional(lamports, stake_pool.pool_token_supply, stake_pool.total_lamports)
}

/// The yield that a beam on a stake pool could hand over: what its pool
/// tokens are worth in lamports, above what the beam answers for.
pub open spec fn stake_pool_yield(
    state: State,
    beam: Pubkey,
    stake_pool: StakePool,
    pool_token_balance: u64,
) -> Result<int, BeamCalculationError> {
    if !proportional_fits(
        pool_token_balance as int,
        stake_pool.total_lamports as int,
        stake_pool.pool_token_supply as int,
        RoundingMode::Down,
    ) {
        Err(BeamCalculationError::CalculationFailure)
    } else if !is_registered(state.allocations@, beam) {
        Err(BeamCalculationError::UnidentifiedBeam)
    } else {
        Ok(
            surplus(
                proportional_spec(
                    pool_token_balance as int,
                    stake_pool.total_lamports as int,
                    stake_pool.pool_token_supply as int,
                    RoundingMode::Down,
                ),
                state.allocations@[first_index(
                    state.allocations@,
                    beam,
                )].partial_gsol_supply as int,
            ),
        )
    }
}

/// The yield that the beam `beam` could hand over, while it holds
/// `pool_token_balance` pool tokens of the stake pool.
pub fn calculate_extractable_yield(
    sunrise_state: &State,
    beam: &Pubkey,
    stake_pool: &StakePool,
    pool_token_balance: u64,
) -> (result: Result<u64, BeamCalculationError>)
    ensures
        match stake_pool_yield(*sunrise_state, *beam, *stake_pool, pool_token_balance) {
            Ok(amount) => result == Ok::<u64, BeamCalculationError>(amount as u64) && 0 <= amount
                <= u64::MAX,
            Err(e) => result == Err::<u64, BeamCalculationError>(e),
        },
{
    let owned_pool_value = match proportional(
        pool_token_balance,
        stake_pool.total_lamports,
        stake_pool.pool_token_supply,
    ) {
        Ok(value) => value,
        Err(e) => {
            return Err(e);
        },
    };
    let staked_sol = match sunrise_state.get_beam_details(beam) {
        Some(details) => details.partial_gsol_supply,
        None => {
            return Err(BeamCalculationError::UnidentifiedBeam);
        },
    };
    Ok(owned_pool_value.saturating_sub(staked_sol))
}

/// What is left of a yield once the fee is taken off it; the fee is the
/// fee's share of the yield, rounded down.
pub fn net_extractable_yield(gross_extractable_yield: u64, fee: &Fee) -> (result: Result<
    u64,
    BeamCalculationError,
>)
    ensures
        match result {
            Ok(net) => net == surplus(
                gross_extractable_yield as int,
                proportional_spec(
                    gross_extractable_yield as int,
                    fee.numerator as int,
                    fee.denominator as int,
                    RoundingMode::Down,
                ),
            ),
            Err(e) => e == BeamCalculationError::CalculationFailure && !proportional_fits(
                gross_extractable_yield as int,
                fee.numerator as int,
                fee.denominator as int,
                RoundingMode::Down,
            ),
        },
{
    let fee_amount = match proportional(gross_extractable_yield, fee.numerator, fee.denominator) {
        Ok(amount) => amount,
        Err(e) => {
            return Err(e);
        },
    };
    Ok(gross_extractable_yield.saturating_sub(fee_amount))
}

/// What a beam reads of a stake account.
#[derive(Clone, Copy, Debug, PartialEq, Eq, Structural)]
pub enum StakeAccount {
    /// Nothing has been written to the account.
    Uninitialized,
    /// The account is set up and holds no stake.
    Initialized,
    /// The account holds stake that stops being active in the given epoch.
    Stake { deactivation_epoch: u64 },
    /// The account is a rewards pool.
    RewardsPool,
}

impl StakeAccount {
    /// Whether the lamports of the account can be withdrawn in
    /// `current_epoch`: it holds no stake, or its stake has stopped being
    /// active.
    pub fn can_be_withdrawn(&self, current_epoch: u64) -> (result: bool)
        ensures
            result == match *self {
                StakeAccount::Stake { deactivation_epoch } => deactivation_epoch <= current_epoch,
                StakeAccount::Initialized => true,
                _ => false,
            },
    {
        match self {
            StakeAccount::Stake { deactivation_epoch } => *deactivation_epoch <= current_epoch,
            StakeAccount::Initialized => true,
            _ => false,
        }
    }
}

} // verus!
