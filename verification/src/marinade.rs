//! A beam on Marinade's stake pool: the worth of its mSOL and the yield that
//! it could hand over.

use vstd::prelude::*;
use crate::beam::{proportional, surplus, BeamCalculationError};
use crate::math::{proportional_fits, proportional_spec, RoundingMode};
use crate::pubkey::Pubkey;
use crate::state::{first_index, is_registered, State};

verus! {

/// What a beam reads of Marinade's state.
#[derive(Clone, Copy, Debug, PartialEq, Eq, Structural)]
pub struct MarinadeState {
    /// The mSOL in existence.
    pub msol_supply: u64,
    /// The lamports that cool down after a delayed unstake.
    pub delayed_unstake_cooling_down: u64,
    /// The lamports that cool down after an emergency unstake.
    pub emergency_cooling_down: u64,
    /// The lamports staked with validators.
    pub total_active_balance: u64,
    /// The lamports in the reserve.
    pub available_reserve_balance: u64,
    /// The lamports owed to tickets not claimed yet.
    pub circulating_ticket_balance: u64,
    /// The lamports that keep a token account free of rent.
    pub rent_exempt_for_token_acc: u64,
}

impl MarinadeState {
    /// The lamports that cool down.
    pub open spec fn cooling_down(&self) -> int {
        self.delayed_unstake_cooling_down + self.emergency_cooling_down
    }

    /// The lamports that Marinade controls: staked, cooling down or in the
    /// reserve.
    pub open spec fn under_control(&self) -> int {
        self.total_active_balance + self.cooling_down() + self.available_reserve_balance
    }

    /// The lamports that back the mSOL: those under control, less what is
    /// owed to tickets, and zero where more is owed.
    pub open spec fn virtual_staked(&self) -> int {
        surplus(self.under_control(), self.circulating_ticket_balance as int)
    }

    /// Whether the lamports under control fit 64 bits.
    pub fn balances_fit(&self) -> (result: bool)
        ensures
            result == (self.under_control() <= u64::MAX),
    {
        match self.delayed_unstake_cooling_down.checked_add(self.emergency_cooling_down) {
            None => false,
            Some(cooling) => match self.total_active_balance.checked_add(cooling) {
                None => false,
                Some(staked) => staked.checked_add(self.available_reserve_balance).is_some(),
            },
        }
    }
}

/// The lamports that cool down.
pub fn total_cooling_down(marinade_state: &MarinadeState) -> (result: u64)
    requires
        marinade_state.cooling_down() <= u64::MAX,
    ensures
        result == marinade_state.cooling_down(),
{
    marinade_state.delayed_unstake_cooling_down + marinade_state.emergency_cooling_down
}

/// The lamports that Marinade controls.
pub fn total_lamports_under_control(marinade_state: &MarinadeState) -> (result: u64)
    requires
        marinade_state.under_control() <= u64::MAX,
    ensures
        result == marinade_state.under_control(),
{
    marinade_state.total_active_balance + total_cooling_down(marinade_state)
        + marinade_state.available_reserve_balance
}

/// The lamports that back the mSOL.
pub fn total_virtual_staked_lamports(marinade_state: &MarinadeState) -> (result: u64)
    requires
        marinade_state.under_control() <= u64::MAX,
    ensures
        result == marinade_state.virtual_staked(),
{
    total_lamports_under_control(marinade_state).saturating_sub(
        marinade_state.circulating_ticket_balance,
    )
}

/// The mSOL that `stake_lamports` are worth, rounded down.
pub fn calc_msol_from_lamports(marinade_state: &MarinadeState, stake_lamports: u64) -> (result:
    Result<u64, BeamCalculationError>)
    requires
        marinade_state.under_control() <= u64::MAX,
    ensures
        match result {
            Ok(msol) => msol == proportional_spec(
                stake_lamports as int,
                marinade_state.msol_supply as int,
                marinade_state.virtual_staked(),
                RoundingMode::Down,
            ),
            Err(e) => e == BeamCalculationError::CalculationFailure && !proportional_fits(
                stake_lamports as int,
                marinade_state.msol_supply as int,
                marinade_state.virtual_staked(),
                RoundingMode::Down,
            ),
        },
{
    proportional(
        stake_lamports,
        marinade_state.msol_supply,
        total_virtual_staked_lamports(marinade_state),
    )
}

/// The lamports that `msol_amount` is worth, rounded down.
pub fn calc_lamports_from_msol_amount(marinade_state: &MarinadeState, msol_amount: u64) -> (result:
    Result<u64, BeamCalculationError>)
    requires
        marinade_state.under_control() <= u64::MAX,
    ensures
        match result {
            Ok(lamports) => lamports == proportional_spec(
                msol_amount as int,
                marinade_state.virtual_staked(),
                marinade_state.msol_supply as int,
                RoundingMode::Down,
            ),
            Err(e) => e == BeamCalculationError::CalculationFailure && !proportional_fits(
                msol_amount as int,
                marinade_state.virtual_staked(),
                marinade_state.msol_supply as int,
                RoundingMode::Down,
            ),
        },
{
    proportional(
        msol_amount,
        total_virtual_staked_lamports(marinade_state),
        marinade_state.msol_supply,
    )
}

/// The yield that a beam on Marinade could hand over: what its mSOL is
/// worth in lamports, above what the beam answers for.
pub open spec fn marinade_yield(
    state: State,
    beam: Pubkey,
    marinade_state: MarinadeState,
    msol_balance: u64,
) -> Result<int, BeamCalculationError> {
    if !proportional_fits(
        msol_balance as int,
        marinade_state.virtual_staked(),
        marinade_state.msol_supply as int,
        RoundingMode::Down,
    ) {
        Err(BeamCalculationError::CalculationFailure)
    } else if !is_registered(state.allocations@, beam) {
        Err(BeamCalculationError::UnidentifiedBeam)
    } else {
        Ok(
            surplus(
                proportional_spec(
                    msol_balance as int,
                    marinade_state.virtual_staked(),
                    marinade_state.msol_supply as int,
                    RoundingMode::Down,
                ),
                state.allocations@[first_index(
                    state.allocations@,
                    beam,
                )].partial_gsol_supply as int,
            ),
        )
    }
}

/// The yield that the beam `beam` could hand over, while it holds
/// `msol_balance` mSOL.
pub fn calculate_extractable_yield(
    sunrise_state: &State,
    beam: &Pubkey,
    marinade_state: &MarinadeState,
    msol_balance: u64,
) -> (result: Result<u64, BeamCalculationError>)
    requires
        marinade_state.under_control() <= u64::MAX,
    ensures
        match marinade_yield(*sunrise_state, *beam, *marinade_state, msol_balance) {
            Ok(amount) => result == Ok::<u64, BeamCalculationError>(amount as u64) && 0 <= amount
                <= u64::MAX,
            Err(e) => result == Err::<u64, BeamCalculationError>(e),
        },
{
    let staked_value = match calc_lamports_from_msol_amount(marinade_state, msol_balance) {
        Ok(value) => value,
        Err(e) => {
            return Err(e);
        },
    };
    let staked_sol = match sunrise_state.get_beam_details(beam) {
        Some(details) => details.partial_gsol_supply,
        None => {
            return Err(BeamCalculationError::UnidentifiedBeam);
        },
    };
    Ok(staked_value.saturating_sub(staked_sol))
}

} // verus!
