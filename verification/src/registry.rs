//! Setting the state up, and giving slots to beams and taking them back.

use vstd::prelude::*;
use crate::epoch::{BeamEpochDetails, EpochReport, EpochReportView};
use crate::error::BeamError;
use crate::pubkey::Pubkey;
use crate::state::{
    first_index, has_key, is_registered, BeamDetails, RegisterStateInput, State, StateView,
    UpdateStateInput,
};

verus! {

/// Makes the state anew from the input, the mint and its supply, in
/// `current_epoch`.
pub fn register_state(
    state: &mut State,
    input: RegisterStateInput,
    gsol_mint_auth_bump: u8,
    gsol_mint: &Pubkey,
    gsol_mint_supply: u64,
    current_epoch: u64,
)
    ensures
        final(state).wf(),
        final(state)@ == (StateView {
            update_authority: input.update_authority,
            gsol_mint: *gsol_mint,
            pre_supply: gsol_mint_supply,
            gsol_mint_authority_bump: gsol_mint_auth_bump,
            yield_account: input.yield_account,
            allocations: Seq::new(input.initial_capacity as nat, |i: int| BeamDetails::vacant()),
            epoch_report: EpochReportView {
                current_epoch,
                current_gsol_supply: 0,
                beam_epoch_details: Seq::new(
                    input.initial_capacity as nat,
                    |i: int|
                        BeamEpochDetails {
                            epoch: current_epoch,
                            extractable_yield: 0,
                            extracted_yield: 0,
                        },
                ),
            },
        }),
{
    state.register(input, gsol_mint_auth_bump, gsol_mint, gsol_mint_supply, current_epoch);
}

/// Replaces the fields of the state that the input names.
pub fn update_state(state: &mut State, input: UpdateStateInput)
    ensures
        final(state).wf() == old(state).wf(),
        final(state)@ == (StateView {
            update_authority: match input.new_update_authority {
                Some(key) => key,
                None => old(state).update_authority,
            },
            gsol_mint: match input.new_gsol_mint {
                Some(key) => key,
                None => old(state).gsol_mint,
            },
            gsol_mint_authority_bump: match input.new_gsol_mint_authority_bump {
                Some(bump) => bump,
                None => old(state).gsol_mint_authority_bump,
            },
            yield_account: match input.new_yield_account {
                Some(key) => key,
                None => old(state).yield_account,
            },
            ..old(state)@
        }),
{
    state.update(input);
}

/// Registers a beam: the first free slot is given to it, with no allocation
/// and nothing to answer for. Refused with `InvalidParameter` where the key
/// is the zero key, which names no beam; with `DuplicateBeamEntry` where a
/// slot holds the key already; and with `NoSpaceInAllocations` where no
/// slot is free.
pub fn register_beam(state: &mut State, beam: Pubkey) -> (result: Result<(), BeamError>)
    ensures
        final(state).wf() == old(state).wf(),
        beam == Pubkey::zero() ==> result == Err::<(), BeamError>(BeamError::InvalidParameter)
            && *final(state) == *old(state),
        is_registered(old(state).allocations@, beam) ==> result == Err::<(), BeamError>(
            BeamError::DuplicateBeamEntry,
        ) && *final(state) == *old(state),
        beam != Pubkey::zero() && !has_key(old(state).allocations@, beam) && !has_key(
            old(state).allocations@,
            Pubkey::zero(),
        ) ==> result == Err::<(), BeamError>(BeamError::NoSpaceInAllocations) && *final(state)
            == *old(state),
        beam != Pubkey::zero() && !has_key(old(state).allocations@, beam) && has_key(
            old(state).allocations@,
            Pubkey::zero(),
        ) ==> result.is_ok() && final(state)@ == (StateView {
            allocations: old(state).allocations@.update(
                first_index(old(state).allocations@, Pubkey::zero()),
                BeamDetails {
                    key: beam,
                    allocation: 0,
                    partial_gsol_supply: 0,
                    draining_mode: false,
                },
            ),
            ..old(state)@
        }),
{
    state.add_beam(BeamDetails::new(beam, 0))
}

/// Takes the slot back from a beam. Refused with `UnidentifiedBeam` where
/// the key names no registered beam (the zero key never does), and with
/// `NonZeroAllocation` where the beam's allocation is not zero.
pub fn remove_beam(state: &mut State, beam: Pubkey) -> (result: Result<(), BeamError>)
    ensures
        final(state).wf() == old(state).wf(),
        !is_registered(old(state).allocations@, beam) ==> result == Err::<(), BeamError>(
            BeamError::UnidentifiedBeam,
        ) && *final(state) == *old(state),
        is_registered(old(state).allocations@, beam) && old(state).allocations@[first_index(
            old(state).allocations@,
            beam,
        )].allocation != 0 ==> result == Err::<(), BeamError>(BeamError::NonZeroAllocation)
            && *final(state) == *old(state),
        is_registered(old(state).allocations@, beam) && old(state).allocations@[first_index(
            old(state).allocations@,
            beam,
        )].allocation == 0 ==> result.is_ok() && final(state)@ == (StateView {
            allocations: old(state).allocations@.update(
                first_index(old(state).allocations@, beam),
                BeamDetails::vacant(),
            ),
            ..old(state)@
        }),
{
    state.remove_beam(&beam)
}

/// The bytes that the state takes when stored, once it has
/// `additional_beams` more slots.
pub fn calculate_new_size(state: &State, additional_beams: usize) -> (result: usize)
    requires
        State::spec_size(state.allocations@.len() + additional_beams) <= usize::MAX,
    ensures
        result == State::spec_size(state.allocations@.len() + additional_beams),
{
    let current_len = state.allocations.len();
    let new_len = current_len + additional_beams;
    State::size(new_len)
}

/// Whether the state can be stored with `additional_beams` more slots: the
/// bytes it then takes can be counted.
pub open spec fn can_grow_by(slots: int, additional_beams: int) -> bool {
    State::spec_size(slots + additional_beams) <= usize::MAX
}

/// Gives the state `additional_beams` more slots, all vacant, behind those
/// it has, each with a record in the epoch report that holds no yield and
/// is of the report's epoch. Returns the bytes that the state then takes
/// when stored. Refused with `WouldExceedBeamCapacity` where those bytes
/// cannot be counted.
pub fn resize_allocations(state: &mut State, additional_beams: usize) -> (result: Result<
    usize,
    BeamError,
>)
    ensures
        !can_grow_by(old(state).allocations@.len() as int, additional_beams as int) ==> result
            == Err::<usize, BeamError>(BeamError::WouldExceedBeamCapacity) && *final(state)
            == *old(state),
        can_grow_by(old(state).allocations@.len() as int, additional_beams as int) ==> result
            == Ok::<usize, BeamError>(
            State::spec_size(old(state).allocations@.len() + additional_beams) as usize,
        ) && final(state)@ == (StateView {
            allocations: old(state).allocations@ + Seq::new(
                additional_beams as nat,
                |i: int| BeamDetails::vacant(),
            ),
            epoch_report: EpochReportView {
                beam_epoch_details: old(state).epoch_report.beam_epoch_details@ + Seq::new(
                    additional_beams as nat,
                    |i: int|
                        BeamEpochDetails {
                            epoch: old(state).epoch_report.current_epoch,
                            extractable_yield: 0,
                            extracted_yield: 0,
                        },
                ),
                ..old(state).epoch_report@
            },
            ..old(state)@
        }),
        old(state).wf() ==> final(state).wf(),
{
    let current_len = state.allocations.len();
    let new_len = match current_len.checked_add(additional_beams) {
        Some(len) => len,
        None => {
            return Err(BeamError::WouldExceedBeamCapacity);
        },
    };
    let fixed: usize = State::SIZE_WITH_ZERO_BEAMS + EpochReport::SIZE_WITH_ZERO_BEAMS;
    let per_slot: usize = BeamDetails::SIZE + BeamEpochDetails::SIZE;
    assert(fixed == 265 && per_slot == 194);
    if new_len > (usize::MAX - fixed) / per_slot {
        return Err(BeamError::WouldExceedBeamCapacity);
    }
    let new_size = State::size(new_len);
    let epoch = state.epoch_report.current_epoch;
    let mut i: usize = 0;
    while i < additional_beams
        invariant
            i <= additional_beams,
            epoch == old(state).epoch_report.current_epoch,
            state@ == (StateView {
                allocations: old(state).allocations@ + Seq::new(
                    i as nat,
                    |j: int| BeamDetails::vacant(),
                ),
                epoch_report: EpochReportView {
                    beam_epoch_details: old(state).epoch_report.beam_epoch_details@ + Seq::new(
                        i as nat,
                        |j: int|
                            BeamEpochDetails {
                                epoch: old(state).epoch_report.current_epoch,
                                extractable_yield: 0,
                                extracted_yield: 0,
                            },
                    ),
                    ..old(state).epoch_report@
                },
                ..old(state)@
            }),
        decreases additional_beams - i,
    {
        state.allocations.push(BeamDetails::default());
        state.epoch_report.beam_epoch_details.push(BeamEpochDetails::new(epoch));
        i = i + 1;
        assert(state.allocations@ =~= old(state).allocations@ + Seq::new(
            i as nat,
            |j: int| BeamDetails::vacant(),
        ));
        assert(state.epoch_report.beam_epoch_details@ =~= old(
            state,
        ).epoch_report.beam_epoch_details@ + Seq::new(
            i as nat,
            |j: int|
                BeamEpochDetails {
                    epoch: old(state).epoch_report.current_epoch,
                    extractable_yield: 0,
                    extracted_yield: 0,
                },
        ));
    }
    Ok(new_size)
}

} // verus!
