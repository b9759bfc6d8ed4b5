//! Minting, burning and handing over: each beam may add to what it answers
//! for only while it is within its share of the supply.

use vstd::prelude::*;
use crate::error::BeamError;
use crate::pubkey::Pubkey;
use crate::state::{first_index, has_key, is_registered, BeamDetails, State, StateView};

verus! {

/// The slot of the beam that makes a request: the calling program must own
/// the beam's account, and the beam must be registered. The zero key names
/// no beam, so a request under it is refused as one of an unknown beam.
pub open spec fn authenticated_index(
    slots: Seq<BeamDetails>,
    beam: Pubkey,
    beam_owner: Pubkey,
    cpi_program: Pubkey,
) -> Result<int, BeamError> {
    if beam_owner != cpi_program {
        Err(BeamError::UnidentifiedCallingProgram)
    } else if !is_registered(slots, beam) {
        Err(BeamError::UnidentifiedBeam)
    } else {
        Ok(first_index(slots, beam))
    }
}

/// The most that a beam with the given allocation may answer for and still
/// mint, while the supply that the beams share is `effective_supply`.
pub open spec fn mint_window(allocation: u8, effective_supply: u64) -> int {
    (allocation as int * effective_supply as int) / 100
}

/// The record with another amount to answer for.
pub open spec fn with_supply(record: BeamDetails, supply: u64) -> BeamDetails {
    BeamDetails { partial_gsol_supply: supply, ..record }
}

/// The slots after the beam in slot `i` has minted `amount`. A draining
/// beam has no window: it is refused with `MintWindowExceeded` before
/// anything else is looked at. For the others, nothing limits the mint
/// while the shared supply is zero; otherwise what the beam answers for
/// before the mint must be within its window.
pub open spec fn slots_after_mint(
    slots: Seq<BeamDetails>,
    i: int,
    effective_supply: u64,
    amount: u64,
) -> Result<Seq<BeamDetails>, BeamError> {
    if slots[i].draining_mode {
        Err(BeamError::MintWindowExceeded)
    } else if effective_supply != 0 && slots[i].partial_gsol_supply > mint_window(
        slots[i].allocation,
        effective_supply,
    ) {
        Err(BeamError::MintWindowExceeded)
    } else if slots[i].partial_gsol_supply + amount > u64::MAX {
        Err(BeamError::Overflow)
    } else {
        Ok(slots.update(i, with_supply(slots[i], (slots[i].partial_gsol_supply + amount) as u64)))
    }
}

/// The slots after the beam in slot `i` has burned `amount`.
pub open spec fn slots_after_burn(slots: Seq<BeamDetails>, i: int, amount: u64) -> Result<
    Seq<BeamDetails>,
    BeamError,
> {
    if slots[i].partial_gsol_supply < amount {
        Err(BeamError::BurnWindowExceeded)
    } else {
        Ok(slots.update(i, with_supply(slots[i], (slots[i].partial_gsol_supply - amount) as u64)))
    }
}

/// What a request to mint comes to.
pub open spec fn mint_outcome(
    slots: Seq<BeamDetails>,
    pre_supply: u64,
    beam: Pubkey,
    beam_owner: Pubkey,
    cpi_program: Pubkey,
    gsol_supply: u64,
    amount: u64,
) -> Result<Seq<BeamDetails>, BeamError> {
    match authenticated_index(slots, beam, beam_owner, cpi_program) {
        Err(e) => Err(e),
        Ok(i) => slots_after_mint(slots, i, (gsol_supply - pre_supply) as u64, amount),
    }
}

/// What a request to burn comes to.
pub open spec fn burn_outcome(
    slots: Seq<BeamDetails>,
    beam: Pubkey,
    beam_owner: Pubkey,
    cpi_program: Pubkey,
    amount: u64,
) -> Result<Seq<BeamDetails>, BeamError> {
    match authenticated_index(slots, beam, beam_owner, cpi_program) {
        Err(e) => Err(e),
        Ok(i) => slots_after_burn(slots, i, amount),
    }
}

/// What a request to hand `amount` over to `recipient_beam` comes to: the
/// sender gives it up as in a burn, then the recipient answers for it.
pub open spec fn transfer_outcome(
    slots: Seq<BeamDetails>,
    beam: Pubkey,
    beam_owner: Pubkey,
    cpi_program: Pubkey,
    recipient_beam: Pubkey,
    amount: u64,
) -> Result<Seq<BeamDetails>, BeamError> {
    match burn_outcome(slots, beam, beam_owner, cpi_program, amount) {
        Err(e) => Err(e),
        Ok(given) => if !is_registered(given, recipient_beam) {
            Err(BeamError::UnidentifiedBeam)
        } else {
            let j = first_index(given, recipient_beam);
            if given[j].partial_gsol_supply + amount > u64::MAX {
                Err(BeamError::Overflow)
            } else {
                Ok(given.update(j, with_supply(given[j], (given[j].partial_gsol_supply + amount) as u64)))
            }
        },
    }
}

/// Whether a call that returned `result` did to the state what `outcome`
/// says: on `Ok` the slots are the new ones and all else is as before, on
/// `Err` that error is returned and the state is as before.
pub open spec fn slots_settled(
    before: State,
    after: State,
    result: Result<(), BeamError>,
    outcome: Result<Seq<BeamDetails>, BeamError>,
) -> bool {
    match outcome {
        Ok(slots) => result.is_ok() && after@ == (StateView { allocations: slots, ..before@ }),
        Err(e) => result == Err::<(), BeamError>(e) && after == before,
    }
}

/// The slot of the beam that makes a request. Refused with
/// `UnidentifiedCallingProgram` where the calling program does not own the
/// beam's account, and with `UnidentifiedBeam` where no slot holds the
/// beam's key.
pub fn checked_find_beam_idx(
    state: &State,
    beam: &Pubkey,
    beam_owner: &Pubkey,
    cpi_program_id: &Pubkey,
) -> (result: Result<usize, BeamError>)
    ensures
        match result {
            Ok(i) => i < state.allocations@.len() && authenticated_index(
                state.allocations@,
                *beam,
                *beam_owner,
                *cpi_program_id,
            ) == Ok::<int, BeamError>(i as int),
            Err(e) => authenticated_index(
                state.allocations@,
                *beam,
                *beam_owner,
                *cpi_program_id,
            ) == Err::<int, BeamError>(e),
        },
{
    if *beam_owner != *cpi_program_id {
        return Err(BeamError::UnidentifiedCallingProgram);
    }
    match state.find_beam_index(beam) {
        Some(i) => Ok(i),
        None => Err(BeamError::UnidentifiedBeam),
    }
}

/// Whether the beam may make a request. Refused with `UnidentifiedBeam`
/// where no slot holds the beam's key, and with
/// `UnidentifiedCallingProgram` where the calling program does not own the
/// beam's account.
pub fn check_beam_validity(
    state: &State,
    beam: &Pubkey,
    beam_owner: &Pubkey,
    cpi_program_id: &Pubkey,
) -> (result: Result<(), BeamError>)
    ensures
        !is_registered(state.allocations@, *beam) ==> result == Err::<(), BeamError>(
            BeamError::UnidentifiedBeam,
        ),
        is_registered(state.allocations@, *beam) && *beam_owner != *cpi_program_id ==> result
            == Err::<(), BeamError>(BeamError::UnidentifiedCallingProgram),
        is_registered(state.allocations@, *beam) && *beam_owner == *cpi_program_id
            ==> result.is_ok(),
{
    if !state.contains_beam(beam) {
        return Err(BeamError::UnidentifiedBeam);
    }
    if *beam_owner != *cpi_program_id {
        return Err(BeamError::UnidentifiedCallingProgram);
    }
    Ok(())
}

/// The most that a beam with the given allocation may answer for and still
/// mint: its share of the supply that the beams share, rounded down.
pub fn calculate_mint_window(allocation: u8, effective_supply: u64) -> (result: u128)
    ensures
        result == mint_window(allocation, effective_supply),
{
    assert(allocation as int * effective_supply as int <= 255 * 0xffff_ffff_ffff_ffff)
        by (nonlinear_arith)
        requires
            0 <= allocation <= 255,
            0 <= effective_supply <= 0xffff_ffff_ffff_ffff,
    ;
    (allocation as u128) * (effective_supply as u128) / 100
}

/// Lets a beam mint `amount` while the mint's supply is `gsol_supply`. The
/// beam then answers for `amount` more. Refused with `MintWindowExceeded`
/// where the beam drains or already answers for more than its window, and
/// with `Overflow` where the new amount leaves 64 bits.
pub fn mint_gsol(
    state: &mut State,
    beam: &Pubkey,
    beam_owner: &Pubkey,
    cpi_program: &Pubkey,
    gsol_supply: u64,
    amount: u64,
) -> (result: Result<(), BeamError>)
    requires
        gsol_supply >= old(state).pre_supply,
    ensures
        final(state).wf() == old(state).wf(),
        slots_settled(
            *old(state),
            *final(state),
            result,
            mint_outcome(
                old(state).allocations@,
                old(state).pre_supply,
                *beam,
                *beam_owner,
                *cpi_program,
                gsol_supply,
                amount,
            ),
        ),
{
    let idx = match checked_find_beam_idx(state, beam, beam_owner, cpi_program) {
        Ok(i) => i,
        Err(e) => {
            return Err(e);
        },
    };
    let effective_supply: u64 = gsol_supply - state.pre_supply;
    let details = state.allocations[idx];
    if details.draining_mode {
        return Err(BeamError::MintWindowExceeded);
    }
    if effective_supply != 0 {
        let window: u128 = calculate_mint_window(details.allocation, effective_supply);
        if (details.partial_gsol_supply as u128) > window {
            return Err(BeamError::MintWindowExceeded);
        }
    }
    let supply: u64 = match details.partial_gsol_supply.checked_add(amount) {
        Some(sum) => sum,
        None => {
            return Err(BeamError::Overflow);
        },
    };
    state.allocations[idx] = BeamDetails {
        key: details.key,
        allocation: details.allocation,
        partial_gsol_supply: supply,
        draining_mode: details.draining_mode,
    };
    Ok(())
}

/// Lets a beam burn `amount`. The beam then answers for `amount` less.
/// Refused with `BurnWindowExceeded` where the beam answers for less than
/// `amount`.
pub fn burn_gsol(
    state: &mut State,
    beam: &Pubkey,
    beam_owner: &Pubkey,
    cpi_program: &Pubkey,
    amount: u64,
) -> (result: Result<(), BeamError>)
    ensures
        final(state).wf() == old(state).wf(),
        slots_settled(
            *old(state),
            *final(state),
            result,
            burn_outcome(old(state).allocations@, *beam, *beam_owner, *cpi_program, amount),
        ),
{
    let idx = match checked_find_beam_idx(state, beam, beam_owner, cpi_program) {
        Ok(i) => i,
        Err(e) => {
            return Err(e);
        },
    };
    let details = state.allocations[idx];
    if details.partial_gsol_supply < amount {
        return Err(BeamError::BurnWindowExceeded);
    }
    state.allocations[idx] = BeamDetails {
        key: details.key,
        allocation: details.allocation,
        partial_gsol_supply: details.partial_gsol_supply - amount,
        draining_mode: details.draining_mode,
    };
    Ok(())
}

/// Hands `amount` of what a beam answers for over to `recipient_beam`; no
/// token is minted or burned. Refused with `BurnWindowExceeded` where the
/// sender answers for less than `amount`, with `UnidentifiedBeam` where no
/// slot holds the recipient's key, and with `Overflow` where the
/// recipient's amount leaves 64 bits.
pub fn transfer_gsol(
    state: &mut State,
    beam: &Pubkey,
    beam_owner: &Pubkey,
    cpi_program: &Pubkey,
    recipient_beam: &Pubkey,
    amount: u64,
) -> (result: Result<(), BeamError>)
    ensures
        final(state).wf() == old(state).wf(),
        slots_settled(
            *old(state),
            *final(state),
            result,
            transfer_outcome(
                old(state).allocations@,
                *beam,
                *beam_owner,
                *cpi_program,
                *recipient_beam,
                amount,
            ),
        ),
{
    let idx = match checked_find_beam_idx(state, beam, beam_owner, cpi_program) {
        Ok(i) => i,
        Err(e) => {
            return Err(e);
        },
    };
    let source = state.allocations[idx];
    if source.partial_gsol_supply < amount {
        return Err(BeamError::BurnWindowExceeded);
    }
    let remaining: u64 = source.partial_gsol_supply - amount;
    proof {
        lemma_supply_keeps_keys(old(state).allocations@, idx as int, remaining, *recipient_beam);
    }
    let target_idx = match state.find_beam_index(recipient_beam) {
        Some(j) => j,
        None => {
            return Err(BeamError::UnidentifiedBeam);
        },
    };
    let target_before: u64 = if target_idx == idx {
        remaining
    } else {
        state.allocations[target_idx].partial_gsol_supply
    };
    let target_after: u64 = match target_before.checked_add(amount) {
        Some(sum) => sum,
        None => {
            return Err(BeamError::Overflow);
        },
    };
    state.allocations[idx] = BeamDetails {
        key: source.key,
        allocation: source.allocation,
        partial_gsol_supply: remaining,
        draining_mode: source.draining_mode,
    };
    let target = state.allocations[target_idx];
    state.allocations[target_idx] = BeamDetails {
        key: target.key,
        allocation: target.allocation,
        partial_gsol_supply: target_after,
        draining_mode: target.draining_mode,
    };
    Ok(())
}

/// To change what a slot answers for moves no key: the same keys are held,
/// each first in the same slot.
pub proof fn lemma_supply_keeps_keys(slots: Seq<BeamDetails>, i: int, supply: u64, key: Pubkey)
    requires
        0 <= i < slots.len(),
    ensures
        has_key(slots.update(i, with_supply(slots[i], supply)), key) == has_key(slots, key),
        has_key(slots, key) ==> first_index(slots.update(i, with_supply(slots[i], supply)), key)
            == first_index(slots, key),
{
    let changed = slots.update(i, with_supply(slots[i], supply));
    assert(forall|j: int| 0 <= j < slots.len() ==> (#[trigger] changed[j]).key == slots[j].key);
    if has_key(slots, key) {
        crate::state::lemma_first_index_exists(slots, key);
        let first = first_index(slots, key);
        assert(changed[first].key == key);
        assert forall|j: int| 0 <= j < first implies (#[trigger] changed[j]).key != key by {
            assert(slots[j].key != key);
        }
        crate::state::lemma_first_index_unique(changed, key, first);
    }
    if has_key(changed, key) {
        let j = choose|j: int| 0 <= j < changed.len() && (#[trigger] changed[j]).key == key;
        assert(slots[j].key == key);
    }
}

/// A mint and then a burn of the same amount leave every slot as it was.
pub proof fn lemma_mint_then_burn_restores(
    slots: Seq<BeamDetails>,
    pre_supply: u64,
    beam: Pubkey,
    beam_owner: Pubkey,
    cpi_program: Pubkey,
    gsol_supply: u64,
    amount: u64,
)
    requires
        mint_outcome(slots, pre_supply, beam, beam_owner, cpi_program, gsol_supply, amount).is_ok(),
    ensures
        burn_outcome(
            mint_outcome(
                slots,
                pre_supply,
                beam,
                beam_owner,
                cpi_program,
                gsol_supply,
                amount,
            ).unwrap(),
            beam,
            beam_owner,
            cpi_program,
            amount,
        ) == Ok::<Seq<BeamDetails>, BeamError>(slots),
{
    crate::state::lemma_first_index_exists(slots, beam);
    let i = first_index(slots, beam);
    let minted = mint_outcome(
        slots,
        pre_supply,
        beam,
        beam_owner,
        cpi_program,
        gsol_supply,
        amount,
    ).unwrap();
    let more = (slots[i].partial_gsol_supply + amount) as u64;
    lemma_supply_keeps_keys(slots, i, more, beam);
    assert(minted == slots.update(i, with_supply(slots[i], more)));
    let burned = slots_after_burn(minted, i, amount).unwrap();
    assert(burned =~= slots);
}

/// A beam that answers for more than its window cannot mint, whatever the
/// amount, unless the shared supply is zero.
pub proof fn lemma_mint_beyond_window_refused(
    slots: Seq<BeamDetails>,
    pre_supply: u64,
    beam: Pubkey,
    cpi_program: Pubkey,
    gsol_supply: u64,
    amount: u64,
)
    requires
        is_registered(slots, beam),
        gsol_supply > pre_supply,
        slots[first_index(slots, beam)].partial_gsol_supply > mint_window(
            slots[first_index(slots, beam)].allocation,
            (gsol_supply - pre_supply) as u64,
        ),
    ensures
        mint_outcome(slots, pre_supply, beam, cpi_program, cpi_program, gsol_supply, amount)
            == Err::<Seq<BeamDetails>, BeamError>(BeamError::MintWindowExceeded),
{
}

/// What all slots together answer for.
pub open spec fn responsible_total(slots: Seq<BeamDetails>) -> int
    decreases slots.len(),
{
    if slots.len() == 0 {
        0
    } else {
        responsible_total(slots.drop_last()) + slots.last().partial_gsol_supply
    }
}

/// To change what one slot answers for changes the total by the same
/// amount.
pub proof fn lemma_total_after_change(slots: Seq<BeamDetails>, i: int, supply: u64)
    requires
        0 <= i < slots.len(),
    ensures
        responsible_total(slots.update(i, with_supply(slots[i], supply))) == responsible_total(
            slots,
        ) - slots[i].partial_gsol_supply + supply,
    decreases slots.len(),
{
    let changed = slots.update(i, with_supply(slots[i], supply));
    if i == slots.len() - 1 {
        assert(changed.drop_last() =~= slots.drop_last());
    } else {
        lemma_total_after_change(slots.drop_last(), i, supply);
        assert(changed.drop_last() =~= slots.drop_last().update(
            i,
            with_supply(slots.drop_last()[i], supply),
        ));
    }
}

/// A mint adds the amount to what all slots together answer for, a burn
/// takes it off, and a handing over leaves the total as it was.
pub proof fn lemma_totals(
    slots: Seq<BeamDetails>,
    pre_supply: u64,
    beam: Pubkey,
    beam_owner: Pubkey,
    cpi_program: Pubkey,
    recipient_beam: Pubkey,
    gsol_supply: u64,
    amount: u64,
)
    ensures
        match mint_outcome(slots, pre_supply, beam, beam_owner, cpi_program, gsol_supply, amount) {
            Ok(after) => responsible_total(after) == responsible_total(slots) + amount,
            Err(_) => true,
        },
        match burn_outcome(slots, beam, beam_owner, cpi_program, amount) {
            Ok(after) => responsible_total(after) == responsible_total(slots) - amount,
            Err(_) => true,
        },
        match transfer_outcome(slots, beam, beam_owner, cpi_program, recipient_beam, amount) {
            Ok(after) => responsible_total(after) == responsible_total(slots),
            Err(_) => true,
        },
{
    if has_key(slots, beam) {
        crate::state::lemma_first_index_exists(slots, beam);
        let i = first_index(slots, beam);
        lemma_total_after_change(slots, i, (slots[i].partial_gsol_supply + amount) as u64);
        lemma_total_after_change(slots, i, (slots[i].partial_gsol_supply - amount) as u64);
        match burn_outcome(slots, beam, beam_owner, cpi_program, amount) {
            Ok(given) => {
                if has_key(given, recipient_beam) {
                    crate::state::lemma_first_index_exists(given, recipient_beam);
                    let j = first_index(given, recipient_beam);
                    lemma_total_after_change(
                        given,
                        j,
                        (given[j].partial_gsol_supply + amount) as u64,
                    );
                }
            },
            Err(_) => {},
        }
    }
}

} // verus!
