//! Changing the shares of the beams, all at once or not at all.

use vstd::prelude::*;
use crate::error::BeamError;
use crate::pubkey::Pubkey;
use crate::state::{
    allocation_sum, first_index, find_beam, is_registered, AllocationUpdate, BeamDetails, State,
    StateView,
};

verus! {

/// The record with another allocation.
pub open spec fn with_allocation(record: BeamDetails, allocation: u8) -> BeamDetails {
    BeamDetails { allocation, ..record }
}

/// The slots after the updates were made one after the other, each on the
/// slot of the beam that it names; `None` where some update names no
/// registered beam.
pub open spec fn apply_updates(slots: Seq<BeamDetails>, updates: Seq<AllocationUpdate>) -> Option<
    Seq<BeamDetails>,
>
    decreases updates.len(),
{
    if updates.len() == 0 {
        Some(slots)
    } else {
        match apply_updates(slots, updates.drop_last()) {
            None => None,
            Some(changed) => if is_registered(changed, updates.last().beam) {
                let i = first_index(changed, updates.last().beam);
                Some(changed.update(i, with_allocation(changed[i], updates.last().new_allocation)))
            } else {
                None
            },
        }
    }
}

/// What a request to change allocations comes to: the slots with every
/// update made, if each update names a beam and the allocations then add up
/// to 100.
pub open spec fn update_outcome(slots: Seq<BeamDetails>, updates: Seq<AllocationUpdate>) -> Result<
    Seq<BeamDetails>,
    BeamError,
> {
    match apply_updates(slots, updates) {
        None => Err(BeamError::UnidentifiedBeam),
        Some(changed) => if allocation_sum(changed) == 100 {
            Ok(changed)
        } else {
            Err(BeamError::InvalidAllocationSum)
        },
    }
}

/// Updates that fail on a prefix fail on the whole.
pub proof fn lemma_failed_prefix_fails(
    slots: Seq<BeamDetails>,
    updates: Seq<AllocationUpdate>,
    n: int,
)
    requires
        0 <= n <= updates.len(),
        apply_updates(slots, updates.take(n)).is_none(),
    ensures
        apply_updates(slots, updates).is_none(),
    decreases updates.len() - n,
{
    if n < updates.len() {
        assert(updates.take(n + 1).drop_last() =~= updates.take(n));
        lemma_failed_prefix_fails(slots, updates, n + 1);
    } else {
        assert(updates.take(n) =~= updates);
    }
}

/// The sum of the allocations of those of the given slots that a beam
/// occupies.
pub fn sum_allocations(slots: &Vec<BeamDetails>) -> (result: u128)
    ensures
        result == allocation_sum(slots@),
{
    let mut total: u128 = 0;
    let mut i: usize = 0;
    while i < slots.len()
        invariant
            i <= slots@.len(),
            total == allocation_sum(slots@.take(i as int)),
            total <= 255 * i,
        decreases slots@.len() - i,
    {
        proof {
            assert(slots@.take(i as int + 1).drop_last() =~= slots@.take(i as int));
        }
        if slots[i].key != Pubkey::default() {
            total = total + slots[i].allocation as u128;
        }
        i = i + 1;
    }
    proof {
        assert(slots@.take(i as int) =~= slots@);
    }
    total
}

/// Gives each named beam its new allocation. Refused with
/// `UnidentifiedBeam` where an update names no registered beam, and with
/// `InvalidAllocationSum` where the allocations of all occupied slots do
/// not add up to 100 once every update is made. A refused request changes
/// nothing.
pub fn update_allocations(state: &mut State, new_allocations: Vec<AllocationUpdate>) -> (result:
    Result<(), BeamError>)
    ensures
        match update_outcome(old(state).allocations@, new_allocations@) {
            Ok(slots) => result.is_ok() && final(state)@ == (StateView {
                allocations: slots,
                ..old(state)@
            }),
            Err(e) => result == Err::<(), BeamError>(e) && *final(state) == *old(state),
        },
        result.is_ok() ==> allocation_sum(final(state).allocations@) == 100,
        final(state).wf() == old(state).wf(),
{
    let mut scratch: Vec<BeamDetails> = Vec::new();
    let mut i: usize = 0;
    while i < state.allocations.len()
        invariant
            *state == *old(state),
            i <= state.allocations@.len(),
            scratch@ == state.allocations@.take(i as int),
        decreases state.allocations@.len() - i,
    {
        scratch.push(state.allocations[i]);
        i = i + 1;
        assert(scratch@ =~= state.allocations@.take(i as int));
    }
    assert(scratch@ =~= state.allocations@);
    let mut k: usize = 0;
    while k < new_allocations.len()
        invariant
            *state == *old(state),
            k <= new_allocations@.len(),
            apply_updates(state.allocations@, new_allocations@.take(k as int)) == Some(scratch@),
            scratch@.len() == state.allocations@.len(),
        decreases new_allocations@.len() - k,
    {
        let update = new_allocations[k];
        proof {
            assert(new_allocations@.take(k as int + 1).drop_last() =~= new_allocations@.take(
                k as int,
            ));
        }
        match find_beam(&scratch, &update.beam) {
            Some(slot) => {
                let details = scratch[slot];
                scratch[slot] = BeamDetails {
                    key: details.key,
                    allocation: update.new_allocation,
                    partial_gsol_supply: details.partial_gsol_supply,
                    draining_mode: details.draining_mode,
                };
            },
            None => {
                proof {
                    lemma_failed_prefix_fails(
                        state.allocations@,
                        new_allocations@,
                        k as int + 1,
                    );
                }
                return Err(BeamError::UnidentifiedBeam);
            },
        }
        k = k + 1;
    }
    proof {
        assert(new_allocations@.take(k as int) =~= new_allocations@);
    }
    if sum_allocations(&scratch) != 100 {
        return Err(BeamError::InvalidAllocationSum);
    }
    state.allocations = scratch;
    Ok(())
}

} // verus!
