//! The state: who may change it, which token it accounts for, and one slot
//! for each beam that it can hold.

use vstd::prelude::*;
use crate::epoch::{all_beams_reported, BeamEpochDetails, EpochReport, EpochReportView};
use crate::error::BeamError;
use crate::pubkey::Pubkey;

verus! {

/// What the state keeps of one beam. A slot that no beam occupies holds
/// the vacant record.
#[derive(Clone, Copy, Debug, PartialEq, Eq, Hash)]
pub struct BeamDetails {
    /// The key that signs the beam's requests.
    pub key: Pubkey,
    /// The beam's share of the supply, in percent.
    pub allocation: u8,
    /// The amount of the receipt token in circulation that the beam answers
    /// for.
    pub partial_gsol_supply: u64,
    /// Whether the beam drains: it may then burn, and may not mint.
    pub draining_mode: bool,
}

impl BeamDetails {
    /// The bytes that one record takes when stored.
    pub const SIZE: usize = 32 + 1 + 8 + 1 + 128;

    /// The record of a slot that no beam occupies.
    pub open spec fn vacant() -> BeamDetails {
        BeamDetails {
            key: Pubkey::zero(),
            allocation: 0,
            partial_gsol_supply: 0,
            draining_mode: false,
        }
    }

    /// The record of a beam that answers for nothing yet and does not drain.
    pub fn new(key: Pubkey, allocation: u8) -> (result: BeamDetails)
        ensures
            result == (BeamDetails {
                key,
                allocation,
                partial_gsol_supply: 0,
                draining_mode: false,
            }),
    {
        BeamDetails { key, allocation, partial_gsol_supply: 0, draining_mode: false }
    }

    /// Whether this is the vacant record.
    pub fn is_vacant(&self) -> (result: bool)
        ensures
            result == (*self == BeamDetails::vacant()),
    {
        self.key == Pubkey::default() && self.allocation == 0 && self.partial_gsol_supply == 0
            && !self.draining_mode
    }
}

impl Default for BeamDetails {
    fn default() -> (result: BeamDetails)
        ensures
            result == BeamDetails::vacant(),
    {
        BeamDetails {
            key: Pubkey::default(),
            allocation: 0,
            partial_gsol_supply: 0,
            draining_mode: false,
        }
    }
}

/// What a new state is made from.
#[derive(Clone, Copy, Debug)]
pub struct RegisterStateInput {
    pub update_authority: Pubkey,
    pub yield_account: Pubkey,
    pub initial_capacity: u8,
}

impl Default for RegisterStateInput {
    fn default() -> (result: RegisterStateInput)
        ensures
            result == (RegisterStateInput {
                update_authority: Pubkey::zero(),
                yield_account: Pubkey::zero(),
                initial_capacity: 0,
            }),
    {
        RegisterStateInput {
            update_authority: Pubkey::default(),
            yield_account: Pubkey::default(),
            initial_capacity: 0,
        }
    }
}

/// The fields of a state to replace; `None` keeps a field.
#[derive(Clone, Copy, Debug)]
pub struct UpdateStateInput {
    pub new_update_authority: Option<Pubkey>,
    pub new_yield_account: Option<Pubkey>,
    pub new_gsol_mint: Option<Pubkey>,
    pub new_gsol_mint_authority_bump: Option<u8>,
}

impl Default for UpdateStateInput {
    fn default() -> (result: UpdateStateInput)
        ensures
            result == (UpdateStateInput {
                new_update_authority: None,
                new_yield_account: None,
                new_gsol_mint: None,
                new_gsol_mint_authority_bump: None,
            }),
    {
        UpdateStateInput {
            new_update_authority: None,
            new_yield_account: None,
            new_gsol_mint: None,
            new_gsol_mint_authority_bump: None,
        }
    }
}

/// A new allocation for one beam.
#[derive(Clone, Copy, Debug)]
pub struct AllocationUpdate {
    pub beam: Pubkey,
    pub new_allocation: u8,
}

/// Whether some slot holds `key`.
pub open spec fn has_key(slots: Seq<BeamDetails>, key: Pubkey) -> bool {
    exists|i: int| 0 <= i < slots.len() && (#[trigger] slots[i]).key == key
}

/// Whether a beam occupies the slot: the slot holds a key other than the
/// zero key.
pub open spec fn is_occupied(slot: BeamDetails) -> bool {
    slot.key != Pubkey::zero()
}

/// Whether `key` names a registered beam: some slot holds it, and it is
/// not the zero key, which marks a free slot and names no beam.
pub open spec fn is_registered(slots: Seq<BeamDetails>, key: Pubkey) -> bool {
    key != Pubkey::zero() && has_key(slots, key)
}

/// Whether slot `i` is the first that holds `key`.
pub open spec fn is_first_index(slots: Seq<BeamDetails>, key: Pubkey, i: int) -> bool {
    &&& 0 <= i < slots.len()
    &&& slots[i].key == key
    &&& forall|j: int| 0 <= j < i ==> (#[trigger] slots[j]).key != key
}

/// The first slot that holds `key`, where one does.
pub open spec fn first_index(slots: Seq<BeamDetails>, key: Pubkey) -> int {
    choose|i: int| is_first_index(slots, key, i)
}

/// The number of slots that a beam occupies.
pub open spec fn occupied_count(slots: Seq<BeamDetails>) -> nat
    decreases slots.len(),
{
    if slots.len() == 0 {
        0
    } else {
        occupied_count(slots.drop_last()) + if is_occupied(slots.last()) {
            1nat
        } else {
            0nat
        }
    }
}

/// The sum of the allocations of the slots that a beam occupies.
pub open spec fn allocation_sum(slots: Seq<BeamDetails>) -> nat
    decreases slots.len(),
{
    if slots.len() == 0 {
        0
    } else {
        allocation_sum(slots.drop_last()) + if is_occupied(slots.last()) {
            slots.last().allocation as nat
        } else {
            0nat
        }
    }
}

/// There is one first slot that holds a key, if any.
pub proof fn lemma_first_index_unique(slots: Seq<BeamDetails>, key: Pubkey, i: int)
    requires
        is_first_index(slots, key, i),
    ensures
        first_index(slots, key) == i,
        has_key(slots, key),
{
    let chosen = first_index(slots, key);
    assert(is_first_index(slots, key, chosen));
    if chosen < i {
        assert(slots[chosen].key != key);
    } else if i < chosen {
        assert(slots[i].key != key);
    }
}

/// Where some slot holds a key, the first such slot is one of them.
pub proof fn lemma_first_index_exists(slots: Seq<BeamDetails>, key: Pubkey)
    requires
        has_key(slots, key),
    ensures
        is_first_index(slots, key, first_index(slots, key)),
{
    let witness = choose|i: int| 0 <= i < slots.len() && (#[trigger] slots[i]).key == key;
    lemma_least_index(slots, key, witness);
}

proof fn lemma_least_index(slots: Seq<BeamDetails>, key: Pubkey, bound: int)
    requires
        0 <= bound < slots.len(),
        slots[bound].key == key,
    ensures
        exists|i: int| is_first_index(slots, key, i),
    decreases bound,
{
    if exists|j: int| 0 <= j < bound && (#[trigger] slots[j]).key == key {
        let j = choose|j: int| 0 <= j < bound && (#[trigger] slots[j]).key == key;
        lemma_least_index(slots, key, j);
    } else {
        assert(is_first_index(slots, key, bound));
    }
}

/// The first of the given slots that holds `key`, or `None` where none
/// does. The zero key is looked for as any other: the slot found is then
/// the first free one.
fn find_slot(slots: &Vec<BeamDetails>, key: &Pubkey) -> (result: Option<usize>)
    ensures
        match result {
            Some(i) => is_first_index(slots@, *key, i as int),
            None => !has_key(slots@, *key),
        },
        result.is_some() == has_key(slots@, *key),
        result.is_some() ==> result.unwrap() == first_index(slots@, *key),
{
    let mut i: usize = 0;
    while i < slots.len()
        invariant
            i <= slots@.len(),
            forall|j: int| 0 <= j < i ==> (#[trigger] slots@[j]).key != *key,
        decreases slots@.len() - i,
    {
        if slots[i].key == *key {
            proof {
                lemma_first_index_unique(slots@, *key, i as int);
            }
            return Some(i);
        }
        i = i + 1;
    }
    None
}

/// The first of the given slots that holds the beam `key`, or `None` where
/// `key` names no registered beam: no slot holds it, or it is the zero key.
pub fn find_beam(slots: &Vec<BeamDetails>, key: &Pubkey) -> (result: Option<usize>)
    ensures
        match result {
            Some(i) => is_first_index(slots@, *key, i as int),
            None => !is_registered(slots@, *key),
        },
        result.is_some() == is_registered(slots@, *key),
        result.is_some() ==> result.unwrap() == first_index(slots@, *key),
{
    if *key == Pubkey::default() {
        return None;
    }
    find_slot(slots, key)
}

/// The number of slots in a prefix that a beam occupies is at most that of
/// the whole.
pub proof fn lemma_occupied_count_prefix(slots: Seq<BeamDetails>, n: int)
    requires
        0 <= n <= slots.len(),
    ensures
        occupied_count(slots.take(n)) <= occupied_count(slots),
        occupied_count(slots.take(n)) <= n,
    decreases slots.len() - n,
{
    if n < slots.len() {
        lemma_occupied_count_prefix(slots, n + 1);
        assert(slots.take(n + 1).drop_last() =~= slots.take(n));
    } else {
        assert(slots.take(n) =~= slots);
    }
    lemma_occupied_count_bound(slots.take(n));
}

/// No more slots are occupied than there are.
pub proof fn lemma_occupied_count_bound(slots: Seq<BeamDetails>)
    ensures
        occupied_count(slots) <= slots.len(),
    decreases slots.len(),
{
    if slots.len() > 0 {
        lemma_occupied_count_bound(slots.drop_last());
    }
}

/// Whether no key but the zero key is held by two slots.
pub open spec fn keys_unique(slots: Seq<BeamDetails>) -> bool {
    forall|i: int, j: int|
        0 <= i < j < slots.len() && (#[trigger] slots[i]).key == (#[trigger] slots[j]).key
            ==> slots[i].key == Pubkey::zero()
}

/// A beam put into the first slot that holds the zero key, its own key held
/// by no slot, leaves every key but the zero key in one slot at most.
pub proof fn lemma_add_keeps_keys_unique(slots: Seq<BeamDetails>, new_beam: BeamDetails)
    requires
        keys_unique(slots),
        !has_key(slots, new_beam.key),
        has_key(slots, Pubkey::zero()),
    ensures
        keys_unique(slots.update(first_index(slots, Pubkey::zero()), new_beam)),
{
    lemma_first_index_exists(slots, Pubkey::zero());
    let at = first_index(slots, Pubkey::zero());
    let changed = slots.update(at, new_beam);
    assert forall|i: int, j: int|
        0 <= i < j < changed.len() && (#[trigger] changed[i]).key == (#[trigger] changed[j]).key
        implies changed[i].key == Pubkey::zero() by {
        if i == at {
            assert(slots[j].key != new_beam.key);
        } else if j == at {
            assert(slots[i].key != new_beam.key);
        } else {
            assert(slots[i].key == slots[j].key);
        }
    }
}

/// A slot emptied leaves every key but the zero key in one slot at most.
pub proof fn lemma_remove_keeps_keys_unique(slots: Seq<BeamDetails>, at: int)
    requires
        keys_unique(slots),
        0 <= at < slots.len(),
    ensures
        keys_unique(slots.update(at, BeamDetails::vacant())),
{
    let changed = slots.update(at, BeamDetails::vacant());
    assert forall|i: int, j: int|
        0 <= i < j < changed.len() && (#[trigger] changed[i]).key == (#[trigger] changed[j]).key
        implies changed[i].key == Pubkey::zero() by {
        if i != at && j != at {
            assert(slots[i].key == slots[j].key);
        }
    }
}

/// The state as a value: the fields, the slots as a sequence.
pub struct StateView {
    pub update_authority: Pubkey,
    pub gsol_mint: Pubkey,
    pub pre_supply: u64,
    pub gsol_mint_authority_bump: u8,
    pub yield_account: Pubkey,
    pub allocations: Seq<BeamDetails>,
    pub epoch_report: EpochReportView,
}

/// The state of the controller.
#[derive(Clone, Debug)]
pub struct State {
    /// Who may change the state.
    pub update_authority: Pubkey,
    /// The mint of the receipt token.
    pub gsol_mint: Pubkey,
    /// The supply of the receipt token when the state was registered. No
    /// beam answers for it.
    pub pre_supply: u64,
    /// The bump of the address that holds the authority over the mint.
    pub gsol_mint_authority_bump: u8,
    /// The account that yield is sent to.
    pub yield_account: Pubkey,
    /// One slot for each beam that the state can hold.
    pub allocations: Vec<BeamDetails>,
    /// The yield of the beams, slot by slot.
    pub epoch_report: EpochReport,
}

impl View for State {
    type V = StateView;

    open spec fn view(&self) -> StateView {
        StateView {
            update_authority: self.update_authority,
            gsol_mint: self.gsol_mint,
            pre_supply: self.pre_supply,
            gsol_mint_authority_bump: self.gsol_mint_authority_bump,
            yield_account: self.yield_account,
            allocations: self.allocations@,
            epoch_report: self.epoch_report@,
        }
    }
}

impl Default for State {
    fn default() -> (result: State)
        ensures
            result@ == (StateView {
                update_authority: Pubkey::zero(),
                gsol_mint: Pubkey::zero(),
                pre_supply: 0,
                gsol_mint_authority_bump: 0,
                yield_account: Pubkey::zero(),
                allocations: Seq::empty(),
                epoch_report: EpochReportView {
                    current_epoch: 0,
                    current_gsol_supply: 0,
                    beam_epoch_details: Seq::empty(),
                },
            }),
    {
        State {
            update_authority: Pubkey::default(),
            gsol_mint: Pubkey::default(),
            pre_supply: 0,
            gsol_mint_authority_bump: 0,
            yield_account: Pubkey::default(),
            allocations: Vec::new(),
            epoch_report: EpochReport::default(),
        }
    }
}

impl State {
    /// The bytes that a state without slots takes when stored, its epoch
    /// report not counted.
    pub const SIZE_WITH_ZERO_BEAMS: usize = 8 + 32 + 32 + 8 + 1 + 32 + 128 + 4;

    /// The bytes that a state with `beam_count` slots takes when stored.
    pub open spec fn spec_size(beam_count: int) -> int {
        245 + 170 * beam_count + EpochReport::spec_size(beam_count)
    }

    /// Whether each slot has its record in the epoch report.
    pub open spec fn wf(&self) -> bool {
        self.allocations@.len() == self.epoch_report.beam_epoch_details@.len()
    }

    /// Whether each slot has its record in the epoch report.
    pub fn is_wf(&self) -> (result: bool)
        ensures
            result == self.wf(),
    {
        self.allocations.len() == self.epoch_report.beam_epoch_details.len()
    }

    /// The bytes that a state with `beam_count` slots takes when stored.
    pub fn size(beam_count: usize) -> (result: usize)
        requires
            Self::spec_size(beam_count as int) <= usize::MAX,
        ensures
            result == Self::spec_size(beam_count as int),
    {
        Self::SIZE_WITH_ZERO_BEAMS + (BeamDetails::SIZE * beam_count) + EpochReport::size(
            beam_count,
        )
    }

    /// The bytes that a state with `beam_count` slots takes when stored, or
    /// `None` where they cannot be counted.
    pub fn checked_size(beam_count: usize) -> (result: Option<usize>)
        ensures
            match result {
                Some(size) => size == Self::spec_size(beam_count as int),
                None => Self::spec_size(beam_count as int) > usize::MAX,
            },
    {
        let fixed: usize = Self::SIZE_WITH_ZERO_BEAMS + EpochReport::SIZE_WITH_ZERO_BEAMS;
        let per_slot: usize = BeamDetails::SIZE + BeamEpochDetails::SIZE;
        assert(fixed == 265 && per_slot == 194);
        if beam_count > (usize::MAX - fixed) / per_slot {
            None
        } else {
            Some(Self::size(beam_count))
        }
    }

    /// The bytes that this state takes when stored.
    pub fn size_inner(&self) -> (result: usize)
        requires
            Self::spec_size(self.allocations@.len() as int) <= usize::MAX,
        ensures
            result == Self::spec_size(self.allocations@.len() as int),
    {
        State::size(self.allocations.len())
    }

    /// Makes the state anew: the given authority, yield account, mint and
    /// bump, the mint's supply as the supply that no beam answers for, and
    /// as many vacant slots as the input asks for, each with a record in an
    /// epoch report of `current_epoch`.
    pub fn register(
        &mut self,
        input: RegisterStateInput,
        gsol_mint_auth_bump: u8,
        gsol_mint: &Pubkey,
        gsol_mint_supply: u64,
        current_epoch: u64,
    )
        ensures
            final(self).wf(),
            final(self)@ == (StateView {
                update_authority: input.update_authority,
                gsol_mint: *gsol_mint,
                pre_supply: gsol_mint_supply,
                gsol_mint_authority_bump: gsol_mint_auth_bump,
                yield_account: input.yield_account,
                allocations: Seq::new(input.initial_capacity as nat, |i: int| BeamDetails::vacant()),
                epoch_report: EpochReportView {
                    current_epoch,
                    current_gsol_supply: 0,
                    beam_epoch_details: Seq::new(
                        input.initial_capacity as nat,
                        |i: int|
                            BeamEpochDetails {
                                epoch: current_epoch,
                                extractable_yield: 0,
                                extracted_yield: 0,
                            },
                    ),
                },
            }),
    {
        self.update_authority = input.update_authority;
        self.yield_account = input.yield_account;
        self.gsol_mint = *gsol_mint;
        self.pre_supply = gsol_mint_supply;
        self.gsol_mint_authority_bump = gsol_mint_auth_bump;
        let capacity: usize = input.initial_capacity as usize;
        let mut slots: Vec<BeamDetails> = Vec::new();
        let mut i: usize = 0;
        while i < capacity
            invariant
                i <= capacity,
                slots@ == Seq::new(i as nat, |j: int| BeamDetails::vacant()),
            decreases capacity - i,
        {
            slots.push(BeamDetails::default());
            i = i + 1;
            assert(slots@ =~= Seq::new(i as nat, |j: int| BeamDetails::vacant()));
        }
        self.allocations = slots;
        self.epoch_report = EpochReport::new(capacity, current_epoch);
    }

    /// Replaces the fields that the input names.
    pub fn update(&mut self, input: UpdateStateInput)
        ensures
            final(self).wf() == old(self).wf(),
            final(self)@ == (StateView {
                update_authority: match input.new_update_authority {
                    Some(key) => key,
                    None => old(self).update_authority,
                },
                gsol_mint: match input.new_gsol_mint {
                    Some(key) => key,
                    None => old(self).gsol_mint,
                },
                gsol_mint_authority_bump: match input.new_gsol_mint_authority_bump {
                    Some(bump) => bump,
                    None => old(self).gsol_mint_authority_bump,
                },
                yield_account: match input.new_yield_account {
                    Some(key) => key,
                    None => old(self).yield_account,
                },
                ..old(self)@
            }),
    {
        if let Some(update_authority) = input.new_update_authority {
            self.update_authority = update_authority;
        }
        if let Some(gsol_mint) = input.new_gsol_mint {
            self.gsol_mint = gsol_mint;
        }
        if let Some(bump) = input.new_gsol_mint_authority_bump {
            self.gsol_mint_authority_bump = bump;
        }
        if let Some(yield_account) = input.new_yield_account {
            self.yield_account = yield_account;
        }
    }

    /// The first slot that holds the beam `key`, or `None` where `key` names
    /// no registered beam: no slot holds it, or it is the zero key.
    pub fn find_beam_index(&self, key: &Pubkey) -> (result: Option<usize>)
        ensures
            match result {
                Some(i) => is_first_index(self.allocations@, *key, i as int),
                None => !is_registered(self.allocations@, *key),
            },
            result.is_some() == is_registered(self.allocations@, *key),
            result.is_some() ==> result.unwrap() == first_index(self.allocations@, *key),
    {
        find_beam(&self.allocations, key)
    }

    /// The record of the beam `key`, or `None` where `key` names no
    /// registered beam.
    pub fn get_beam_details(&self, key: &Pubkey) -> (result: Option<&BeamDetails>)
        ensures
            result.is_some() == is_registered(self.allocations@, *key),
            result.is_some() ==> *result.unwrap() == self.allocations@[first_index(
                self.allocations@,
                *key,
            )],
    {
        match self.find_beam_index(key) {
            Some(i) => Some(&self.allocations[i]),
            None => None,
        }
    }

    /// The record of the beam `key`, to be changed in place, or `None`
    /// where `key` names no registered beam.
    pub fn get_mut_beam_details(&mut self, key: &Pubkey) -> (result: Option<&mut BeamDetails>)
        ensures
            result.is_some() == is_registered(old(self).allocations@, *key),
            match result {
                Some(record) => *record == old(self).allocations@[first_index(
                    old(self).allocations@,
                    *key,
                )] && final(self)@ == (StateView {
                    allocations: old(self).allocations@.update(
                        first_index(old(self).allocations@, *key),
                        *final(record),
                    ),
                    ..old(self)@
                }),
                None => *final(self) == *old(self),
            },
    {
        match self.find_beam_index(key) {
            Some(i) => Some(&mut self.allocations[i]),
            None => None,
        }
    }

    /// Whether `key` names a registered beam.
    pub fn contains_beam(&self, key: &Pubkey) -> (result: bool)
        ensures
            result == is_registered(self.allocations@, *key),
    {
        self.find_beam_index(key).is_some()
    }

    /// The number of slots that a beam occupies.
    pub fn beam_count(&self) -> (result: usize)
        ensures
            result == occupied_count(self.allocations@),
    {
        let mut count: usize = 0;
        let mut i: usize = 0;
        while i < self.allocations.len()
            invariant
                i <= self.allocations@.len(),
                count <= i,
                count == occupied_count(self.allocations@.take(i as int)),
            decreases self.allocations@.len() - i,
        {
            proof {
                assert(self.allocations@.take(i as int + 1).drop_last()
                    =~= self.allocations@.take(i as int));
            }
            if self.allocations[i].key != Pubkey::default() {
                count = count + 1;
            }
            i = i + 1;
        }
        proof {
            assert(self.allocations@.take(i as int) =~= self.allocations@);
        }
        count
    }

    /// Whether every registered beam has reported for `epoch`. Free slots
    /// do not count.
    pub fn is_epoch_reported(&self, epoch: u64) -> (result: bool)
        requires
            self.wf(),
        ensures
            result == all_beams_reported(
                self.allocations@,
                self.epoch_report.beam_epoch_details@,
                epoch,
            ),
    {
        self.epoch_report.is_epoch_reported(&self.allocations, epoch)
    }

    /// Puts a beam into the first free slot. Refused with
    /// `InvalidParameter` where the beam's key is the zero key, which names
    /// no beam; with `DuplicateBeamEntry` where a slot holds the beam's key
    /// already; and with `NoSpaceInAllocations` where no slot is free.
    pub fn add_beam(&mut self, new_beam: BeamDetails) -> (result: Result<(), BeamError>)
        ensures
            final(self).wf() == old(self).wf(),
            new_beam.key == Pubkey::zero() ==> result == Err::<(), BeamError>(
                BeamError::InvalidParameter,
            ) && *final(self) == *old(self),
            is_registered(old(self).allocations@, new_beam.key) ==> result == Err::<
                (),
                BeamError,
            >(BeamError::DuplicateBeamEntry) && *final(self) == *old(self),
            new_beam.key != Pubkey::zero() && !has_key(old(self).allocations@, new_beam.key)
                && !has_key(old(self).allocations@, Pubkey::zero()) ==> result == Err::<
                (),
                BeamError,
            >(BeamError::NoSpaceInAllocations) && *final(self) == *old(self),
            new_beam.key != Pubkey::zero() && !has_key(old(self).allocations@, new_beam.key)
                && has_key(old(self).allocations@, Pubkey::zero()) ==> result.is_ok()
                && final(self)@ == (StateView {
                allocations: old(self).allocations@.update(
                    first_index(old(self).allocations@, Pubkey::zero()),
                    new_beam,
                ),
                ..old(self)@
            }),
    {
        if new_beam.key == Pubkey::default() {
            return Err(BeamError::InvalidParameter);
        }
        if self.contains_beam(&new_beam.key) {
            return Err(BeamError::DuplicateBeamEntry);
        }
        match find_slot(&self.allocations, &Pubkey::default()) {
            Some(i) => {
                self.allocations[i] = new_beam;
                Ok(())
            },
            None => Err(BeamError::NoSpaceInAllocations),
        }
    }

    /// Empties the slot of the beam `beam`. Refused with `UnidentifiedBeam`
    /// where `beam` names no registered beam (the zero key never does), and
    /// with `NonZeroAllocation` where the beam's allocation is not zero.
    pub fn remove_beam(&mut self, beam: &Pubkey) -> (result: Result<(), BeamError>)
        ensures
            final(self).wf() == old(self).wf(),
            !is_registered(old(self).allocations@, *beam) ==> result == Err::<(), BeamError>(
                BeamError::UnidentifiedBeam,
            ) && *final(self) == *old(self),
            is_registered(old(self).allocations@, *beam) && old(self).allocations@[first_index(
                old(self).allocations@,
                *beam,
            )].allocation != 0 ==> result == Err::<(), BeamError>(BeamError::NonZeroAllocation)
                && *final(self) == *old(self),
            is_registered(old(self).allocations@, *beam) && old(self).allocations@[first_index(
                old(self).allocations@,
                *beam,
            )].allocation == 0 ==> result.is_ok() && final(self)@ == (StateView {
                allocations: old(self).allocations@.update(
                    first_index(old(self).allocations@, *beam),
                    BeamDetails::vacant(),
                ),
                ..old(self)@
            }),
    {
        match self.find_beam_index(beam) {
            Some(i) => {
                if self.allocations[i].allocation != 0 {
                    Err(BeamError::NonZeroAllocation)
                } else {
                    self.allocations[i] = BeamDetails::default();
                    Ok(())
                }
            },
            None => Err(BeamError::UnidentifiedBeam),
        }
    }
}

} // verus!
