//! The epoch report: what each beam can yield and has yielded, epoch by
//! epoch.

use vstd::prelude::*;
use crate::error::BeamError;
use crate::pubkey::Pubkey;
use crate::state::{is_occupied, BeamDetails};

verus! {

/// What one beam has reported and handed over.
#[derive(Clone, Copy, Debug, PartialEq, Eq, Hash)]
pub struct BeamEpochDetails {
    /// The latest epoch for which the beam has reported.
    pub epoch: u64,
    /// The yield that the beam could hand over, as of its latest report.
    pub extractable_yield: u64,
    /// The yield that the beam has handed over so far. It never shrinks.
    pub extracted_yield: u64,
}

impl BeamEpochDetails {
    /// The bytes that one record takes when stored.
    pub const SIZE: usize = 8 + 8 + 8;

    /// A record that has reported for `epoch` and holds no yield.
    pub fn new(epoch: u64) -> (result: BeamEpochDetails)
        ensures
            result == (BeamEpochDetails { epoch, extractable_yield: 0, extracted_yield: 0 }),
    {
        BeamEpochDetails { epoch, extractable_yield: 0, extracted_yield: 0 }
    }
}

impl Default for BeamEpochDetails {
    fn default() -> (result: BeamEpochDetails)
        ensures
            result == (BeamEpochDetails { epoch: 0, extractable_yield: 0, extracted_yield: 0 }),
    {
        BeamEpochDetails { epoch: 0, extractable_yield: 0, extracted_yield: 0 }
    }
}

/// The sum of the extractable yield of all records.
pub open spec fn total_extractable(details: Seq<BeamEpochDetails>) -> nat
    decreases details.len(),
{
    if details.len() == 0 {
        0
    } else {
        total_extractable(details.drop_last()) + details.last().extractable_yield as nat
    }
}

/// The sum of the extracted yield of all records.
pub open spec fn total_extracted(details: Seq<BeamEpochDetails>) -> nat
    decreases details.len(),
{
    if details.len() == 0 {
        0
    } else {
        total_extracted(details.drop_last()) + details.last().extracted_yield as nat
    }
}

/// Whether every registered beam has reported for `epoch`: the record of
/// each occupied slot is of that epoch. The records of free slots do not
/// count.
pub open spec fn all_beams_reported(
    slots: Seq<BeamDetails>,
    details: Seq<BeamEpochDetails>,
    epoch: u64,
) -> bool {
    forall|i: int|
        0 <= i < slots.len() && is_occupied(slots[i]) ==> (#[trigger] details[i]).epoch == epoch
}

/// The record after the beam has handed over `amount`: the extracted yield
/// grows by it, the extractable yield shrinks by it and stops at zero.
pub open spec fn after_extraction(record: BeamEpochDetails, amount: u64) -> BeamEpochDetails {
    BeamEpochDetails {
        epoch: record.epoch,
        extractable_yield: if record.extractable_yield >= amount {
            (record.extractable_yield - amount) as u64
        } else {
            0
        },
        extracted_yield: (record.extracted_yield + amount) as u64,
    }
}

/// The record after the beam has reported `extractable_yield` for `epoch`.
pub open spec fn after_report(
    record: BeamEpochDetails,
    epoch: u64,
    extractable_yield: u64,
) -> BeamEpochDetails {
    BeamEpochDetails { epoch, extractable_yield, extracted_yield: record.extracted_yield }
}

/// The epoch report as a value: the fields, the records as a sequence.
pub struct EpochReportView {
    pub current_epoch: u64,
    pub current_gsol_supply: u64,
    pub beam_epoch_details: Seq<BeamEpochDetails>,
}

/// The yield of all beams. The record of a beam stands at the index of the
/// beam's slot.
#[derive(Clone, Debug, PartialEq, Eq, Hash)]
pub struct EpochReport {
    /// The epoch that the report is of.
    pub current_epoch: u64,
    /// The supply of the receipt token when the report was last written.
    pub current_gsol_supply: u64,
    /// One record for each slot.
    pub beam_epoch_details: Vec<BeamEpochDetails>,
}

impl View for EpochReport {
    type V = EpochReportView;

    open spec fn view(&self) -> EpochReportView {
        EpochReportView {
            current_epoch: self.current_epoch,
            current_gsol_supply: self.current_gsol_supply,
            beam_epoch_details: self.beam_epoch_details@,
        }
    }
}

impl Default for EpochReport {
    fn default() -> (result: EpochReport)
        ensures
            result@ == (EpochReportView {
                current_epoch: 0,
                current_gsol_supply: 0,
                beam_epoch_details: Seq::empty(),
            }),
    {
        EpochReport { current_epoch: 0, current_gsol_supply: 0, beam_epoch_details: Vec::new() }
    }
}

impl EpochReport {
    /// The bytes that a report without records takes when stored.
    pub const SIZE_WITH_ZERO_BEAMS: usize = 8 + 8 + 4;

    /// The bytes that a report with `beam_count` records takes when stored.
    pub open spec fn spec_size(beam_count: int) -> int {
        20 + 24 * beam_count
    }

    /// A report of `current_epoch` with `beam_count` records, each without
    /// yield and reported for that epoch.
    pub fn new(beam_count: usize, current_epoch: u64) -> (result: EpochReport)
        ensures
            result@ == (EpochReportView {
                current_epoch,
                current_gsol_supply: 0,
                beam_epoch_details: Seq::new(
                    beam_count as nat,
                    |i: int|
                        BeamEpochDetails {
                            epoch: current_epoch,
                            extractable_yield: 0,
                            extracted_yield: 0,
                        },
                ),
            }),
    {
        let mut details: Vec<BeamEpochDetails> = Vec::new();
        let mut i: usize = 0;
        while i < beam_count
            invariant
                i <= beam_count,
                details@ == Seq::new(
                    i as nat,
                    |j: int|
                        BeamEpochDetails {
                            epoch: current_epoch,
                            extractable_yield: 0,
                            extracted_yield: 0,
                        },
                ),
            decreases beam_count - i,
        {
            details.push(BeamEpochDetails::new(current_epoch));
            i = i + 1;
            assert(details@ =~= Seq::new(
                i as nat,
                |j: int|
                    BeamEpochDetails {
                        epoch: current_epoch,
                        extractable_yield: 0,
                        extracted_yield: 0,
                    },
            ));
        }
        EpochReport { current_epoch, current_gsol_supply: 0, beam_epoch_details: details }
    }

    /// The bytes that a report with `beam_count` records takes when stored.
    pub fn size(beam_count: usize) -> (result: usize)
        requires
            Self::spec_size(beam_count as int) <= usize::MAX,
        ensures
            result == Self::spec_size(beam_count as int),
    {
        Self::SIZE_WITH_ZERO_BEAMS + (BeamEpochDetails::SIZE * beam_count)
    }

    /// The bytes that a report with `beam_count` records takes when stored,
    /// or `None` where they cannot be counted.
    pub fn checked_size(beam_count: usize) -> (result: Option<usize>)
        ensures
            match result {
                Some(size) => size == Self::spec_size(beam_count as int),
                None => Self::spec_size(beam_count as int) > usize::MAX,
            },
    {
        let fixed: usize = Self::SIZE_WITH_ZERO_BEAMS;
        let per_record: usize = BeamEpochDetails::SIZE;
        assert(fixed == 20 && per_record == 24);
        if beam_count > (usize::MAX - fixed) / per_record {
            None
        } else {
            Some(Self::size(beam_count))
        }
    }

    /// The bytes that this report takes when stored.
    pub fn size_inner(&self) -> (result: usize)
        requires
            Self::spec_size(self.beam_epoch_details@.len() as int) <= usize::MAX,
        ensures
            result == Self::spec_size(self.beam_epoch_details@.len() as int),
    {
        EpochReport::size(self.beam_epoch_details.len())
    }

    /// The yield that all beams together could hand over.
    pub fn extractable_yield(&self) -> (result: u64)
        requires
            total_extractable(self.beam_epoch_details@) <= u64::MAX,
        ensures
            result == total_extractable(self.beam_epoch_details@),
    {
        let mut total: u64 = 0;
        let mut i: usize = 0;
        while i < self.beam_epoch_details.len()
            invariant
                i <= self.beam_epoch_details@.len(),
                total == total_extractable(self.beam_epoch_details@.take(i as int)),
                total_extractable(self.beam_epoch_details@) <= u64::MAX,
            decreases self.beam_epoch_details@.len() - i,
        {
            proof {
                lemma_total_extractable_prefix(self.beam_epoch_details@, i as int + 1);
                assert(self.beam_epoch_details@.take(i as int + 1).drop_last()
                    =~= self.beam_epoch_details@.take(i as int));
            }
            total = total + self.beam_epoch_details[i].extractable_yield;
            i = i + 1;
        }
        proof {
            assert(self.beam_epoch_details@.take(i as int) =~= self.beam_epoch_details@);
        }
        total
    }

    /// The yield that all beams together could hand over, or `None` where
    /// it does not fit 64 bits.
    pub fn checked_extractable_yield(&self) -> (result: Option<u64>)
        ensures
            match result {
                Some(total) => total == total_extractable(self.beam_epoch_details@),
                None => total_extractable(self.beam_epoch_details@) > u64::MAX,
            },
    {
        let mut total: u128 = 0;
        let mut i: usize = 0;
        while i < self.beam_epoch_details.len()
            invariant
                i <= self.beam_epoch_details@.len(),
                total == total_extractable(self.beam_epoch_details@.take(i as int)),
                total <= i * 0xffff_ffff_ffff_ffff,
            decreases self.beam_epoch_details@.len() - i,
        {
            proof {
                assert(self.beam_epoch_details@.take(i as int + 1).drop_last()
                    =~= self.beam_epoch_details@.take(i as int));
            }
            total = total + self.beam_epoch_details[i].extractable_yield as u128;
            i = i + 1;
        }
        proof {
            assert(self.beam_epoch_details@.take(i as int) =~= self.beam_epoch_details@);
        }
        if total > 0xffff_ffff_ffff_ffff {
            None
        } else {
            Some(total as u64)
        }
    }

    /// The yield that all beams together have handed over, or `None` where
    /// it does not fit 64 bits.
    pub fn checked_extracted_yield(&self) -> (result: Option<u64>)
        ensures
            match result {
                Some(total) => total == total_extracted(self.beam_epoch_details@),
                None => total_extracted(self.beam_epoch_details@) > u64::MAX,
            },
    {
        let mut total: u128 = 0;
        let mut i: usize = 0;
        while i < self.beam_epoch_details.len()
            invariant
                i <= self.beam_epoch_details@.len(),
                total == total_extracted(self.beam_epoch_details@.take(i as int)),
                total <= i * 0xffff_ffff_ffff_ffff,
            decreases self.beam_epoch_details@.len() - i,
        {
            proof {
                assert(self.beam_epoch_details@.take(i as int + 1).drop_last()
                    =~= self.beam_epoch_details@.take(i as int));
            }
            total = total + self.beam_epoch_details[i].extracted_yield as u128;
            i = i + 1;
        }
        proof {
            assert(self.beam_epoch_details@.take(i as int) =~= self.beam_epoch_details@);
        }
        if total > 0xffff_ffff_ffff_ffff {
            None
        } else {
            Some(total as u64)
        }
    }

    /// The yield that all beams together have handed over.
    pub fn extracted_yield(&self) -> (result: u64)
        requires
            total_extracted(self.beam_epoch_details@) <= u64::MAX,
        ensures
            result == total_extracted(self.beam_epoch_details@),
    {
        let mut total: u64 = 0;
        let mut i: usize = 0;
        while i < self.beam_epoch_details.len()
            invariant
                i <= self.beam_epoch_details@.len(),
                total == total_extracted(self.beam_epoch_details@.take(i as int)),
                total_extracted(self.beam_epoch_details@) <= u64::MAX,
            decreases self.beam_epoch_details@.len() - i,
        {
            proof {
                lemma_total_extracted_prefix(self.beam_epoch_details@, i as int + 1);
                assert(self.beam_epoch_details@.take(i as int + 1).drop_last()
                    =~= self.beam_epoch_details@.take(i as int));
            }
            total = total + self.beam_epoch_details[i].extracted_yield;
            i = i + 1;
        }
        proof {
            assert(self.beam_epoch_details@.take(i as int) =~= self.beam_epoch_details@);
        }
        total
    }

    /// Whether every registered beam has reported for `epoch`, where
    /// `allocations` are the slots that the records stand for. Free slots
    /// do not count.
    pub fn is_epoch_reported(&self, allocations: &Vec<BeamDetails>, epoch: u64) -> (result: bool)
        requires
            allocations@.len() == self.beam_epoch_details@.len(),
        ensures
            result == all_beams_reported(allocations@, self.beam_epoch_details@, epoch),
    {
        let mut i: usize = 0;
        while i < self.beam_epoch_details.len()
            invariant
                allocations@.len() == self.beam_epoch_details@.len(),
                i <= self.beam_epoch_details@.len(),
                forall|j: int|
                    0 <= j < i && is_occupied(allocations@[j]) ==> (
                    #[trigger] self.beam_epoch_details@[j]).epoch == epoch,
            decreases self.beam_epoch_details@.len() - i,
        {
            if allocations[i].key != Pubkey::default() && self.beam_epoch_details[i].epoch
                != epoch {
                return false;
            }
            i = i + 1;
        }
        true
    }

    /// Whether the beam in slot `beam_idx` has reported for `epoch`.
    pub fn is_epoch_reported_for_beam_idx(&self, epoch: u64, beam_idx: usize) -> (result: bool)
        requires
            beam_idx < self.beam_epoch_details@.len(),
        ensures
            result == (self.beam_epoch_details@[beam_idx as int].epoch == epoch),
    {
        self.beam_epoch_details[beam_idx].epoch == epoch
    }

    /// Records that the beam in slot `beam_idx` has handed over
    /// `yield_amount`. The beam must have reported for `epoch`, and the sum
    /// of what it has handed over must fit 64 bits.
    pub fn extract_yield_for_beam(&mut self, beam_idx: usize, yield_amount: u64, epoch: u64) -> (result:
        Result<(), BeamError>)
        requires
            beam_idx < old(self).beam_epoch_details@.len(),
        ensures
            old(self).beam_epoch_details@[beam_idx as int].epoch != epoch ==> result == Err::<
                (),
                BeamError,
            >(BeamError::EpochReportNotUpToDate) && *final(self) == *old(self),
            old(self).beam_epoch_details@[beam_idx as int].epoch == epoch && old(
                self,
            ).beam_epoch_details@[beam_idx as int].extracted_yield + yield_amount > u64::MAX
                ==> result == Err::<(), BeamError>(BeamError::Overflow) && *final(self) == *old(
                self,
            ),
            old(self).beam_epoch_details@[beam_idx as int].epoch == epoch && old(
                self,
            ).beam_epoch_details@[beam_idx as int].extracted_yield + yield_amount <= u64::MAX
                ==> result.is_ok() && final(self)@ == (EpochReportView {
                beam_epoch_details: old(self).beam_epoch_details@.update(
                    beam_idx as int,
                    after_extraction(old(self).beam_epoch_details@[beam_idx as int], yield_amount),
                ),
                ..old(self)@
            }),
    {
        let record = self.beam_epoch_details[beam_idx];
        if record.epoch != epoch {
            return Err(BeamError::EpochReportNotUpToDate);
        }
        let extracted = match record.extracted_yield.checked_add(yield_amount) {
            Some(sum) => sum,
            None => {
                return Err(BeamError::Overflow);
            },
        };
        let extractable = record.extractable_yield.saturating_sub(yield_amount);
        self.beam_epoch_details[beam_idx] = BeamEpochDetails {
            epoch: record.epoch,
            extractable_yield: extractable,
            extracted_yield: extracted,
        };
        Ok(())
    }

    /// Records that the beam in slot `beam_idx` has reported
    /// `extractable_yield` for `epoch`. The latest report stands.
    pub fn update_extractable_yield_and_epoch_for_beam(
        &mut self,
        beam_idx: usize,
        epoch: u64,
        extractable_yield: u64,
    )
        requires
            beam_idx < old(self).beam_epoch_details@.len(),
        ensures
            final(self)@ == (EpochReportView {
                beam_epoch_details: old(self).beam_epoch_details@.update(
                    beam_idx as int,
                    after_report(
                        old(self).beam_epoch_details@[beam_idx as int],
                        epoch,
                        extractable_yield,
                    ),
                ),
                ..old(self)@
            }),
    {
        let record = self.beam_epoch_details[beam_idx];
        self.beam_epoch_details[beam_idx] = BeamEpochDetails {
            epoch,
            extractable_yield,
            extracted_yield: record.extracted_yield,
        };
    }
}

/// The extractable yield of a prefix is at most that of the whole, and a
/// prefix one longer adds the record at its end.
pub proof fn lemma_total_extractable_prefix(details: Seq<BeamEpochDetails>, n: int)
    requires
        0 <= n <= details.len(),
    ensures
        total_extractable(details.take(n)) <= total_extractable(details),
    decreases details.len() - n,
{
    if n < details.len() {
        lemma_total_extractable_prefix(details, n + 1);
        assert(details.take(n + 1).drop_last() =~= details.take(n));
    } else {
        assert(details.take(n) =~= details);
    }
}

/// The extracted yield of a prefix is at most that of the whole.
pub proof fn lemma_total_extracted_prefix(details: Seq<BeamEpochDetails>, n: int)
    requires
        0 <= n <= details.len(),
    ensures
        total_extracted(details.take(n)) <= total_extracted(details),
    decreases details.len() - n,
{
    if n < details.len() {
        lemma_total_extracted_prefix(details, n + 1);
        assert(details.take(n + 1).drop_last() =~= details.take(n));
    } else {
        assert(details.take(n) =~= details);
    }
}

} // verus!
