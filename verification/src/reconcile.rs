//! Reconciling yield: beams report what they could hand over, record what
//! they did hand over, and the report moves on to a new epoch once every
//! beam has reported for it.

use vstd::prelude::*;
use crate::epoch::{after_extraction, after_report, BeamEpochDetails, EpochReportView};
use crate::error::BeamError;
use crate::pubkey::Pubkey;
use crate::state::{
    has_key, is_occupied, lemma_first_index_exists, lemma_occupied_count_prefix, occupied_count,
    BeamDetails, State, StateView,
};
use crate::window::{authenticated_index, checked_find_beam_idx};

verus! {

/// What one beam reports for an epoch.
#[derive(Clone, Copy, Debug, PartialEq, Eq, Hash)]
pub struct BeamEpochReport {
    /// The key of the beam that reports.
    pub beam: Pubkey,
    /// The epoch that the report is for.
    pub epoch: u64,
    /// The yield that the beam could hand over.
    pub extractable_yield: u64,
}

/// The state with another epoch report.
pub open spec fn with_epoch_report(state: StateView, report: EpochReportView) -> StateView {
    StateView { epoch_report: report, ..state }
}

/// What a beam's report of its yield comes to: its record is of the
/// report's epoch and holds the yield, and the supply is noted.
pub open spec fn report_outcome(
    state: StateView,
    beam: Pubkey,
    beam_owner: Pubkey,
    cpi_program: Pubkey,
    extractable_yield: u64,
    gsol_supply: u64,
) -> Result<EpochReportView, BeamError> {
    match authenticated_index(state.allocations, beam, beam_owner, cpi_program) {
        Err(e) => Err(e),
        Ok(i) => Ok(
            EpochReportView {
                current_gsol_supply: gsol_supply,
                beam_epoch_details: state.epoch_report.beam_epoch_details.update(
                    i,
                    after_report(
                        state.epoch_report.beam_epoch_details[i],
                        state.epoch_report.current_epoch,
                        extractable_yield,
                    ),
                ),
                ..state.epoch_report
            },
        ),
    }
}

/// What a beam's record of yield handed over comes to. The beam must have
/// reported for the report's epoch.
pub open spec fn extract_outcome(
    state: StateView,
    beam: Pubkey,
    beam_owner: Pubkey,
    cpi_program: Pubkey,
    amount: u64,
) -> Result<EpochReportView, BeamError> {
    match authenticated_index(state.allocations, beam, beam_owner, cpi_program) {
        Err(e) => Err(e),
        Ok(i) => {
            let record = state.epoch_report.beam_epoch_details[i];
            if record.epoch != state.epoch_report.current_epoch {
                Err(BeamError::EpochReportNotUpToDate)
            } else if record.extracted_yield + amount > u64::MAX {
                Err(BeamError::Overflow)
            } else {
                Ok(
                    EpochReportView {
                        beam_epoch_details: state.epoch_report.beam_epoch_details.update(
                            i,
                            after_extraction(record, amount),
                        ),
                        ..state.epoch_report
                    },
                )
            }
        },
    }
}

/// Whether a call that returned `result` did to the state what `outcome`
/// says: on `Ok` the epoch report is the new one and all else is as
/// before, on `Err` that error is returned and the state is as before.
pub open spec fn report_settled(
    before: State,
    after: State,
    result: Result<(), BeamError>,
    outcome: Result<EpochReportView, BeamError>,
) -> bool {
    match outcome {
        Ok(report) => result.is_ok() && after@ == with_epoch_report(before@, report),
        Err(e) => result == Err::<(), BeamError>(e) && after == before,
    }
}

/// Takes a beam's report of the yield it could hand over, for the epoch
/// that the epoch report is of, and notes the supply. A later report of
/// the same beam replaces an earlier one.
pub fn report_epoch_yield(
    state: &mut State,
    beam: &Pubkey,
    beam_owner: &Pubkey,
    cpi_program: &Pubkey,
    extractable_yield: u64,
    gsol_supply: u64,
) -> (result: Result<(), BeamError>)
    requires
        old(state).wf(),
    ensures
        final(state).wf(),
        report_settled(
            *old(state),
            *final(state),
            result,
            report_outcome(
                old(state)@,
                *beam,
                *beam_owner,
                *cpi_program,
                extractable_yield,
                gsol_supply,
            ),
        ),
{
    let beam_idx = match checked_find_beam_idx(state, beam, beam_owner, cpi_program) {
        Ok(i) => i,
        Err(e) => {
            return Err(e);
        },
    };
    let epoch = state.epoch_report.current_epoch;
    state.epoch_report.update_extractable_yield_and_epoch_for_beam(
        beam_idx,
        epoch,
        extractable_yield,
    );
    state.epoch_report.current_gsol_supply = gsol_supply;
    Ok(())
}

/// Records that a beam has handed over `amount_in_lamports` of yield.
/// Refused with `EpochReportNotUpToDate` where the beam has not reported
/// for the epoch that the epoch report is of, and with `Overflow` where
/// the sum of what it has handed over leaves 64 bits.
pub fn extract_yield(
    state: &mut State,
    beam: &Pubkey,
    beam_owner: &Pubkey,
    cpi_program: &Pubkey,
    amount_in_lamports: u64,
) -> (result: Result<(), BeamError>)
    requires
        old(state).wf(),
    ensures
        final(state).wf(),
        report_settled(
            *old(state),
            *final(state),
            result,
            extract_outcome(old(state)@, *beam, *beam_owner, *cpi_program, amount_in_lamports),
        ),
{
    let beam_idx = match checked_find_beam_idx(state, beam, beam_owner, cpi_program) {
        Ok(i) => i,
        Err(e) => {
            return Err(e);
        },
    };
    let epoch = state.epoch_report.current_epoch;
    state.epoch_report.extract_yield_for_beam(beam_idx, amount_in_lamports, epoch)
}

/// The sum of the yield that the reports hold.
pub open spec fn reports_total(reports: Seq<BeamEpochReport>) -> nat
    decreases reports.len(),
{
    if reports.len() == 0 {
        0
    } else {
        reports_total(reports.drop_last()) + reports.last().extractable_yield as nat
    }
}

/// Whether every report is for `epoch`.
pub open spec fn all_for_epoch(reports: Seq<BeamEpochReport>, epoch: u64) -> bool {
    forall|j: int| 0 <= j < reports.len() ==> (#[trigger] reports[j]).epoch == epoch
}

/// The place among the reports of the report for slot `i`: the number of
/// occupied slots before it.
pub open spec fn report_index(slots: Seq<BeamDetails>, i: int) -> int {
    occupied_count(slots.take(i)) as int
}

/// Whether slot `i`, if a beam occupies it, has the report of that beam in
/// its place among the reports.
pub open spec fn slot_reported(
    slots: Seq<BeamDetails>,
    reports: Seq<BeamEpochReport>,
    i: int,
) -> bool {
    is_occupied(slots[i]) ==> reports[report_index(slots, i)].beam == slots[i].key
}

/// Whether the reports are those of the occupied slots, in the order of
/// the slots.
pub open spec fn reports_aligned(slots: Seq<BeamDetails>, reports: Seq<BeamEpochReport>) -> bool {
    forall|i: int| 0 <= i < slots.len() ==> #[trigger] slot_reported(slots, reports, i)
}

/// The record of slot `i` once the slot, if a beam occupies it, has taken
/// its report for `epoch`. The record of a vacant slot stays.
pub open spec fn record_after_reports(
    slots: Seq<BeamDetails>,
    details: Seq<BeamEpochDetails>,
    reports: Seq<BeamEpochReport>,
    epoch: u64,
    i: int,
) -> BeamEpochDetails {
    if i < slots.len() && is_occupied(slots[i]) {
        after_report(details[i], epoch, reports[report_index(slots, i)].extractable_yield)
    } else {
        details[i]
    }
}

/// The records once each occupied slot has taken its report for `epoch`.
pub open spec fn details_after_reports(
    slots: Seq<BeamDetails>,
    details: Seq<BeamEpochDetails>,
    reports: Seq<BeamEpochReport>,
    epoch: u64,
) -> Seq<BeamEpochDetails> {
    Seq::new(details.len(), |i: int| record_after_reports(slots, details, reports, epoch, i))
}

/// What moving the epoch report on to `new_epoch` comes to. The epoch must
/// be later than that of the report; there must be one report for each
/// occupied slot, each for the new epoch, in the order of the slots; and
/// the yield of all reports together must fit 64 bits.
pub open spec fn advance_outcome(
    state: StateView,
    new_epoch: u64,
    reports: Seq<BeamEpochReport>,
    gsol_supply: u64,
) -> Result<EpochReportView, BeamError> {
    if new_epoch <= state.epoch_report.current_epoch {
        Err(BeamError::EpochReportAlreadyUpdated)
    } else if reports.len() != occupied_count(state.allocations) {
        Err(BeamError::IncorrectBeamEpochReportCount)
    } else if !all_for_epoch(reports, new_epoch) {
        Err(BeamError::IncorrectBeamEpochReportEpoch)
    } else if !reports_aligned(state.allocations, reports) {
        Err(BeamError::IncorrectBeamEpochReport)
    } else if reports_total(reports) > u64::MAX {
        Err(BeamError::Overflow)
    } else {
        Ok(
            EpochReportView {
                current_epoch: new_epoch,
                current_gsol_supply: gsol_supply,
                beam_epoch_details: details_after_reports(
                    state.allocations,
                    state.epoch_report.beam_epoch_details,
                    reports,
                    new_epoch,
                ),
            },
        )
    }
}

/// To move on to a later epoch with a number of reports that is not the
/// number of occupied slots is refused, whatever the reports hold.
pub proof fn lemma_wrong_report_count_refused(
    state: StateView,
    new_epoch: u64,
    reports: Seq<BeamEpochReport>,
    gsol_supply: u64,
)
    requires
        new_epoch > state.epoch_report.current_epoch,
        reports.len() != occupied_count(state.allocations),
    ensures
        advance_outcome(state, new_epoch, reports, gsol_supply) == Err::<
            EpochReportView,
            BeamError,
        >(BeamError::IncorrectBeamEpochReportCount),
{
}

/// Whether each record of `after` has as much extracted yield as that of
/// `before`, or more, and the epoch of `after` is not earlier.
pub open spec fn never_rewinds(before: EpochReportView, after: EpochReportView) -> bool {
    &&& after.current_epoch >= before.current_epoch
    &&& after.beam_epoch_details.len() == before.beam_epoch_details.len()
    &&& forall|i: int|
        0 <= i < before.beam_epoch_details.len() ==> (#[trigger] after.beam_epoch_details[i]).extracted_yield
            >= before.beam_epoch_details[i].extracted_yield
}

/// A report, a record of yield handed over and a move to a new epoch never
/// lower what a beam has handed over, nor the epoch; a move to a new epoch
/// raises the epoch.
pub proof fn lemma_epoch_report_never_rewinds(
    state: StateView,
    beam: Pubkey,
    beam_owner: Pubkey,
    cpi_program: Pubkey,
    amount: u64,
    gsol_supply: u64,
    new_epoch: u64,
    reports: Seq<BeamEpochReport>,
)
    requires
        state.allocations.len() == state.epoch_report.beam_epoch_details.len(),
    ensures
        match report_outcome(state, beam, beam_owner, cpi_program, amount, gsol_supply) {
            Ok(after) => never_rewinds(state.epoch_report, after),
            Err(_) => true,
        },
        match extract_outcome(state, beam, beam_owner, cpi_program, amount) {
            Ok(after) => never_rewinds(state.epoch_report, after),
            Err(_) => true,
        },
        match advance_outcome(state, new_epoch, reports, gsol_supply) {
            Ok(after) => never_rewinds(state.epoch_report, after) && after.current_epoch
                > state.epoch_report.current_epoch,
            Err(_) => true,
        },
{
    if has_key(state.allocations, beam) {
        lemma_first_index_exists(state.allocations, beam);
    }
    match advance_outcome(state, new_epoch, reports, gsol_supply) {
        Ok(after) => {
            assert forall|i: int| 0 <= i < state.epoch_report.beam_epoch_details.len() implies (
            #[trigger] after.beam_epoch_details[i]).extracted_yield
                >= state.epoch_report.beam_epoch_details[i].extracted_yield by {
                assert(after.beam_epoch_details[i] == record_after_reports(
                    state.allocations,
                    state.epoch_report.beam_epoch_details,
                    reports,
                    new_epoch,
                    i,
                ));
            }
        },
        Err(_) => {},
    }
}

/// Moves the epoch report on to `new_epoch`: each occupied slot takes the
/// yield of its report and counts as reported for the new epoch, and the
/// supply is noted. The records of free slots stay as they are. Returns
/// the yield of all reports together. Refused
/// with `EpochReportAlreadyUpdated` where the report is of `new_epoch` or a
/// later epoch, with `IncorrectBeamEpochReportCount` where the number of
/// reports is not the number of occupied slots, with
/// `IncorrectBeamEpochReportEpoch` where a report is for another epoch,
/// with `IncorrectBeamEpochReport` where a report is not that of the beam
/// in its place, and with `Overflow` where the yield of all reports
/// together leaves 64 bits.
pub fn update_epoch_report(
    state: &mut State,
    new_epoch: u64,
    reports: &Vec<BeamEpochReport>,
    gsol_supply: u64,
) -> (result: Result<u64, BeamError>)
    requires
        old(state).wf(),
    ensures
        final(state).wf(),
        match advance_outcome(old(state)@, new_epoch, reports@, gsol_supply) {
            Ok(report) => result == Ok::<u64, BeamError>(reports_total(reports@) as u64)
                && final(state)@ == with_epoch_report(old(state)@, report),
            Err(e) => result == Err::<u64, BeamError>(e) && *final(state) == *old(state),
        },
{
    if new_epoch <= state.epoch_report.current_epoch {
        return Err(BeamError::EpochReportAlreadyUpdated);
    }
    if reports.len() != state.beam_count() {
        return Err(BeamError::IncorrectBeamEpochReportCount);
    }
    let total: u128 = match sum_reports(reports, new_epoch) {
        Some(sum) => sum,
        None => {
            return Err(BeamError::IncorrectBeamEpochReportEpoch);
        },
    };
    let scratch = match align_reports(
        &state.allocations,
        &state.epoch_report.beam_epoch_details,
        reports,
        new_epoch,
    ) {
        Some(details) => details,
        None => {
            return Err(BeamError::IncorrectBeamEpochReport);
        },
    };
    if total > 0xffff_ffff_ffff_ffff {
        return Err(BeamError::Overflow);
    }
    state.epoch_report.beam_epoch_details = scratch;
    state.epoch_report.current_epoch = new_epoch;
    state.epoch_report.current_gsol_supply = gsol_supply;
    Ok(total as u64)
}

/// The yield of all reports together, or `None` where a report is for
/// another epoch than `epoch`.
pub fn sum_reports(reports: &Vec<BeamEpochReport>, epoch: u64) -> (result: Option<u128>)
    ensures
        match result {
            Some(total) => all_for_epoch(reports@, epoch) && total == reports_total(reports@),
            None => !all_for_epoch(reports@, epoch),
        },
{
    let mut total: u128 = 0;
    let mut j: usize = 0;
    while j < reports.len()
        invariant
            j <= reports@.len(),
            total == reports_total(reports@.take(j as int)),
            total <= j * 0xffff_ffff_ffff_ffff,
            forall|k: int| 0 <= k < j ==> (#[trigger] reports@[k]).epoch == epoch,
        decreases reports@.len() - j,
    {
        proof {
            assert(reports@.take(j as int + 1).drop_last() =~= reports@.take(j as int));
        }
        if reports[j].epoch != epoch {
            return None;
        }
        total = total + reports[j].extractable_yield as u128;
        j = j + 1;
    }
    proof {
        assert(reports@.take(j as int) =~= reports@);
    }
    Some(total)
}

/// The records once each occupied slot has taken its report for `epoch`,
/// or `None` where some report is not that of the beam in its place.
pub fn align_reports(
    slots: &Vec<BeamDetails>,
    details: &Vec<BeamEpochDetails>,
    reports: &Vec<BeamEpochReport>,
    epoch: u64,
) -> (result: Option<Vec<BeamEpochDetails>>)
    requires
        slots@.len() == details@.len(),
        reports@.len() == occupied_count(slots@),
    ensures
        match result {
            Some(records) => reports_aligned(slots@, reports@) && records@
                == details_after_reports(slots@, details@, reports@, epoch),
            None => !reports_aligned(slots@, reports@),
        },
{
    let mut scratch: Vec<BeamEpochDetails> = Vec::new();
    let mut next: usize = 0;
    let mut i: usize = 0;
    while i < slots.len()
        invariant
            slots@.len() == details@.len(),
            reports@.len() == occupied_count(slots@),
            i <= slots@.len(),
            next == occupied_count(slots@.take(i as int)),
            scratch@.len() == i,
            forall|k: int|
                0 <= k < i ==> scratch@[k] == #[trigger] record_after_reports(
                    slots@,
                    details@,
                    reports@,
                    epoch,
                    k,
                ),
            forall|k: int| 0 <= k < i ==> #[trigger] slot_reported(slots@, reports@, k),
        decreases slots@.len() - i,
    {
        proof {
            assert(slots@.take(i as int + 1).drop_last() =~= slots@.take(i as int));
            lemma_occupied_count_prefix(slots@, i as int + 1);
        }
        let record = details[i];
        let slot = slots[i];
        if slot.key != Pubkey::default() {
            let report = reports[next];
            if report.beam != slot.key {
                assert(!slot_reported(slots@, reports@, i as int));
                return None;
            }
            scratch.push(
                BeamEpochDetails {
                    epoch,
                    extractable_yield: report.extractable_yield,
                    extracted_yield: record.extracted_yield,
                },
            );
            next = next + 1;
        } else {
            scratch.push(record);
        }
        i = i + 1;
    }
    assert(scratch@ =~= details_after_reports(slots@, details@, reports@, epoch));
    Some(scratch)
}

} // verus!
