use sunrise_core::reconcile::{
    align_reports, extract_yield, report_epoch_yield, sum_reports, update_epoch_report,
    BeamEpochReport,
};
use sunrise_core::registry::register_beam;
use sunrise_core::{BeamEpochDetails, BeamError, EpochReport, Pubkey, RegisterStateInput, State};

fn key(n: u8) -> Pubkey {
    let mut bytes = [0u8; 32];
    bytes[0] = n;
    bytes[31] = 1;
    Pubkey::new_from_array(bytes)
}

fn program() -> Pubkey {
    key(200)
}

/// Slots: beam 1, vacant, beam 2; the report is of epoch 10.
fn state_at_epoch_ten() -> State {
    let mut state = State::default();
    state.register(
        RegisterStateInput { update_authority: key(7), yield_account: key(8), initial_capacity: 3 },
        0,
        &key(9),
        0,
        10,
    );
    register_beam(&mut state, key(1)).unwrap();
    register_beam(&mut state, key(3)).unwrap();
    register_beam(&mut state, key(2)).unwrap();
    state.remove_beam(&key(3)).unwrap();
    state
}

fn report(beam: Pubkey, epoch: u64, extractable_yield: u64) -> BeamEpochReport {
    BeamEpochReport { beam, epoch, extractable_yield }
}

#[test]
fn report_then_extract_saturates() {
    let mut state = state_at_epoch_ten();
    assert_eq!(report_epoch_yield(&mut state, &key(1), &program(), &program(), 50, 1234), Ok(()));
    assert_eq!(state.epoch_report.current_gsol_supply, 1234);
    assert_eq!(
        state.epoch_report.beam_epoch_details[0],
        BeamEpochDetails { epoch: 10, extractable_yield: 50, extracted_yield: 0 }
    );
    assert_eq!(extract_yield(&mut state, &key(1), &program(), &program(), 30), Ok(()));
    assert_eq!(
        state.epoch_report.beam_epoch_details[0],
        BeamEpochDetails { epoch: 10, extractable_yield: 20, extracted_yield: 30 }
    );
    assert_eq!(extract_yield(&mut state, &key(1), &program(), &program(), 30), Ok(()));
    assert_eq!(
        state.epoch_report.beam_epoch_details[0],
        BeamEpochDetails { epoch: 10, extractable_yield: 0, extracted_yield: 60 }
    );
    assert_eq!(state.epoch_report.extracted_yield(), 60);
    assert_eq!(state.epoch_report.extractable_yield(), 0);
}

#[test]
fn latest_report_wins() {
    let mut state = state_at_epoch_ten();
    assert_eq!(report_epoch_yield(&mut state, &key(2), &program(), &program(), 50, 1), Ok(()));
    assert_eq!(report_epoch_yield(&mut state, &key(2), &program(), &program(), 7, 2), Ok(()));
    assert_eq!(state.epoch_report.beam_epoch_details[2].extractable_yield, 7);
    assert_eq!(state.epoch_report.current_gsol_supply, 2);
    assert_eq!(state.epoch_report.extractable_yield(), 7);
    assert_eq!(
        report_epoch_yield(&mut state, &key(5), &program(), &program(), 7, 3),
        Err(BeamError::UnidentifiedBeam)
    );
    assert_eq!(
        report_epoch_yield(&mut state, &key(2), &key(4), &program(), 7, 3),
        Err(BeamError::UnidentifiedCallingProgram)
    );
    assert_eq!(state.epoch_report.current_gsol_supply, 2);
}

#[test]
fn extract_needs_a_report_of_the_epoch() {
    let mut state = state_at_epoch_ten();
    state.epoch_report.beam_epoch_details[0].epoch = 9;
    assert_eq!(
        extract_yield(&mut state, &key(1), &program(), &program(), 1),
        Err(BeamError::EpochReportNotUpToDate)
    );
    assert_eq!(state.epoch_report.beam_epoch_details[0].extracted_yield, 0);
    assert!(!state.is_epoch_reported(10));
    assert!(!state.epoch_report.is_epoch_reported(&state.allocations, 10));
    assert!(!state.epoch_report.is_epoch_reported_for_beam_idx(10, 0));
    assert!(state.epoch_report.is_epoch_reported_for_beam_idx(10, 2));
    assert_eq!(report_epoch_yield(&mut state, &key(1), &program(), &program(), 5, 0), Ok(()));
    assert!(state.is_epoch_reported(10));
    assert!(state.epoch_report.is_epoch_reported(&state.allocations, 10));
    assert_eq!(extract_yield(&mut state, &key(1), &program(), &program(), 1), Ok(()));
    state.epoch_report.beam_epoch_details[0].extracted_yield = u64::MAX;
    assert_eq!(
        extract_yield(&mut state, &key(1), &program(), &program(), 1),
        Err(BeamError::Overflow)
    );
    assert_eq!(state.epoch_report.beam_epoch_details[0].extractable_yield, 4);
}

#[test]
fn record_level_operations() {
    let mut epoch_report = EpochReport::new(2, 3);
    epoch_report.update_extractable_yield_and_epoch_for_beam(1, 4, 100);
    assert_eq!(
        epoch_report.beam_epoch_details[1],
        BeamEpochDetails { epoch: 4, extractable_yield: 100, extracted_yield: 0 }
    );
    assert_eq!(
        epoch_report.extract_yield_for_beam(1, 10, 3),
        Err(BeamError::EpochReportNotUpToDate)
    );
    assert_eq!(epoch_report.extract_yield_for_beam(1, 10, 4), Ok(()));
    assert_eq!(
        epoch_report.beam_epoch_details[1],
        BeamEpochDetails { epoch: 4, extractable_yield: 90, extracted_yield: 10 }
    );
    assert_eq!(epoch_report.beam_epoch_details[0], BeamEpochDetails::new(3));
    assert_eq!(epoch_report.extractable_yield(), 90);
    assert_eq!(epoch_report.extracted_yield(), 10);
    assert_eq!(BeamEpochDetails::default(), BeamEpochDetails::new(0));
}

#[test]
fn advance_takes_one_report_per_beam() {
    let mut state = state_at_epoch_ten();
    state.epoch_report.beam_epoch_details[0].extracted_yield = 9;
    let reports = vec![report(key(1), 11, 50), report(key(2), 11, 70)];
    assert_eq!(update_epoch_report(&mut state, 11, &reports, 5000), Ok(120));
    assert_eq!(state.epoch_report.current_epoch, 11);
    assert_eq!(state.epoch_report.current_gsol_supply, 5000);
    assert_eq!(
        state.epoch_report.beam_epoch_details,
        vec![
            BeamEpochDetails { epoch: 11, extractable_yield: 50, extracted_yield: 9 },
            BeamEpochDetails { epoch: 10, extractable_yield: 0, extracted_yield: 0 },
            BeamEpochDetails { epoch: 11, extractable_yield: 70, extracted_yield: 0 },
        ]
    );
    assert_eq!(state.epoch_report.extractable_yield(), 120);
}

#[test]
fn advance_with_a_missing_report_changes_nothing() {
    let mut state = state_at_epoch_ten();
    let before = state.epoch_report.clone();
    let reports = vec![report(key(1), 11, 50)];
    assert_eq!(
        update_epoch_report(&mut state, 11, &reports, 5000),
        Err(BeamError::IncorrectBeamEpochReportCount)
    );
    assert_eq!(state.epoch_report.current_epoch, 10);
    assert_eq!(state.epoch_report, before);
    let reports = vec![report(key(1), 11, 50), report(key(2), 11, 1), report(key(3), 11, 1)];
    assert_eq!(
        update_epoch_report(&mut state, 11, &reports, 5000),
        Err(BeamError::IncorrectBeamEpochReportCount)
    );
    assert_eq!(state.epoch_report, before);
}

#[test]
fn advance_refusals() {
    let mut state = state_at_epoch_ten();
    let before = state.epoch_report.clone();
    let good = vec![report(key(1), 11, 50), report(key(2), 11, 70)];
    assert_eq!(
        update_epoch_report(&mut state, 10, &good, 0),
        Err(BeamError::EpochReportAlreadyUpdated)
    );
    assert_eq!(update_epoch_report(&mut state, 9, &good, 0), Err(BeamError::EpochReportAlreadyUpdated));
    assert_eq!(
        update_epoch_report(&mut state, 12, &good, 0),
        Err(BeamError::IncorrectBeamEpochReportEpoch)
    );
    let swapped = vec![report(key(2), 11, 70), report(key(1), 11, 50)];
    assert_eq!(
        update_epoch_report(&mut state, 11, &swapped, 0),
        Err(BeamError::IncorrectBeamEpochReport)
    );
    let stale_and_swapped = vec![report(key(2), 11, 70), report(key(1), 10, 50)];
    assert_eq!(
        update_epoch_report(&mut state, 11, &stale_and_swapped, 0),
        Err(BeamError::IncorrectBeamEpochReportEpoch)
    );
    let huge = vec![report(key(1), 11, u64::MAX), report(key(2), 11, 1)];
    assert_eq!(update_epoch_report(&mut state, 11, &huge, 0), Err(BeamError::Overflow));
    assert_eq!(state.epoch_report, before);
    assert_eq!(update_epoch_report(&mut state, 11, &good, 0), Ok(120));
    assert_eq!(update_epoch_report(&mut state, 11, &good, 0), Err(BeamError::EpochReportAlreadyUpdated));
}

#[test]
fn reports_are_summed_and_aligned() {
    let reports = vec![report(key(1), 4, u64::MAX), report(key(2), 4, u64::MAX)];
    assert_eq!(sum_reports(&reports, 4), Some(2 * (u64::MAX as u128)));
    assert_eq!(sum_reports(&reports, 5), None);
    assert_eq!(sum_reports(&Vec::new(), 5), Some(0));
    let state = state_at_epoch_ten();
    let aligned = align_reports(
        &state.allocations,
        &state.epoch_report.beam_epoch_details,
        &vec![report(key(1), 4, 1), report(key(2), 4, 2)],
        4,
    );
    assert_eq!(
        aligned,
        Some(vec![
            BeamEpochDetails { epoch: 4, extractable_yield: 1, extracted_yield: 0 },
            BeamEpochDetails::new(10),
            BeamEpochDetails { epoch: 4, extractable_yield: 2, extracted_yield: 0 },
        ])
    );
    let misaligned = align_reports(
        &state.allocations,
        &state.epoch_report.beam_epoch_details,
        &vec![report(key(1), 4, 1), report(key(3), 4, 2)],
        4,
    );
    assert_eq!(misaligned, None);
}

#[test]
fn extracted_yield_never_shrinks() {
    let mut state = state_at_epoch_ten();
    assert_eq!(report_epoch_yield(&mut state, &key(1), &program(), &program(), 10, 0), Ok(()));
    assert_eq!(extract_yield(&mut state, &key(1), &program(), &program(), 4), Ok(()));
    assert_eq!(state.epoch_report.beam_epoch_details[0].extracted_yield, 4);
    assert_eq!(report_epoch_yield(&mut state, &key(1), &program(), &program(), 0, 0), Ok(()));
    assert_eq!(state.epoch_report.beam_epoch_details[0].extracted_yield, 4);
    let reports = vec![report(key(1), 12, 1), report(key(2), 12, 2)];
    assert_eq!(update_epoch_report(&mut state, 12, &reports, 0), Ok(3));
    assert_eq!(state.epoch_report.beam_epoch_details[0].extracted_yield, 4);
    assert_eq!(state.epoch_report.current_epoch, 12);
    assert_eq!(extract_yield(&mut state, &key(1), &program(), &program(), 6), Ok(()));
    assert_eq!(state.epoch_report.beam_epoch_details[0].extracted_yield, 10);
    assert_eq!(state.epoch_report.beam_epoch_details[0].extractable_yield, 0);
}

#[test]
fn free_slots_do_not_count_as_unreported() {
    let mut state = State::default();
    state.register(
        RegisterStateInput { update_authority: key(7), yield_account: key(8), initial_capacity: 2 },
        0,
        &key(9),
        0,
        10,
    );
    register_beam(&mut state, key(1)).unwrap();
    assert_eq!(update_epoch_report(&mut state, 11, &vec![report(key(1), 11, 5)], 0), Ok(5));
    assert_eq!(state.epoch_report.beam_epoch_details[1].epoch, 10);
    assert!(state.is_epoch_reported(11));
    assert!(state.epoch_report.is_epoch_reported(&state.allocations, 11));
    assert!(!state.is_epoch_reported(10));
    // A beam that takes the free slot has not reported yet.
    register_beam(&mut state, key(2)).unwrap();
    assert!(!state.is_epoch_reported(11));
    assert_eq!(
        extract_yield(&mut state, &key(2), &program(), &program(), 1),
        Err(BeamError::EpochReportNotUpToDate)
    );
    assert_eq!(report_epoch_yield(&mut state, &key(2), &program(), &program(), 3, 0), Ok(()));
    assert!(state.is_epoch_reported(11));
    // Without beams every epoch counts as reported.
    let empty = State::default();
    assert!(empty.is_epoch_reported(3));
}

#[test]
fn zero_key_cannot_report_or_extract() {
    let mut state = state_at_epoch_ten();
    let before = state.epoch_report.clone();
    let zero = Pubkey::default();
    assert_eq!(
        report_epoch_yield(&mut state, &zero, &program(), &program(), 50, 1),
        Err(BeamError::UnidentifiedBeam)
    );
    assert_eq!(
        extract_yield(&mut state, &zero, &program(), &program(), 0),
        Err(BeamError::UnidentifiedBeam)
    );
    assert_eq!(state.epoch_report, before);
    // A report under the zero key is not that of any slot.
    let reports = vec![report(key(1), 11, 1), report(zero, 11, 0), report(key(2), 11, 2)];
    assert_eq!(
        update_epoch_report(&mut state, 11, &reports, 0),
        Err(BeamError::IncorrectBeamEpochReportCount)
    );
    assert_eq!(state.epoch_report, before);
}

#[test]
fn yield_totals_that_do_not_fit() {
    let mut epoch_report = EpochReport::new(2, 3);
    epoch_report.beam_epoch_details[0].extractable_yield = 7;
    epoch_report.beam_epoch_details[1].extractable_yield = 8;
    epoch_report.beam_epoch_details[0].extracted_yield = u64::MAX;
    assert_eq!(epoch_report.checked_extractable_yield(), Some(15));
    assert_eq!(epoch_report.checked_extracted_yield(), Some(u64::MAX));
    epoch_report.beam_epoch_details[1].extracted_yield = 1;
    assert_eq!(epoch_report.checked_extracted_yield(), None);
    epoch_report.beam_epoch_details[1].extractable_yield = u64::MAX;
    assert_eq!(epoch_report.checked_extractable_yield(), None);
    assert_eq!(EpochReport::new(0, 0).checked_extractable_yield(), Some(0));
}
