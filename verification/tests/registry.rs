use sunrise_core::registry::{calculate_new_size, register_beam, remove_beam, resize_allocations};
use sunrise_core::{
    BeamDetails, BeamEpochDetails, BeamError, EpochReport, Pubkey, RegisterStateInput, State,
    UpdateStateInput,
};

fn key(n: u8) -> Pubkey {
    let mut bytes = [0u8; 32];
    bytes[0] = n;
    bytes[31] = 1;
    Pubkey::new_from_array(bytes)
}

#[test]
fn test_register_beam() {
    let mut state = State::default();
    let mut input = RegisterStateInput::default();
    input.initial_capacity = 10;

    state.register(input, 0, &Pubkey::default(), 1000, 0);
    assert_eq!(state.allocations, vec![BeamDetails::default(); 10]);
}

#[test]
fn test_contains_beam() {
    let mut state = State::default();

    let key1 = key(1);
    let key2 = key(2);
    state.allocations = vec![key1, key2]
        .iter()
        .map(|key| BeamDetails::new(*key, 20))
        .collect();

    assert!(state.contains_beam(&key1));
    assert!(state.contains_beam(&key2));
}

#[test]
fn test_beam_count() {
    let mut state = State::default();

    let key1 = key(1);
    let key2 = key(2);

    state.allocations = vec![
        BeamDetails::new(key1, 20),
        BeamDetails::default(),
        BeamDetails::new(key2, 10),
        BeamDetails::default(),
    ];

    assert_eq!(state.beam_count(), 2);
}

#[test]
fn test_add_beam() {
    let mut state = State::default();
    let mut input = RegisterStateInput::default();

    input.initial_capacity = 2;
    state.register(input, 0, &key(9), 1000, 0);

    let beam_key = key(1);
    let new_beam = BeamDetails::new(beam_key, 10);

    assert!(state.add_beam(new_beam.clone()).is_ok());
    // Should fail because duplicate entry
    let expect_to_fail = state.add_beam(new_beam.clone());
    assert_eq!(
        format!("{:?}", expect_to_fail),
        format!("{:?}", Err::<(), BeamError>(BeamError::DuplicateBeamEntry))
    );

    assert_eq!(state.contains_beam(&beam_key), true);
    assert_eq!(state.beam_count(), 1);

    assert!(state.add_beam(BeamDetails::new(key(2), 20)).is_ok());
    assert_eq!(state.beam_count(), 2);

    // Should fail because no space
    let expect_to_fail2 = state.add_beam(BeamDetails::new(key(3), 20));
    assert_eq!(
        format!("{:?}", expect_to_fail2),
        format!("{:?}", Err::<(), BeamError>(BeamError::NoSpaceInAllocations))
    );
}

#[test]
fn test_remove_beam() {
    let mut state = State::default();

    let keys = vec![key(1), key(2), key(3)];

    state.allocations = vec![
        BeamDetails::new(keys[0], 20),
        BeamDetails::new(keys[1], 50),
        BeamDetails::new(keys[2], 0),
    ];

    // Fails because allocation is non-zero.
    let expect_to_fail1 = state.remove_beam(&keys[0]);
    assert_eq!(
        format!("{:?}", expect_to_fail1),
        format!("{:?}", Err::<(), BeamError>(BeamError::NonZeroAllocation))
    );
    assert!(state.remove_beam(&keys[1]).is_err());
    assert!(state.remove_beam(&keys[2]).is_ok());

    // Fails because key[2] has been removed and is no longer in allocations.
    let expect_to_fail2 = state.remove_beam(&keys[2]);
    assert_eq!(
        format!("{:?}", expect_to_fail2),
        format!("{:?}", Err::<(), BeamError>(BeamError::UnidentifiedBeam))
    );
}

#[test]
fn test_get_beam_details() {
    let mut state = State::default();
    let key = key(1);

    state.allocations = vec![
        BeamDetails::new(key, 90),
        BeamDetails::default(),
        BeamDetails::new(self::key(2), 10),
    ];

    assert!(matches!(state.get_beam_details(&key), Some(&ref _discard)));
    assert!(matches!(
        state.get_mut_beam_details(&key.clone()),
        Some(&mut ref _discard)
    ));

    if let Some(res) = state.get_beam_details(&key) {
        assert_eq!(res.key, key);
        assert_eq!(res.allocation, 90);
    } else {
        panic!("")
    }

    if let Some(res) = state.get_mut_beam_details(&key) {
        assert_eq!(res.key, key);
        assert_eq!(res.allocation, 90);
    } else {
        panic!("")
    }
}

#[test]
fn test_calculate_new_size() {
    let mut state = State::default();
    state.allocations = vec![BeamDetails::default(); 10];
    assert_eq!(calculate_new_size(&state, 10), State::size(20));
}

#[test]
fn test_extend() {
    let mut state = State::default();
    state.allocations = Vec::with_capacity(3);
    state.allocations.push(BeamDetails::default());
    assert_eq!(state.allocations.len(), 1);
    assert_eq!(state.allocations, vec![BeamDetails::default()]);
    state
        .allocations
        .extend(std::iter::repeat(BeamDetails::default()).take(2));
    assert_eq!(state.allocations.len(), 3);
    assert_eq!(state.allocations, vec![BeamDetails::default(); 3]);
}

#[test]
fn test_size_calculations() {
    let mut state = State::default();

    let initial_size = state.size_inner();
    assert_eq!(state.allocations.len(), 0);
    assert_eq!(initial_size, State::size(0));

    state.allocations = vec![BeamDetails::default(); 10];
    let size = state.size_inner();
    assert_eq!(size, State::size(10));
}

#[test]
fn size_counts_slots_and_epoch_records() {
    let mut state = State::default();

    let initial_size = state.size_inner();
    assert_eq!(state.allocations.len(), 0);
    assert_eq!(initial_size, State::size(0));
    assert_eq!(
        initial_size,
        State::SIZE_WITH_ZERO_BEAMS + EpochReport::SIZE_WITH_ZERO_BEAMS
    );
    assert_eq!(initial_size, 265);

    state.allocations = vec![BeamDetails::default(); 10];
    let size = state.size_inner();
    assert_eq!(size, State::size(10));
    assert_eq!(
        size,
        initial_size + 10 * (BeamDetails::SIZE + BeamEpochDetails::SIZE)
    );
    assert_eq!(size, 2205);
    assert_eq!(EpochReport::size(3), 92);
    assert_eq!(EpochReport::new(3, 7).size_inner(), 92);
}

#[test]
fn register_fills_slots_and_epoch_records() {
    let mut state = State::default();
    let input = RegisterStateInput {
        update_authority: key(7),
        yield_account: key(8),
        initial_capacity: 3,
    };
    state.register(input, 254, &key(9), 1000, 42);
    assert_eq!(state.update_authority, key(7));
    assert_eq!(state.yield_account, key(8));
    assert_eq!(state.gsol_mint, key(9));
    assert_eq!(state.pre_supply, 1000);
    assert_eq!(state.gsol_mint_authority_bump, 254);
    assert_eq!(state.allocations, vec![BeamDetails::default(); 3]);
    assert_eq!(state.epoch_report.current_epoch, 42);
    assert_eq!(state.epoch_report.current_gsol_supply, 0);
    assert_eq!(
        state.epoch_report.beam_epoch_details,
        vec![BeamEpochDetails::new(42); 3]
    );
    assert_eq!(state.beam_count(), 0);
}

#[test]
fn update_replaces_named_fields_only() {
    let mut state = State::default();
    state.register(RegisterStateInput::default(), 1, &key(9), 5, 0);
    state.update(UpdateStateInput {
        new_update_authority: Some(key(1)),
        new_yield_account: None,
        new_gsol_mint: None,
        new_gsol_mint_authority_bump: Some(3),
    });
    assert_eq!(state.update_authority, key(1));
    assert_eq!(state.yield_account, Pubkey::default());
    assert_eq!(state.gsol_mint, key(9));
    assert_eq!(state.gsol_mint_authority_bump, 3);
    assert_eq!(state.pre_supply, 5);
    state.update(UpdateStateInput::default());
    assert_eq!(state.update_authority, key(1));
}

#[test]
fn add_beam_takes_first_free_slot() {
    let mut state = State::default();
    state.allocations = vec![
        BeamDetails::new(key(1), 20),
        BeamDetails::default(),
        BeamDetails::new(key(2), 10),
        BeamDetails::default(),
    ];
    assert_eq!(register_beam(&mut state, key(3)), Ok(()));
    assert_eq!(state.allocations[1], BeamDetails::new(key(3), 0));
    assert_eq!(state.allocations[3], BeamDetails::default());
    assert_eq!(state.find_beam_index(&key(3)), Some(1));
    assert_eq!(state.find_beam_index(&key(2)), Some(2));
    assert_eq!(state.find_beam_index(&key(4)), None);
    assert_eq!(register_beam(&mut state, key(3)), Err(BeamError::DuplicateBeamEntry));
}

#[test]
fn remove_needs_zero_allocation() {
    let mut state = State::default();
    state.allocations = vec![BeamDetails::new(key(1), 60), BeamDetails::new(key(2), 40)];
    assert_eq!(remove_beam(&mut state, key(1)), Err(BeamError::NonZeroAllocation));
    assert_eq!(state.allocations[0], BeamDetails::new(key(1), 60));
    state.allocations[0].allocation = 0;
    assert_eq!(remove_beam(&mut state, key(1)), Ok(()));
    assert_eq!(state.allocations[0], BeamDetails::default());
    assert_eq!(state.beam_count(), 1);
    assert_eq!(remove_beam(&mut state, key(1)), Err(BeamError::UnidentifiedBeam));
}

#[test]
fn resize_appends_vacant_slots() {
    let mut state = State::default();
    state.register(
        RegisterStateInput { update_authority: key(7), yield_account: key(8), initial_capacity: 1 },
        0,
        &key(9),
        0,
        5,
    );
    assert_eq!(register_beam(&mut state, key(1)), Ok(()));
    assert_eq!(register_beam(&mut state, key(2)), Err(BeamError::NoSpaceInAllocations));
    assert_eq!(resize_allocations(&mut state, 2), Ok(State::size(3)));
    assert_eq!(
        state.allocations,
        vec![BeamDetails::new(key(1), 0), BeamDetails::default(), BeamDetails::default()]
    );
    assert_eq!(state.epoch_report.beam_epoch_details, vec![BeamEpochDetails::new(5); 3]);
    assert_eq!(register_beam(&mut state, key(2)), Ok(()));
    assert_eq!(state.beam_count(), 2);
    assert_eq!(
        resize_allocations(&mut state, usize::MAX),
        Err(BeamError::WouldExceedBeamCapacity)
    );
    assert_eq!(state.allocations.len(), 3);
}

#[test]
fn vacant_record_is_default() {
    assert!(BeamDetails::default().is_vacant());
    assert!(!BeamDetails::new(key(1), 0).is_vacant());
    assert!(!BeamDetails::new(Pubkey::default(), 1).is_vacant());
    assert_eq!(Pubkey::default().to_bytes(), [0u8; 32]);
    assert_ne!(key(1), key(2));
}

#[test]
fn state_is_well_formed_with_a_record_per_slot() {
    let mut state = State::default();
    assert!(state.is_wf());
    state.register(RegisterStateInput::default(), 0, &key(9), 0, 1);
    assert!(state.is_wf());
    state.allocations.push(BeamDetails::default());
    assert!(!state.is_wf());
    state.epoch_report.beam_epoch_details.push(BeamEpochDetails::default());
    assert!(state.is_wf());
}

#[test]
fn keys_stay_unique() {
    let mut state = State::default();
    state.allocations = vec![BeamDetails::default(); 3];
    assert_eq!(register_beam(&mut state, key(1)), Ok(()));
    assert_eq!(register_beam(&mut state, key(2)), Ok(()));
    assert_eq!(register_beam(&mut state, key(1)), Err(BeamError::DuplicateBeamEntry));
    assert_eq!(register_beam(&mut state, Pubkey::default()), Err(BeamError::InvalidParameter));
    assert_eq!(remove_beam(&mut state, key(1)), Ok(()));
    assert_eq!(register_beam(&mut state, key(2)), Err(BeamError::DuplicateBeamEntry));
    assert_eq!(register_beam(&mut state, key(1)), Ok(()));
    let held: Vec<Pubkey> = state.allocations.iter().map(|slot| slot.key).collect();
    assert_eq!(held, vec![key(1), key(2), Pubkey::default()]);
}

#[test]
fn zero_key_names_no_beam() {
    let mut state = State::default();
    state.allocations = vec![BeamDetails::new(key(1), 0), BeamDetails::default()];
    let before = state.allocations.clone();
    assert_eq!(state.remove_beam(&Pubkey::default()), Err(BeamError::UnidentifiedBeam));
    assert_eq!(remove_beam(&mut state, Pubkey::default()), Err(BeamError::UnidentifiedBeam));
    assert_eq!(state.allocations, before);
    assert!(!state.contains_beam(&Pubkey::default()));
    assert_eq!(state.find_beam_index(&Pubkey::default()), None);
    assert!(state.get_beam_details(&Pubkey::default()).is_none());
    assert!(state.get_mut_beam_details(&Pubkey::default()).is_none());
    assert_eq!(
        state.add_beam(BeamDetails::new(Pubkey::default(), 5)),
        Err(BeamError::InvalidParameter)
    );
    assert_eq!(state.allocations, before);
    assert_eq!(state.beam_count(), 1);
    // Without a free slot the zero key is refused all the same.
    state.allocations = vec![BeamDetails::new(key(1), 0)];
    assert_eq!(state.remove_beam(&Pubkey::default()), Err(BeamError::UnidentifiedBeam));
    assert_eq!(
        state.add_beam(BeamDetails::new(Pubkey::default(), 0)),
        Err(BeamError::InvalidParameter)
    );
}

#[test]
fn count_goes_by_the_key() {
    let mut state = State::default();
    let mut marked = BeamDetails::default();
    marked.allocation = 7;
    state.allocations = vec![marked, BeamDetails::new(key(1), 0)];
    assert_eq!(state.beam_count(), 1);
}

#[test]
fn size_that_cannot_be_counted() {
    assert_eq!(State::checked_size(10), Some(2205));
    assert_eq!(State::checked_size(0), Some(265));
    assert_eq!(State::checked_size(usize::MAX), None);
    assert_eq!(State::checked_size((usize::MAX - 265) / 194), Some(265 + 194 * ((usize::MAX - 265) / 194)));
    assert_eq!(State::checked_size((usize::MAX - 265) / 194 + 1), None);
    assert_eq!(EpochReport::checked_size(3), Some(92));
    assert_eq!(EpochReport::checked_size(usize::MAX / 24 + 1), None);
}
