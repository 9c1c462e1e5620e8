use account_migration::codec::{AccountDeserialize, AccountSerialize, Owner};
use account_migration::error::ErrorCode;
use account_migration::migration::Migration;
use account_migration::record::{OwnerId, Record};
use account_migration::schema::{CurrentState, LegacyState};

/// A record holding a serialized `LegacyState { bump: 1, data: [0..32) }`,
/// owned by the schema's declared identity, padded so the migrated
/// serialization fits.
fn legacy_record() -> Record {
    let legacy = LegacyState {
        bump: 1,
        data: (0u8..32).collect(),
    };
    let mut data = legacy.try_serialize().unwrap();
    data.resize(100, 0xee);
    Record {
        owner: LegacyState::owner(),
        lamports: 10,
        data,
    }
}

#[test]
fn migrate_scenario_round_trips() {
    let mut record = legacy_record();
    let program_id = LegacyState::owner();
    let handle = Migration::<LegacyState, CurrentState>::try_from(&record).unwrap();
    handle
        .exit_with_expected_owner(&mut record, &program_id, &program_id)
        .unwrap();
    let migrated = CurrentState::try_deserialize(&record.data).unwrap();
    assert_eq!(migrated.bump, 1);
    assert_eq!(migrated.data, vec![0x0b; 64]);
}

#[test]
fn exit_preserves_bytes_past_the_serialization() {
    let mut record = legacy_record();
    let program_id = LegacyState::owner();
    let handle = Migration::<LegacyState, CurrentState>::try_from(&record).unwrap();
    handle
        .exit_with_expected_owner(&mut record, &program_id, &program_id)
        .unwrap();
    // The serialized new-schema value takes 8 + 1 + 4 + 64 bytes; the
    // buffer keeps its length and its tail.
    assert_eq!(record.data.len(), 100);
    assert!(record.data[77..].iter().all(|b| *b == 0xee));
}

#[test]
fn exit_under_declared_owner() {
    let mut record = legacy_record();
    let handle = Migration::<LegacyState, CurrentState>::try_from(&record).unwrap();
    handle
        .exit(&mut record, &LegacyState::owner())
        .unwrap();
    let migrated = CurrentState::try_deserialize(&record.data).unwrap();
    assert_eq!(migrated.data, vec![0x0b; 64]);
}

#[test]
fn try_from_wrong_owner_reports_both_identities() {
    let mut record = legacy_record();
    record.owner = OwnerId { hi: 9, lo: 9 };
    match Migration::<LegacyState, CurrentState>::try_from(&record) {
        Err(ErrorCode::AccountOwnedByWrongProgram { actual, expected }) => {
            assert_eq!(actual, OwnerId { hi: 9, lo: 9 });
            assert_eq!(expected, LegacyState::owner());
        }
        _ => panic!("expected an ownership failure"),
    }
}

#[test]
fn try_from_uninitialized_record_fails() {
    let record = Record {
        owner: OwnerId::null(),
        lamports: 0,
        data: vec![1, 2, 3],
    };
    match Migration::<LegacyState, CurrentState>::try_from(&record) {
        Err(e) => assert_eq!(e, ErrorCode::AccountNotInitialized),
        Ok(_) => panic!("expected an initialization failure"),
    }
}

#[test]
fn try_from_null_owner_with_weight_is_not_uninitialized() {
    // A record with existence weight is initialized even under the null
    // sentinel; the ownership check rejects it instead.
    let record = Record {
        owner: OwnerId::null(),
        lamports: 5,
        data: vec![1, 2, 3],
    };
    match Migration::<LegacyState, CurrentState>::try_from(&record) {
        Err(ErrorCode::AccountOwnedByWrongProgram { actual, expected }) => {
            assert_eq!(actual, OwnerId::null());
            assert_eq!(expected, LegacyState::owner());
        }
        _ => panic!("expected an ownership failure"),
    }
}

#[test]
fn try_from_undecodable_bytes_fails() {
    let mut record = legacy_record();
    record.data = vec![1, 2, 3];
    match Migration::<LegacyState, CurrentState>::try_from(&record) {
        Err(e) => assert_eq!(e, ErrorCode::AccountDidNotDeserialize),
        Ok(_) => panic!("expected a codec failure"),
    }
}

#[test]
fn exit_is_a_no_op_for_a_foreign_executing_owner() {
    let mut record = legacy_record();
    let before = record.data.clone();
    let program_id = LegacyState::owner();
    let other = OwnerId { hi: 1, lo: 2 };
    let mut handle = Migration::<LegacyState, CurrentState>::try_from(&record).unwrap();
    // In-memory mutation must not leak either.
    handle.set_inner(LegacyState {
        bump: 42,
        data: vec![7; 3],
    });
    handle
        .exit_with_expected_owner(&mut record, &other, &program_id)
        .unwrap();
    assert_eq!(record.data, before);
    assert_eq!(record.owner, program_id);
    assert_eq!(record.lamports, 10);
}

#[test]
fn exit_is_a_no_op_on_a_closed_record() {
    let record = legacy_record();
    let handle = Migration::<LegacyState, CurrentState>::try_from(&record).unwrap();
    // The record is closed by an external collaborator between
    // construction and exit.
    let mut closed = Record {
        owner: OwnerId::null(),
        lamports: 0,
        data: Vec::new(),
    };
    let program_id = LegacyState::owner();
    handle
        .exit_with_expected_owner(&mut closed, &program_id, &program_id)
        .unwrap();
    assert!(closed.data.is_empty());
    assert_eq!(closed.owner, OwnerId::null());
}

#[test]
fn exit_rejects_a_buffer_too_small_for_the_migrated_value() {
    let legacy = LegacyState {
        bump: 1,
        data: Vec::new(),
    };
    let mut record = Record {
        owner: LegacyState::owner(),
        lamports: 10,
        data: legacy.try_serialize().unwrap(),
    };
    let before = record.data.clone();
    let program_id = LegacyState::owner();
    let handle = Migration::<LegacyState, CurrentState>::try_from(&record).unwrap();
    assert_eq!(
        handle.exit_with_expected_owner(&mut record, &program_id, &program_id),
        Err(ErrorCode::AccountDidNotSerialize)
    );
    assert_eq!(record.data, before);
}

#[test]
fn reload_discards_in_memory_changes() {
    let record = legacy_record();
    let mut handle = Migration::<LegacyState, CurrentState>::try_from(&record).unwrap();
    handle.set_inner(LegacyState {
        bump: 9,
        data: Vec::new(),
    });
    handle.reload(&record).unwrap();
    let inner = handle.into_inner();
    assert_eq!(inner.bump, 1);
    assert_eq!(inner.data, (0u8..32).collect::<Vec<u8>>());
}

#[test]
fn reload_fails_on_undecodable_bytes() {
    let record = legacy_record();
    let mut handle = Migration::<LegacyState, CurrentState>::try_from(&record).unwrap();
    let mut garbled = legacy_record();
    garbled.data = vec![0xff; 4];
    assert_eq!(
        handle.reload(&garbled),
        Err(ErrorCode::AccountDidNotDeserialize)
    );
    // The held value is untouched by a failed reload.
    assert_eq!(handle.into_inner().bump, 1);
}

#[test]
fn set_inner_replaces_the_held_value() {
    let record = legacy_record();
    let mut handle = Migration::<LegacyState, CurrentState>::try_from(&record).unwrap();
    handle.set_inner(LegacyState {
        bump: 200,
        data: vec![4, 5],
    });
    let inner = handle.into_inner();
    assert_eq!(inner.bump, 200);
    assert_eq!(inner.data, vec![4, 5]);
}

#[test]
fn unchecked_construction_skips_the_schema_tag() {
    // A record holding bytes tagged for the new schema: full decoding as
    // the old schema fails, the tag-skipping variant reads the fields.
    let current = CurrentState {
        bump: 3,
        data: vec![5; 4],
    };
    let mut record = legacy_record();
    record.data = current.try_serialize().unwrap();
    match Migration::<LegacyState, CurrentState>::try_from(&record) {
        Err(e) => assert_eq!(e, ErrorCode::AccountDidNotDeserialize),
        Ok(_) => panic!("expected a codec failure"),
    }
    let handle = Migration::<LegacyState, CurrentState>::try_from_unchecked(&record).unwrap();
    let inner = handle.into_inner();
    assert_eq!(inner.bump, 3);
    assert_eq!(inner.data, vec![5; 4]);
}

#[test]
fn closed_record_shape() {
    let closed = Record {
        owner: OwnerId::null(),
        lamports: 0,
        data: Vec::new(),
    };
    assert!(closed.is_closed());
    let open_record = legacy_record();
    assert!(!open_record.is_closed());
}
