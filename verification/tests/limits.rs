use storage_gas::change_set::{ChangeSet, ContractEvent};
use storage_gas::gas_algebra::NumBytes;
use storage_gas::gas_params::AptosGasParameters;
use storage_gas::limits::{ChangeSetConfigs, StatusCode};
use storage_gas::write_op::{StateKey, StateValueMetadata, WriteOp};

const MIB: usize = 1 << 20;

fn write_of(key_size: usize, payload: usize) -> (StateKey, WriteOp) {
    (StateKey::new(key_size, None), WriteOp::Creation(vec![0u8; payload]))
}

fn event_of(payload: usize) -> ContractEvent {
    ContractEvent::new(0, vec![0u8; payload])
}

fn capped_params(per_write: u64, all_writes: u64, per_event: u64, all_events: u64) -> AptosGasParameters {
    let mut params = AptosGasParameters::zeros();
    params.txn.max_bytes_per_write_op = NumBytes::new(per_write);
    params.txn.max_bytes_all_write_ops_per_transaction = NumBytes::new(all_writes);
    params.txn.max_bytes_per_event = NumBytes::new(per_event);
    params.txn.max_bytes_all_events_per_transaction = NumBytes::new(all_events);
    params
}

const REJECTED: Result<(), StatusCode> = Err(StatusCode::StorageWriteLimitReached);

#[test]
fn empty_change_set_passes() {
    let limits = ChangeSetConfigs::new_impl(5, 0, 0, 0, 0);
    assert_eq!(limits.check_change_set(&ChangeSet::new(vec![], vec![])), Ok(()));
}

#[test]
fn one_oversize_write_is_rejected() {
    let limits = ChangeSetConfigs::new_impl(5, 100, 10_000, 100, 10_000);
    let writes = vec![write_of(10, 5), write_of(10, 91), write_of(10, 5)];
    assert_eq!(limits.check_change_set(&ChangeSet::new(writes, vec![])), REJECTED);

    let writes = vec![write_of(10, 5), write_of(10, 90), write_of(10, 5)];
    assert_eq!(limits.check_change_set(&ChangeSet::new(writes, vec![])), Ok(()));
}

#[test]
fn an_offending_entry_rejects_wherever_it_stands() {
    let limits = ChangeSetConfigs::new_impl(5, 100, 10_000, 100, 10_000);
    for place in 0..4 {
        let mut writes = vec![write_of(1, 1), write_of(1, 1), write_of(1, 1)];
        writes.insert(place, write_of(1, 100));
        assert_eq!(limits.check_change_set(&ChangeSet::new(writes, vec![])), REJECTED);
    }
}

#[test]
fn write_size_counts_key_and_payload() {
    let limits = ChangeSetConfigs::new_impl(5, 100, 10_000, 100, 10_000);
    assert_eq!(
        limits.check_change_set(&ChangeSet::new(vec![write_of(60, 40)], vec![])),
        Ok(())
    );
    assert_eq!(
        limits.check_change_set(&ChangeSet::new(vec![write_of(61, 40)], vec![])),
        REJECTED
    );
    assert_eq!(
        limits.check_change_set(&ChangeSet::new(vec![write_of(60, 41)], vec![])),
        REJECTED
    );
    // The abstract size counts, not the encoding.
    let entry = (StateKey::new(60, Some(1000)), WriteOp::Modification(vec![0u8; 40]));
    assert_eq!(limits.check_change_set(&ChangeSet::new(vec![entry], vec![])), Ok(()));
}

#[test]
fn total_of_writes_is_capped() {
    let limits = ChangeSetConfigs::new_impl(5, 100, 250, 100, 10_000);
    let writes = vec![write_of(10, 90), write_of(10, 90), write_of(10, 40)];
    assert_eq!(limits.check_change_set(&ChangeSet::new(writes, vec![])), Ok(()));
    let writes = vec![write_of(10, 90), write_of(10, 90), write_of(10, 41)];
    assert_eq!(limits.check_change_set(&ChangeSet::new(writes, vec![])), REJECTED);
}

#[test]
fn sizes_and_totals_at_their_caps_pass() {
    let limits = ChangeSetConfigs::new_impl(5, 100, 300, 50, 100);
    let writes = vec![write_of(10, 90), write_of(50, 50), write_of(0, 100)];
    let events = vec![event_of(50), event_of(50)];
    assert_eq!(limits.check_change_set(&ChangeSet::new(writes, events)), Ok(()));
}

#[test]
fn one_byte_over_any_cap_is_rejected() {
    let limits = ChangeSetConfigs::new_impl(5, 100, 300, 50, 100);
    let writes = || vec![write_of(10, 90), write_of(50, 50), write_of(0, 100)];
    let events = || vec![event_of(50), event_of(50)];

    let mut over = writes();
    over[1] = write_of(50, 51);
    assert_eq!(limits.check_change_set(&ChangeSet::new(over, events())), REJECTED);

    let mut over = writes();
    over.push(write_of(0, 1));
    assert_eq!(limits.check_change_set(&ChangeSet::new(over, events())), REJECTED);

    let mut over = events();
    over[0] = event_of(51);
    assert_eq!(limits.check_change_set(&ChangeSet::new(writes(), over)), REJECTED);

    let mut over = events();
    over.push(event_of(1));
    assert_eq!(limits.check_change_set(&ChangeSet::new(writes(), over)), REJECTED);
}

#[test]
fn events_have_a_budget_of_their_own() {
    let limits = ChangeSetConfigs::new_impl(5, 100, 100, 100, 100);
    let change_set = ChangeSet::new(vec![write_of(50, 50)], vec![event_of(100)]);
    assert_eq!(limits.check_change_set(&change_set), Ok(()));
    let change_set = ChangeSet::new(vec![], vec![event_of(60), event_of(41)]);
    assert_eq!(limits.check_change_set(&change_set), REJECTED);
}

#[test]
fn deletions_count_for_nothing() {
    let limits = ChangeSetConfigs::new_impl(5, 0, 0, 0, 0);
    let metadata = StateValueMetadata { deposit: 1, creation_time_usecs: 2 };
    let writes = vec![
        (StateKey::new(1_000_000, Some(7)), WriteOp::Deletion),
        (StateKey::new(usize::MAX, None), WriteOp::DeletionWithMetadata { metadata }),
    ];
    assert_eq!(limits.check_change_set(&ChangeSet::new(writes, vec![])), Ok(()));

    // An empty payload still counts the key.
    let writes = vec![(StateKey::new(1, None), WriteOp::Modification(vec![]))];
    assert_eq!(limits.check_change_set(&ChangeSet::new(writes, vec![])), REJECTED);
}

#[test]
fn sizes_that_do_not_fit_64_bits_are_over_every_cap() {
    let limits = ChangeSetConfigs::unlimited_at_gas_feature_version(5);
    let writes = vec![write_of(usize::MAX, 1)];
    let expected = if usize::BITS >= 64 { REJECTED } else { Ok(()) };
    assert_eq!(limits.check_change_set(&ChangeSet::new(writes, vec![])), expected);

    let writes = vec![write_of(usize::MAX - 1, 1), write_of(1, 0)];
    assert_eq!(limits.check_change_set(&ChangeSet::new(writes, vec![])), expected);
}

#[test]
fn from_version_5_the_caps_come_from_the_parameters() {
    let params = capped_params(100, 250, 50, 100);
    for version in [5u64, 6, 100] {
        let limits = ChangeSetConfigs::new(version, &params);
        assert!(!limits.legacy_resource_creation_as_modification());
        assert_eq!(
            limits.check_change_set(&ChangeSet::new(vec![write_of(50, 50)], vec![event_of(50)])),
            Ok(())
        );
        assert_eq!(
            limits.check_change_set(&ChangeSet::new(vec![write_of(50, 51)], vec![])),
            REJECTED
        );
        assert_eq!(
            limits.check_change_set(&ChangeSet::new(vec![], vec![event_of(51)])),
            REJECTED
        );
        let writes = vec![write_of(0, 100), write_of(0, 100), write_of(0, 51)];
        assert_eq!(limits.check_change_set(&ChangeSet::new(writes, vec![])), REJECTED);
        let events = vec![event_of(50), event_of(50), event_of(1)];
        assert_eq!(limits.check_change_set(&ChangeSet::new(vec![], events)), REJECTED);
    }
}

#[test]
fn versions_3_and_4_have_fixed_caps() {
    let params = capped_params(1, 1, 1, 1);
    for version in [3u64, 4] {
        let limits = ChangeSetConfigs::new(version, &params);
        assert_eq!(limits.gas_feature_version(), version);
        assert!(!limits.legacy_resource_creation_as_modification());

        let at_cap = ChangeSet::new(vec![write_of(20, MIB - 20)], vec![event_of(MIB)]);
        assert_eq!(limits.check_change_set(&at_cap), Ok(()));
        let over = ChangeSet::new(vec![write_of(20, MIB - 19)], vec![]);
        assert_eq!(limits.check_change_set(&over), REJECTED);
        let over = ChangeSet::new(vec![], vec![event_of(MIB + 1)]);
        assert_eq!(limits.check_change_set(&over), REJECTED);

        // No cap on all writes together.
        let writes = (0..12).map(|_| write_of(0, MIB)).collect();
        assert_eq!(limits.check_change_set(&ChangeSet::new(writes, vec![])), Ok(()));

        // Ten mebibytes for all events together.
        let events = (0..10).map(|_| event_of(MIB)).collect();
        assert_eq!(limits.check_change_set(&ChangeSet::new(vec![], events)), Ok(()));
        let mut events: Vec<ContractEvent> = (0..10).map(|_| event_of(MIB)).collect();
        events.push(event_of(1));
        assert_eq!(limits.check_change_set(&ChangeSet::new(vec![], events)), REJECTED);
    }
}

#[test]
fn before_version_3_nothing_is_capped() {
    let change_set = || ChangeSet::new(vec![write_of(1000, 3 * MIB)], vec![event_of(2 * MIB)]);
    for version in [0u64, 1, 2] {
        for params in [capped_params(0, 0, 0, 0), capped_params(1, 2, 3, 4)] {
            let limits = ChangeSetConfigs::new(version, &params);
            assert!(limits.legacy_resource_creation_as_modification());
            assert_eq!(limits.check_change_set(&change_set()), Ok(()));
        }
    }
}

#[test]
fn legacy_creation_rule_holds_before_version_3_only() {
    let params = AptosGasParameters::zeros();
    for version in 0u64..3 {
        assert!(ChangeSetConfigs::new(version, &params).legacy_resource_creation_as_modification());
        assert!(ChangeSetConfigs::unlimited_at_gas_feature_version(version)
            .legacy_resource_creation_as_modification());
    }
    for version in [3u64, 4, 5, 6, 7, 1000, u64::MAX] {
        assert!(!ChangeSetConfigs::new(version, &params).legacy_resource_creation_as_modification());
        assert!(!ChangeSetConfigs::unlimited_at_gas_feature_version(version)
            .legacy_resource_creation_as_modification());
    }
    assert!(!ChangeSetConfigs::for_feature_version_3().legacy_resource_creation_as_modification());
    assert!(ChangeSetConfigs::new_impl(2, 1, 1, 1, 1).legacy_resource_creation_as_modification());
}

#[test]
fn unlimited_lets_large_change_sets_through() {
    let limits = ChangeSetConfigs::unlimited_at_gas_feature_version(6);
    let change_set = ChangeSet::new(vec![write_of(1000, 3 * MIB)], vec![event_of(2 * MIB)]);
    assert_eq!(limits.check_change_set(&change_set), Ok(()));
}

#[test]
fn from_gas_params_takes_each_cap_from_its_field() {
    let limits = ChangeSetConfigs::from_gas_params(2, &capped_params(10, 20, 30, 40));
    assert!(limits.legacy_resource_creation_as_modification());
    let ok = ChangeSet::new(vec![write_of(5, 5), write_of(5, 5)], vec![event_of(30), event_of(10)]);
    assert_eq!(limits.check_change_set(&ok), Ok(()));
    assert_eq!(
        limits.check_change_set(&ChangeSet::new(vec![write_of(5, 6)], vec![])),
        REJECTED
    );
    let writes = vec![write_of(5, 5), write_of(5, 5), write_of(0, 1)];
    assert_eq!(limits.check_change_set(&ChangeSet::new(writes, vec![])), REJECTED);
    assert_eq!(
        limits.check_change_set(&ChangeSet::new(vec![], vec![event_of(31)])),
        REJECTED
    );
    let events = vec![event_of(30), event_of(10), event_of(1)];
    assert_eq!(limits.check_change_set(&ChangeSet::new(vec![], events)), REJECTED);
}

#[test]
fn change_set_hands_back_what_it_holds() {
    let change_set = ChangeSet::new(vec![write_of(3, 4)], vec![ContractEvent::new(8, vec![1, 2])]);
    assert_eq!(change_set.write_set().len(), 1);
    assert_eq!(change_set.write_set()[0].0.size(), 3);
    assert_eq!(change_set.events().len(), 1);
    assert_eq!(change_set.events()[0].sequence_number(), 8);
    assert_eq!(change_set.events()[0].event_data(), &vec![1u8, 2]);
}

#[test]
fn limits_hold_the_version_they_were_made_for() {
    let params = capped_params(10, 20, 30, 40);
    for version in [0u64, 1, 2, 3, 4, 5, 6, 7, 1000, u64::MAX] {
        assert_eq!(ChangeSetConfigs::new(version, &params).gas_feature_version(), version);
        assert_eq!(
            ChangeSetConfigs::new(version, &AptosGasParameters::zeros()).gas_feature_version(),
            version
        );
        assert_eq!(
            ChangeSetConfigs::unlimited_at_gas_feature_version(version).gas_feature_version(),
            version
        );
        assert_eq!(
            ChangeSetConfigs::from_gas_params(version, &params).gas_feature_version(),
            version
        );
        assert_eq!(
            ChangeSetConfigs::new_impl(version, 1, 2, 3, 4).gas_feature_version(),
            version
        );
    }
    assert_eq!(ChangeSetConfigs::for_feature_version_3().gas_feature_version(), 3);
}

#[test]
fn version_4_has_the_caps_of_version_3_and_its_own_version() {
    let params = AptosGasParameters::zeros();
    let four = ChangeSetConfigs::new(4, &params);
    let three = ChangeSetConfigs::for_feature_version_3();
    assert_eq!(four.gas_feature_version(), 4);
    assert_eq!(three.gas_feature_version(), 3);
    for change_set in [
        ChangeSet::new(vec![write_of(20, MIB - 20)], vec![event_of(MIB)]),
        ChangeSet::new(vec![write_of(20, MIB - 19)], vec![]),
        ChangeSet::new(vec![], vec![event_of(MIB + 1)]),
        ChangeSet::new(vec![], (0..11).map(|_| event_of(MIB)).collect()),
    ] {
        assert_eq!(four.check_change_set(&change_set), three.check_change_set(&change_set));
    }
}

#[test]
fn a_deletion_changes_no_outcome_wherever_it_stands() {
    let limits = ChangeSetConfigs::new_impl(5, 100, 250, 100, 10_000);
    let accepted = || vec![write_of(10, 90), write_of(10, 90), write_of(10, 40)];
    let rejected = || vec![write_of(10, 90), write_of(10, 90), write_of(10, 41)];
    let deletion = || (StateKey::new(1_000_000, None), WriteOp::Deletion);
    for place in 0..4 {
        let mut writes = accepted();
        writes.insert(place, deletion());
        assert_eq!(limits.check_change_set(&ChangeSet::new(writes, vec![])), Ok(()));
        let mut writes = rejected();
        writes.insert(place, deletion());
        assert_eq!(limits.check_change_set(&ChangeSet::new(writes, vec![])), REJECTED);
    }
}
