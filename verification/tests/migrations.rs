use di_migration::migrations::{Failure, State, Store, RETAINED_RESULTS};

fn store() -> Store {
    Store::new()
}

#[test]
fn a_fresh_id_is_unknown() {
    assert_eq!(store().state(uuid::Uuid::new_v4().as_u128()), None);
}

#[test]
fn only_one_migration_runs_at_a_time() {
    let mut store = store();
    let first = store.start().expect("slot is free");

    assert!(store.start().is_none(), "second claim should be refused");

    first.succeed(&mut store, b"pcp".to_vec());
    assert!(store.start().is_some(), "slot should be free again");
}

#[test]
fn a_finished_migration_is_collectable() {
    let mut store = store();
    let slot = store.start().expect("slot is free");
    let id = slot.id();

    assert_eq!(store.state(id), Some(State::Running));
    slot.succeed(&mut store, b"pcp".to_vec());

    assert_eq!(store.state(id), Some(State::Succeeded(b"pcp".to_vec())));
}

/// A task that ends without an outcome must not strand the slot.
#[test]
fn dropping_a_slot_unsettled_fails_the_migration() {
    let mut store = store();
    let slot = store.start().expect("slot is free");
    let id = slot.id();

    slot.abandon(&mut store);

    assert_eq!(store.state(id), Some(State::Failed(Failure::Abandoned)));
    assert!(store.start().is_some(), "slot should be free again");
}

#[test]
fn results_past_the_retention_window_age_out() {
    let mut store = store();
    let mut ids = Vec::new();

    for _ in 0..=RETAINED_RESULTS {
        let slot = store.start().expect("slot is free");
        ids.push(slot.id());
        slot.succeed(&mut store, b"pcp".to_vec());
    }

    assert_eq!(store.state(ids[0]), None, "oldest should have aged out");
    assert!(store.state(ids[RETAINED_RESULTS]).is_some());
    for id in &ids[1..] {
        assert!(store.state(*id).is_some());
    }
}

#[test]
fn a_failed_migration_keeps_its_failure() {
    let mut store = store();
    let slot = store.start_with(7).expect("slot is free");
    assert_eq!(slot.id(), 7);

    slot.fail(&mut store, Failure::EnclaveUnreachable("refused".to_owned()));

    assert_eq!(
        store.state(7),
        Some(State::Failed(Failure::EnclaveUnreachable("refused".to_owned())))
    );
}

#[test]
fn a_claim_with_a_chosen_id_is_refused_while_another_runs() {
    let mut store = store();
    let running = store.start_with(1).expect("slot is free");

    assert!(store.start_with(2).is_none());
    assert_eq!(store.state(2), None);

    running.fail(&mut store, Failure::EnclaveTimeout);
    assert!(store.start_with(2).is_some());
}

/// Claims that succeed, fail or are dropped each leave the slot free for the next one.
#[test]
fn the_slot_is_free_once_every_claim_has_settled() {
    let mut store = store();
    let first = store.start_with(10).expect("slot is free");
    first.succeed(&mut store, b"pcp".to_vec());
    let second = store.start_with(11).expect("slot is free");
    second.fail(&mut store, Failure::EnclaveTimeout);
    let third = store.start_with(12).expect("slot is free");
    assert!(store.start().is_none(), "refused while the third runs");
    third.abandon(&mut store);

    assert_eq!(store.state(10), Some(State::Succeeded(b"pcp".to_vec())));
    assert_eq!(store.state(11), Some(State::Failed(Failure::EnclaveTimeout)));
    assert_eq!(store.state(12), Some(State::Failed(Failure::Abandoned)));
    assert!(store.start().is_some());
}
