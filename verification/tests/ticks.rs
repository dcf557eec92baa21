use spacestate_bot::fetch::FetchError;
use spacestate_bot::poller::{tick_decision, TickDecision};
use spacestate_bot::status::Status;
use spacestate_bot::store::StateStore;

fn run_tick(
    store: &mut StateStore,
    fetched: Result<Status, FetchError>,
    send_ok: bool,
) -> TickDecision {
    let d = tick_decision(store.read(), fetched);
    store.commit_tick(&d, send_ok);
    d
}

#[test]
fn fresh_store_is_unknown() {
    let store = StateStore::new();
    assert_eq!(store.read(), Status::Unknown);
}

#[test]
fn fetch_sequence_transitions() {
    let mut store = StateStore::new();

    let d1 = run_tick(&mut store, Ok(Status::Unknown), true);
    assert_eq!(d1, TickDecision::UnknownReading);
    assert_eq!(store.read(), Status::Unknown);

    let d2 = run_tick(&mut store, Ok(Status::Open), true);
    assert_eq!(d2, TickDecision::Confirm(Status::Open));
    assert_eq!(store.read(), Status::Open);

    let d3 = run_tick(&mut store, Ok(Status::Open), true);
    assert_eq!(d3, TickDecision::Confirm(Status::Open));
    assert_eq!(store.read(), Status::Open);

    let d4 = tick_decision(store.read(), Ok(Status::Closed));
    assert_eq!(d4, TickDecision::BroadcastAndConfirm(Status::Closed));
    store.commit_tick(&d4, true);
    assert_eq!(store.read(), Status::Closed);
}

#[test]
fn first_confirmed_reading_never_broadcasts() {
    let mut store = StateStore::new();
    let d = tick_decision(store.read(), Ok(Status::Open));
    assert_eq!(d, TickDecision::Confirm(Status::Open));
    store.commit_tick(&d, true);
    assert_eq!(store.read(), Status::Open);
}

#[test]
fn failed_broadcast_keeps_store_and_retries() {
    let mut store = StateStore::new();
    run_tick(&mut store, Ok(Status::Open), true);

    let d = tick_decision(store.read(), Ok(Status::Closed));
    assert_eq!(d, TickDecision::BroadcastAndConfirm(Status::Closed));
    store.commit_tick(&d, false);
    assert_eq!(store.read(), Status::Open);

    let retry = tick_decision(store.read(), Ok(Status::Closed));
    assert_eq!(retry, TickDecision::BroadcastAndConfirm(Status::Closed));
    store.commit_tick(&retry, true);
    assert_eq!(store.read(), Status::Closed);
}

#[test]
fn store_unknown_until_first_confirmed_fetch() {
    let mut store = StateStore::new();
    run_tick(&mut store, Err(FetchError::Decode), true);
    run_tick(&mut store, Ok(Status::Unknown), true);
    run_tick(
        &mut store,
        Err(FetchError::Transport(String::from("connection refused"))),
        true,
    );
    assert_eq!(store.read(), Status::Unknown);

    run_tick(&mut store, Ok(Status::Closed), true);
    assert_eq!(store.read(), Status::Closed);

    run_tick(&mut store, Ok(Status::Unknown), true);
    run_tick(&mut store, Err(FetchError::Decode), true);
    assert_eq!(store.read(), Status::Closed);
}

#[test]
fn fetch_failure_leaves_store_alone() {
    let mut store = StateStore::new();
    run_tick(&mut store, Ok(Status::Open), true);
    let d = run_tick(
        &mut store,
        Err(FetchError::Transport(String::from("timeout"))),
        true,
    );
    assert_eq!(
        d,
        TickDecision::FetchFailed(FetchError::Transport(String::from("timeout")))
    );
    assert_eq!(store.read(), Status::Open);
}

#[test]
fn unknown_reading_preserves_confirmed_value() {
    let mut store = StateStore::new();
    run_tick(&mut store, Ok(Status::Open), true);
    let d = run_tick(&mut store, Ok(Status::Unknown), true);
    assert_eq!(d, TickDecision::UnknownReading);
    assert_eq!(store.read(), Status::Open);
}
