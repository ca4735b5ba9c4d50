use counter_service::counter::Counter;
use counter_service::endpoint::{
    handle, health_check, respond, routes, Method, Response, Route, Status,
};
use counter_service::memory::MemoryStore;
use counter_service::service::Operation;
use counter_service::store::{Statement, StoreError};

fn ok(value: i64) -> Response {
    Response { status: Status::Success, body: Some(Counter { value }) }
}

fn fault() -> Response {
    Response { status: Status::ServerFault, body: None }
}

#[test]
fn status_codes() {
    assert_eq!(Status::Success.code(), 200);
    assert_eq!(Status::ServerFault.code(), 500);
}

#[test]
fn route_table() {
    let table: Vec<(Method, &str)> =
        routes().into_iter().map(|route| (route.method(), route.path())).collect();
    assert_eq!(
        table,
        vec![
            (Method::Get, "/api/counter"),
            (Method::Post, "/api/counter/increment"),
            (Method::Post, "/api/counter/decrement"),
            (Method::Post, "/api/counter/reset"),
            (Method::Get, "/api/health"),
        ]
    );
}

#[test]
fn routes_in_registration_order() {
    assert_eq!(
        routes(),
        vec![
            Route::Counter(Operation::Get),
            Route::Counter(Operation::Increment),
            Route::Counter(Operation::Decrement),
            Route::Counter(Operation::Reset),
            Route::Health,
        ]
    );
}

#[test]
fn routes_are_pairwise_distinct() {
    let all = routes();
    for (i, first) in all.iter().enumerate() {
        for second in all.iter().skip(i + 1) {
            assert!(first.method() != second.method() || first.path() != second.path());
        }
    }
}

#[test]
fn respond_shows_the_counter_on_success() {
    assert_eq!(respond(Ok(Counter { value: 42 })), ok(42));
    assert_eq!(respond(Ok(Counter { value: -1 })), ok(-1));
}

#[test]
fn respond_hides_the_kind_of_failure() {
    assert_eq!(respond(Err(StoreError::StoreUnavailable)), fault());
    assert_eq!(respond(Err(StoreError::RecordMissing)), fault());
    assert_eq!(
        respond(Err(StoreError::StoreUnavailable)),
        respond(Err(StoreError::RecordMissing))
    );
}

#[test]
fn health_check_succeeds_without_a_body() {
    assert_eq!(health_check(), Response { status: Status::Success, body: None });
    assert_eq!(health_check().status.code(), 200);
}

#[test]
fn health_does_not_depend_on_the_store() {
    let mut fresh = MemoryStore::new();
    assert_eq!(handle(&mut fresh, Route::Health), health_check());
    assert!(!fresh.has_schema());

    let mut offline = MemoryStore::new();
    offline.bootstrap().unwrap();
    offline.run(Statement::ApplyDelta(3));
    offline.set_online(false);
    assert_eq!(handle(&mut offline, Route::Health), health_check());
    assert!(!offline.is_online());
    assert_eq!(offline.value(), Some(3));
    assert_eq!(handle(&mut offline, Route::Counter(Operation::Get)), fault());
    assert_eq!(handle(&mut offline, Route::Health), health_check());
}

#[test]
fn fresh_store_scenario() {
    let mut store = MemoryStore::new();
    store.bootstrap().unwrap();
    assert_eq!(handle(&mut store, Route::Counter(Operation::Get)), ok(0));
    assert_eq!(handle(&mut store, Route::Counter(Operation::Increment)), ok(1));
    assert_eq!(handle(&mut store, Route::Counter(Operation::Increment)), ok(2));
    assert_eq!(handle(&mut store, Route::Counter(Operation::Decrement)), ok(1));
    assert_eq!(handle(&mut store, Route::Counter(Operation::Reset)), ok(0));
    assert_eq!(handle(&mut store, Route::Counter(Operation::Get)), ok(0));
}

#[test]
fn counter_can_go_below_zero() {
    let mut store = MemoryStore::new();
    store.bootstrap().unwrap();
    assert_eq!(handle(&mut store, Route::Counter(Operation::Decrement)), ok(-1));
    assert_eq!(handle(&mut store, Route::Counter(Operation::Decrement)), ok(-2));
}

#[test]
fn every_failure_is_the_same_server_fault() {
    for op in [Operation::Get, Operation::Increment, Operation::Decrement, Operation::Reset] {
        let mut unbootstrapped = MemoryStore::new();
        assert_eq!(handle(&mut unbootstrapped, Route::Counter(op)), fault());
        let mut offline = MemoryStore::new();
        offline.bootstrap().unwrap();
        offline.set_online(false);
        assert_eq!(handle(&mut offline, Route::Counter(op)), fault());
    }
    assert_eq!(fault().status.code(), 500);
}

#[test]
fn every_counter_route_faults_without_the_record() {
    for op in [Operation::Get, Operation::Increment, Operation::Decrement, Operation::Reset] {
        let mut vacant = MemoryStore::new();
        vacant.run(Statement::CreateSchema);
        assert_eq!(handle(&mut vacant, Route::Counter(op)), fault());
        assert_eq!(vacant.value(), None);
    }
}

#[test]
fn a_step_past_the_end_of_the_range_is_a_server_fault() {
    let mut store = MemoryStore::new();
    store.bootstrap().unwrap();
    store.run(Statement::ApplyDelta(i64::MAX));
    assert_eq!(handle(&mut store, Route::Counter(Operation::Increment)), fault());
    assert_eq!(handle(&mut store, Route::Counter(Operation::Get)), ok(i64::MAX));
    assert_eq!(handle(&mut store, Route::Counter(Operation::Reset)), ok(0));
    store.run(Statement::ApplyDelta(i64::MIN));
    assert_eq!(handle(&mut store, Route::Counter(Operation::Decrement)), fault());
    assert_eq!(handle(&mut store, Route::Counter(Operation::Get)), ok(i64::MIN));
}
