use counter_service::memory::MemoryStore;
use counter_service::schedule::run_all;
use counter_service::service::Operation;
use counter_service::store::{Reply, Statement};

fn store_with(value: i64) -> MemoryStore {
    let mut store = MemoryStore::new();
    store.bootstrap().unwrap();
    store.run(Statement::ApplyDelta(value));
    store
}

#[test]
fn run_all_of_nothing() {
    let mut store = store_with(6);
    assert_eq!(run_all(&mut store, &Vec::new()), Vec::new());
    assert_eq!(store.value(), Some(6));
}

#[test]
fn run_all_replies_in_order() {
    let mut store = MemoryStore::new();
    let replies = run_all(
        &mut store,
        &vec![
            Statement::Read,
            Statement::CreateSchema,
            Statement::Read,
            Statement::SeedRecord,
            Statement::Read,
            Statement::ApplyDelta(4),
            Statement::ApplyDelta(-1),
            Statement::Read,
            Statement::Reset,
            Statement::Read,
        ],
    );
    assert_eq!(
        replies,
        vec![
            Reply::Unavailable,
            Reply::Empty,
            Reply::Empty,
            Reply::Empty,
            Reply::Value(0),
            Reply::Value(4),
            Reply::Value(3),
            Reply::Value(3),
            Reply::Value(0),
            Reply::Value(0),
        ]
    );
    assert_eq!(store.value(), Some(0));
}

#[test]
fn run_all_goes_on_after_a_sum_that_does_not_fit() {
    let mut store = store_with(i64::MAX - 1);
    let replies = run_all(
        &mut store,
        &vec![
            Statement::ApplyDelta(1),
            Statement::ApplyDelta(1),
            Statement::Read,
            Statement::ApplyDelta(-2),
        ],
    );
    assert_eq!(
        replies,
        vec![
            Reply::Value(i64::MAX),
            Reply::Unavailable,
            Reply::Value(i64::MAX),
            Reply::Value(i64::MAX - 2),
        ]
    );
    assert_eq!(store.value(), Some(i64::MAX - 2));
}

#[test]
fn hundred_increments_in_one_run() {
    let mut store = store_with(0);
    let statements = vec![Operation::Increment.statement(); 100];
    let replies = run_all(&mut store, &statements);
    let expected: Vec<Reply> = (1..=100).map(Reply::Value).collect();
    assert_eq!(replies, expected);
    assert_eq!(store.run(Statement::Read), Reply::Value(100));
}

#[test]
fn every_order_of_the_same_updates_ends_the_same() {
    let orders: [[i64; 4]; 6] = [
        [1, 1, -1, 10],
        [10, -1, 1, 1],
        [-1, 10, 1, 1],
        [1, -1, 1, 10],
        [1, 10, -1, 1],
        [-1, 1, 10, 1],
    ];
    for order in orders {
        let mut store = store_with(5);
        let statements: Vec<Statement> = order.iter().map(|d| Statement::ApplyDelta(*d)).collect();
        let replies = run_all(&mut store, &statements);
        assert_eq!(replies.len(), 4);
        assert_eq!(replies[3], Reply::Value(16));
        assert_eq!(store.value(), Some(16));
    }
}

#[test]
fn updates_leave_a_store_without_record_alone() {
    let mut vacant = MemoryStore::new();
    vacant.run(Statement::CreateSchema);
    let replies = run_all(&mut vacant, &vec![Statement::ApplyDelta(2), Statement::ApplyDelta(3)]);
    assert_eq!(replies, vec![Reply::Empty, Reply::Empty]);
    assert_eq!(vacant.value(), None);

    let mut offline = store_with(1);
    offline.set_online(false);
    let replies = run_all(&mut offline, &vec![Statement::ApplyDelta(2), Statement::ApplyDelta(3)]);
    assert_eq!(replies, vec![Reply::Unavailable, Reply::Unavailable]);
    assert_eq!(offline.value(), Some(1));
}
