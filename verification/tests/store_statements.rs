use counter_service::memory::MemoryStore;
use counter_service::store::{Reply, Statement, StoreError};

fn bootstrapped() -> MemoryStore {
    let mut store = MemoryStore::new();
    assert_eq!(store.bootstrap(), Ok(()));
    store
}

#[test]
fn fresh_store_is_online_and_empty() {
    let store = MemoryStore::new();
    assert!(store.is_online());
    assert!(!store.has_schema());
    assert_eq!(store.value(), None);
}

#[test]
fn create_schema_makes_the_table_without_a_record() {
    let mut store = MemoryStore::new();
    assert_eq!(store.run(Statement::CreateSchema), Reply::Empty);
    assert!(store.has_schema());
    assert_eq!(store.value(), None);
    assert_eq!(store.run(Statement::CreateSchema), Reply::Empty);
    assert!(store.has_schema());
    assert_eq!(store.value(), None);
}

#[test]
fn seed_record_starts_the_counter_at_zero() {
    let mut store = MemoryStore::new();
    store.run(Statement::CreateSchema);
    assert_eq!(store.run(Statement::SeedRecord), Reply::Empty);
    assert_eq!(store.value(), Some(0));
}

#[test]
fn seed_record_keeps_an_existing_value() {
    let mut store = bootstrapped();
    assert_eq!(store.run(Statement::ApplyDelta(41)), Reply::Value(41));
    assert_eq!(store.run(Statement::SeedRecord), Reply::Empty);
    assert_eq!(store.value(), Some(41));
}

#[test]
fn statements_need_the_table() {
    for statement in [
        Statement::SeedRecord,
        Statement::Read,
        Statement::ApplyDelta(1),
        Statement::Reset,
    ] {
        let mut store = MemoryStore::new();
        assert_eq!(store.run(statement), Reply::Unavailable);
        assert!(!store.has_schema());
        assert_eq!(store.value(), None);
    }
}

#[test]
fn statements_find_no_record_in_a_vacant_table() {
    for statement in [Statement::Read, Statement::ApplyDelta(1), Statement::Reset] {
        let mut store = MemoryStore::new();
        store.run(Statement::CreateSchema);
        assert_eq!(store.run(statement), Reply::Empty);
        assert!(store.has_schema());
        assert_eq!(store.value(), None);
    }
}

#[test]
fn read_yields_the_value_and_changes_nothing() {
    let mut store = bootstrapped();
    store.run(Statement::ApplyDelta(7));
    assert_eq!(store.run(Statement::Read), Reply::Value(7));
    assert_eq!(store.run(Statement::Read), Reply::Value(7));
    assert_eq!(store.value(), Some(7));
}

#[test]
fn apply_delta_adds_and_yields_the_sum() {
    let mut store = bootstrapped();
    assert_eq!(store.run(Statement::ApplyDelta(5)), Reply::Value(5));
    assert_eq!(store.run(Statement::ApplyDelta(-8)), Reply::Value(-3));
    assert_eq!(store.run(Statement::ApplyDelta(0)), Reply::Value(-3));
    assert_eq!(store.value(), Some(-3));
}

#[test]
fn apply_delta_reaches_both_ends_of_the_range() {
    let mut store = bootstrapped();
    assert_eq!(store.run(Statement::ApplyDelta(i64::MAX)), Reply::Value(i64::MAX));
    assert!(!store.admits(Statement::ApplyDelta(1)));
    assert!(store.admits(Statement::ApplyDelta(-1)));
    assert_eq!(store.run(Statement::Reset), Reply::Value(0));
    assert_eq!(store.run(Statement::ApplyDelta(i64::MIN)), Reply::Value(i64::MIN));
    assert!(!store.admits(Statement::ApplyDelta(-1)));
    assert!(store.admits(Statement::ApplyDelta(1)));
    assert_eq!(store.run(Statement::ApplyDelta(1)), Reply::Value(i64::MIN + 1));
}

#[test]
fn admits_everything_that_stores_no_sum() {
    let mut store = bootstrapped();
    store.run(Statement::ApplyDelta(i64::MAX));
    for statement in [
        Statement::CreateSchema,
        Statement::SeedRecord,
        Statement::Read,
        Statement::Reset,
    ] {
        assert!(store.admits(statement));
    }
    store.set_online(false);
    assert!(store.admits(Statement::ApplyDelta(1)));
    let vacant = MemoryStore::new();
    assert!(vacant.admits(Statement::ApplyDelta(i64::MAX)));
}

#[test]
fn reset_sets_the_value_to_zero() {
    let mut store = bootstrapped();
    store.run(Statement::ApplyDelta(12));
    assert_eq!(store.run(Statement::Reset), Reply::Value(0));
    assert_eq!(store.value(), Some(0));
    assert_eq!(store.run(Statement::Reset), Reply::Value(0));
    assert_eq!(store.value(), Some(0));
}

#[test]
fn apply_delta_that_does_not_fit_does_not_run() {
    let mut store = bootstrapped();
    store.run(Statement::ApplyDelta(i64::MAX - 2));
    assert_eq!(store.run(Statement::ApplyDelta(3)), Reply::Unavailable);
    assert_eq!(store.value(), Some(i64::MAX - 2));
    assert_eq!(store.run(Statement::ApplyDelta(2)), Reply::Value(i64::MAX));
    assert_eq!(store.run(Statement::ApplyDelta(i64::MAX)), Reply::Unavailable);
    assert_eq!(store.value(), Some(i64::MAX));
    store.run(Statement::Reset);
    store.run(Statement::ApplyDelta(-5));
    assert_eq!(store.run(Statement::ApplyDelta(i64::MIN)), Reply::Unavailable);
    assert_eq!(store.value(), Some(-5));
    assert_eq!(store.run(Statement::ApplyDelta(i64::MIN + 5)), Reply::Value(i64::MIN));
}

#[test]
fn offline_store_runs_nothing() {
    for statement in [
        Statement::CreateSchema,
        Statement::SeedRecord,
        Statement::Read,
        Statement::ApplyDelta(3),
        Statement::Reset,
    ] {
        let mut store = bootstrapped();
        store.run(Statement::ApplyDelta(9));
        store.set_online(false);
        assert!(!store.is_online());
        assert_eq!(store.run(statement), Reply::Unavailable);
        assert_eq!(store.value(), Some(9));
        store.set_online(true);
        assert_eq!(store.run(Statement::Read), Reply::Value(9));
    }
}

#[test]
fn bootstrap_creates_exactly_one_record() {
    let mut store = MemoryStore::new();
    assert_eq!(store.bootstrap(), Ok(()));
    assert!(store.has_schema());
    assert_eq!(store.value(), Some(0));
}

#[test]
fn bootstrap_is_idempotent() {
    let mut store = MemoryStore::new();
    assert_eq!(store.bootstrap(), Ok(()));
    store.run(Statement::ApplyDelta(17));
    for _ in 0..5 {
        assert_eq!(store.bootstrap(), Ok(()));
        assert!(store.has_schema());
        assert_eq!(store.value(), Some(17));
    }
}

#[test]
fn bootstrap_completes_a_half_made_store() {
    let mut store = MemoryStore::new();
    store.run(Statement::CreateSchema);
    assert_eq!(store.bootstrap(), Ok(()));
    assert_eq!(store.value(), Some(0));
}

#[test]
fn bootstrap_fails_when_storage_is_unreachable() {
    let mut store = MemoryStore::new();
    store.set_online(false);
    assert_eq!(store.bootstrap(), Err(StoreError::StoreUnavailable));
    assert!(!store.has_schema());
    assert_eq!(store.value(), None);
}

#[test]
fn reply_ran_unless_unavailable() {
    assert!(Reply::Value(3).ran());
    assert!(Reply::Empty.ran());
    assert!(!Reply::Unavailable.ran());
}

#[test]
fn statement_texts() {
    assert_eq!(
        Statement::CreateSchema.sql(),
        "CREATE TABLE IF NOT EXISTS counter (id INTEGER PRIMARY KEY, value INTEGER NOT NULL DEFAULT 0)"
    );
    assert_eq!(
        Statement::SeedRecord.sql(),
        "INSERT OR IGNORE INTO counter (id, value) VALUES (1, 0)"
    );
    assert_eq!(Statement::Read.sql(), "SELECT value FROM counter WHERE id = 1");
    assert_eq!(
        Statement::ApplyDelta(4).sql(),
        "UPDATE counter SET value = CASE WHEN typeof(value + ?1) = 'integer' THEN value + ?1 END WHERE id = 1 RETURNING value"
    );
    assert_eq!(
        Statement::Reset.sql(),
        "UPDATE counter SET value = 0 WHERE id = 1 RETURNING value"
    );
}

#[test]
fn statement_parameters_and_yields() {
    assert_eq!(Statement::ApplyDelta(-6).parameter(), Some(-6));
    assert!(Statement::ApplyDelta(-6).yields_value());
    assert!(Statement::Read.yields_value());
    assert_eq!(Statement::Read.parameter(), None);
    assert!(Statement::Reset.yields_value());
    assert_eq!(Statement::Reset.parameter(), None);
    for statement in [Statement::CreateSchema, Statement::SeedRecord] {
        assert_eq!(statement.parameter(), None);
        assert!(!statement.yields_value());
    }
}
