//! The storage contract: the statements the service sends to storage, the
//! replies it understands, and a model of what each statement does to the
//! durable table.
//!
//! The table has at most one record, the counter. Every statement is atomic:
//! it either runs completely against the table or leaves it untouched.
//!
//! A table that was never created can be neither read nor written, so on
//! such storage only the statement that creates the table runs. In a table
//! without its record, a read, an update and a reset run and find nothing.
//! The record is a 64-bit integer: an update whose sum does not fit it does
//! not run.

use vstd::prelude::*;

verus! {

/// Why a store operation failed.
#[derive(Clone, Copy, Debug, PartialEq, Eq, Structural)]
pub enum StoreError {
    /// Storage could not be opened, read or written.
    StoreUnavailable,
    /// Storage answered, but the singleton record was not in it.
    RecordMissing,
}

/// One atomic statement against the counter table.
#[derive(Clone, Copy, Debug, PartialEq, Eq, Structural)]
pub enum Statement {
    /// Create the table unless it exists.
    CreateSchema,
    /// Insert the record with value 0 unless the record exists.
    SeedRecord,
    /// Yield the record's value.
    Read,
    /// Add the delta to the record's value and yield the sum.
    ApplyDelta(i64),
    /// Set the record's value to 0 and yield it.
    Reset,
}

impl Statement {
    /// The text of the statement for a store that speaks SQL. The table is
    /// `counter`, the record is the row with `id = 1`, and the delta of an
    /// update is the statement's one parameter. A sum that is no 64-bit
    /// integer becomes `NULL` in the update, which the column refuses, so
    /// that the update fails as a whole.
    pub open spec fn spec_sql(self) -> Seq<char> {
        match self {
            Statement::CreateSchema =>
                "CREATE TABLE IF NOT EXISTS counter (id INTEGER PRIMARY KEY, value INTEGER NOT NULL DEFAULT 0)"@,
            Statement::SeedRecord => "INSERT OR IGNORE INTO counter (id, value) VALUES (1, 0)"@,
            Statement::Read => "SELECT value FROM counter WHERE id = 1"@,
            Statement::ApplyDelta(_) =>
                "UPDATE counter SET value = CASE WHEN typeof(value + ?1) = 'integer' THEN value + ?1 END WHERE id = 1 RETURNING value"@,
            Statement::Reset => "UPDATE counter SET value = 0 WHERE id = 1 RETURNING value"@,
        }
    }

    /// The value to bind to the statement's parameter, if it has one.
    pub open spec fn spec_parameter(self) -> Option<i64> {
        match self {
            Statement::ApplyDelta(delta) => Some(delta),
            _ => None,
        }
    }

    /// Whether the statement yields the record's value when it finds the
    /// record. The statements of the bootstrap are run for their effect
    /// alone.
    pub open spec fn spec_yields_value(self) -> bool {
        self is Read || self is ApplyDelta || self is Reset
    }

    /// The text of the statement for a store that speaks SQL.
    pub fn sql(self) -> (text: &'static str)
        ensures
            text@ == self.spec_sql(),
    {
        match self {
            Statement::CreateSchema =>
                "CREATE TABLE IF NOT EXISTS counter (id INTEGER PRIMARY KEY, value INTEGER NOT NULL DEFAULT 0)",
            Statement::SeedRecord => "INSERT OR IGNORE INTO counter (id, value) VALUES (1, 0)",
            Statement::Read => "SELECT value FROM counter WHERE id = 1",
            Statement::ApplyDelta(_) =>
                "UPDATE counter SET value = CASE WHEN typeof(value + ?1) = 'integer' THEN value + ?1 END WHERE id = 1 RETURNING value",
            Statement::Reset => "UPDATE counter SET value = 0 WHERE id = 1 RETURNING value",
        }
    }

    /// The value to bind to the statement's parameter, if it has one.
    #[verifier::when_used_as_spec(spec_parameter)]
    pub fn parameter(self) -> (parameter: Option<i64>)
        ensures
            parameter == self.spec_parameter(),
    {
        match self {
            Statement::ApplyDelta(delta) => Some(delta),
            _ => None,
        }
    }

    /// Whether the statement yields the record's value when it finds the
    /// record.
    #[verifier::when_used_as_spec(spec_yields_value)]
    pub fn yields_value(self) -> (yields: bool)
        ensures
            yields == self.spec_yields_value(),
    {
        match self {
            Statement::Read | Statement::ApplyDelta(_) | Statement::Reset => true,
            Statement::CreateSchema | Statement::SeedRecord => false,
        }
    }
}

/// What storage said to one statement.
#[derive(Clone, Copy, Debug, PartialEq, Eq, Structural)]
pub enum Reply {
    /// The statement ran and yielded the record's value.
    Value(i64),
    /// The statement ran and yielded no row.
    Empty,
    /// The statement could not run.
    Unavailable,
}

/// The mathematical content of a [`Reply`].
pub enum Answer {
    Value(int),
    Empty,
    Unavailable,
}

impl View for Reply {
    type V = Answer;

    open spec fn view(&self) -> Answer {
        match *self {
            Reply::Value(v) => Answer::Value(v as int),
            Reply::Empty => Answer::Empty,
            Reply::Unavailable => Answer::Unavailable,
        }
    }
}

impl Reply {
    /// Whether the statement ran, whatever it yielded.
    pub fn ran(self) -> (b: bool)
        ensures
            b == !(self@ is Unavailable),
    {
        match self {
            Reply::Unavailable => false,
            _ => true,
        }
    }
}

/// What the durable table holds.
pub enum Table {
    /// The table has not been created.
    Absent,
    /// The table exists and has no record.
    Vacant,
    /// The table exists and its one record has this value.
    Holding(int),
}

/// Storage as the service can observe it. The model counts in unbounded
/// integers; that a record is a 64-bit integer shows in which updates run.
pub struct StoreModel {
    /// Whether storage can be reached at all.
    pub online: bool,
    pub table: Table,
}

impl StoreModel {
    /// Reachable storage in which nothing has been created yet.
    pub open spec fn fresh() -> StoreModel {
        StoreModel { online: true, table: Table::Absent }
    }

    /// Whether the sum that the statement would store fits the record's
    /// 64-bit field. A statement that stores no sum is always admitted, and
    /// so is every statement while storage cannot be reached.
    pub open spec fn admits(self, stmt: Statement) -> bool {
        match (stmt, self.table) {
            (Statement::ApplyDelta(d), Table::Holding(v)) => self.online ==> i64::MIN <= v + d
                <= i64::MAX,
            _ => true,
        }
    }

    /// Whether the statement can run: storage is reachable, the table exists
    /// unless the statement is the one that creates it, and the sum that the
    /// statement would store fits the record.
    pub open spec fn runs(self, stmt: Statement) -> bool {
        &&& self.online
        &&& stmt is CreateSchema || !(self.table is Absent)
        &&& self.admits(stmt)
    }

    /// Whether the record, if there is one, is a 64-bit integer. Every
    /// store that exists is valid in this sense.
    pub open spec fn valid(self) -> bool {
        self.table matches Table::Holding(v) ==> i64::MIN <= v <= i64::MAX
    }

    /// The table once the statement has run.
    pub open spec fn applied(table: Table, stmt: Statement) -> Table {
        match (stmt, table) {
            (Statement::CreateSchema, Table::Absent) => Table::Vacant,
            (Statement::SeedRecord, Table::Vacant) => Table::Holding(0),
            (Statement::ApplyDelta(d), Table::Holding(v)) => Table::Holding(v + d),
            (Statement::Reset, Table::Holding(_)) => Table::Holding(0),
            (_, unchanged) => unchanged,
        }
    }

    /// Storage after the statement was sent: changed as the statement says
    /// if it ran, untouched if it did not.
    pub open spec fn after(self, stmt: Statement) -> StoreModel {
        if self.runs(stmt) {
            StoreModel { online: self.online, table: Self::applied(self.table, stmt) }
        } else {
            self
        }
    }

    /// What storage says to the statement.
    pub open spec fn answer(self, stmt: Statement) -> Answer {
        if !self.runs(stmt) {
            Answer::Unavailable
        } else {
            match (stmt, self.table) {
                (Statement::Read, Table::Holding(v)) => Answer::Value(v),
                (Statement::ApplyDelta(d), Table::Holding(v)) => Answer::Value(v + d),
                (Statement::Reset, Table::Holding(_)) => Answer::Value(0),
                _ => Answer::Empty,
            }
        }
    }

    /// Whether the bootstrap invariant holds: exactly one record exists.
    pub open spec fn has_record(self) -> bool {
        self.table is Holding
    }

    /// Storage after a bootstrap. Reachable storage ends with the table and
    /// its one record: a record that was there keeps its value, a record
    /// that was not there starts at 0. Unreachable storage stays as it was.
    pub open spec fn bootstrapped(self) -> StoreModel {
        if self.online {
            StoreModel {
                online: true,
                table: match self.table {
                    Table::Holding(v) => Table::Holding(v),
                    _ => Table::Holding(0),
                },
            }
        } else {
            self
        }
    }

    /// Storage after this many bootstraps in a row.
    pub open spec fn bootstrapped_times(self, times: nat) -> StoreModel
        decreases times,
    {
        if times == 0 {
            self
        } else {
            self.bootstrapped_times((times - 1) as nat).bootstrapped()
        }
    }
}

/// A value comes back exactly where a driver has to look for one: a
/// statement is answered with a value exactly if it ran, found the record
/// and is one that yields the record's value. The value is the one that the
/// record holds once the statement has run.
pub proof fn lemma_value_only_when_yielded(store: StoreModel, stmt: Statement)
    ensures
        store.answer(stmt) is Value <==> stmt.spec_yields_value() && store.has_record()
            && store.runs(stmt),
        store.answer(stmt) matches Answer::Value(v) ==> store.after(stmt).table
            == Table::Holding(v),
{
}

/// A statement fully applies or fully fails: one that could not run has
/// changed nothing, and so has one that found no record to work on.
pub proof fn lemma_failure_changes_nothing(store: StoreModel, stmt: Statement)
    ensures
        store.answer(stmt) is Unavailable ==> store.after(stmt) == store,
        store.answer(stmt) is Empty && stmt.spec_yields_value() ==> store.after(stmt) == store,
{
}

/// No statement makes a valid store invalid.
pub proof fn lemma_valid_stays(store: StoreModel, stmt: Statement)
    requires
        store.valid(),
    ensures
        store.after(stmt).valid(),
{
}

/// A bootstrap is the two statements that create the table and seed the
/// record, one after the other.
pub proof fn lemma_bootstrap_statements(store: StoreModel)
    ensures
        store.after(Statement::CreateSchema).after(Statement::SeedRecord) == store.bootstrapped(),
        store.answer(Statement::CreateSchema) is Unavailable <==> !store.online,
        store.after(Statement::CreateSchema).answer(Statement::SeedRecord) is Unavailable
            <==> !store.online,
{
}

/// Bootstrapping is idempotent. However often it is repeated, storage is as
/// the first bootstrap left it; if storage is reachable it then holds exactly
/// one record; and a record that existed before keeps its value.
pub proof fn lemma_bootstrap_is_idempotent(store: StoreModel, times: nat)
    requires
        times >= 1,
    ensures
        store.bootstrapped_times(times) == store.bootstrapped(),
        store.online ==> store.bootstrapped_times(times).has_record(),
        store.has_record() ==> store.bootstrapped_times(times) == store,
    decreases times,
{
    if times > 1 {
        lemma_bootstrap_is_idempotent(store, (times - 1) as nat);
    } else {
        assert(store.bootstrapped_times(0) == store);
    }
}

} // verus!
