//! The counter service: the four operations on the counter, each of them one
//! atomic statement against storage and one reading of the reply.
//!
//! The service keeps no copy of the value. Because an operation is a single
//! statement, operations that run at the same time take effect one after
//! another in some order, and none of them is lost.

use vstd::prelude::*;
use crate::counter::Counter;
use crate::memory::MemoryStore;
use crate::store::{Answer, Reply, Statement, StoreError, StoreModel, Table};

verus! {

/// An operation on the counter.
#[derive(Clone, Copy, Debug, PartialEq, Eq, Structural)]
pub enum Operation {
    Get,
    Increment,
    Decrement,
    Reset,
}

/// What an increment adds to the counter.
pub const INCREMENT: i64 = 1;

/// What a decrement adds to the counter.
pub const DECREMENT: i64 = -1;

/// The value or the failure that a result carries, as mathematics.
pub open spec fn reported(result: Result<Counter, StoreError>) -> Result<int, StoreError> {
    match result {
        Ok(counter) => Ok(counter.value as int),
        Err(error) => Err(error),
    }
}

impl Operation {
    /// The statement that carries out the operation.
    pub open spec fn spec_statement(self) -> Statement {
        match self {
            Operation::Get => Statement::Read,
            Operation::Increment => Statement::ApplyDelta(INCREMENT),
            Operation::Decrement => Statement::ApplyDelta(DECREMENT),
            Operation::Reset => Statement::Reset,
        }
    }

    /// What a reply to the operation's statement means: the value the
    /// operation returns, or the failure it reports.
    ///
    /// It is the same for every operation. The value that the statement
    /// yielded is the value of the counter once the operation is done. A
    /// statement that ran and yielded no row found no record. A statement
    /// that could not run is storage being unavailable.
    pub open spec fn spec_outcome(self, answer: Answer) -> Result<int, StoreError> {
        match answer {
            Answer::Value(v) => Ok(v),
            Answer::Empty => Err(StoreError::RecordMissing),
            Answer::Unavailable => Err(StoreError::StoreUnavailable),
        }
    }

    /// The statement that carries out the operation.
    #[verifier::when_used_as_spec(spec_statement)]
    pub fn statement(self) -> (stmt: Statement)
        ensures
            stmt == self.spec_statement(),
    {
        match self {
            Operation::Get => Statement::Read,
            Operation::Increment => Statement::ApplyDelta(INCREMENT),
            Operation::Decrement => Statement::ApplyDelta(DECREMENT),
            Operation::Reset => Statement::Reset,
        }
    }

    /// Reads the reply that storage gave to the operation's statement.
    pub fn outcome(self, reply: Reply) -> (result: Result<Counter, StoreError>)
        ensures
            reported(result) == self.spec_outcome(reply@),
    {
        match reply {
            Reply::Value(value) => Ok(Counter { value }),
            Reply::Empty => Err(StoreError::RecordMissing),
            Reply::Unavailable => Err(StoreError::StoreUnavailable),
        }
    }
}

impl StoreModel {
    /// What the operation returns when it is carried out on this storage.
    pub open spec fn result_of(self, op: Operation) -> Result<int, StoreError> {
        op.spec_outcome(self.answer(op.spec_statement()))
    }
}

/// What every operation does on every storage.
///
/// Where storage is reachable and holds the record, a get returns the value
/// and a reset returns 0. An increment returns the value plus one and a
/// decrement the value minus one, unless that number does not fit the
/// record: then the operation reports storage unavailable. Where the table
/// has no record, every operation reports the record missing. Where storage
/// is unreachable or has no table, every operation reports it unavailable.
///
/// An operation that succeeds leaves the record holding the value it
/// returned. An operation that fails changes nothing.
pub proof fn lemma_service_contract(store: StoreModel, op: Operation)
    ensures
        match store.table {
            Table::Holding(v) if store.online => {
                let next = match op {
                    Operation::Get => v,
                    Operation::Increment => v + 1,
                    Operation::Decrement => v - 1,
                    Operation::Reset => 0,
                };
                if op is Get || op is Reset || i64::MIN <= next <= i64::MAX {
                    store.result_of(op) == Ok::<int, StoreError>(next)
                } else {
                    store.result_of(op) == Err::<int, StoreError>(StoreError::StoreUnavailable)
                }
            },
            Table::Vacant if store.online => store.result_of(op) == Err::<int, StoreError>(
                StoreError::RecordMissing,
            ),
            _ => store.result_of(op) == Err::<int, StoreError>(StoreError::StoreUnavailable),
        },
        store.result_of(op) matches Ok(value) ==> store.after(op.spec_statement())
            == (StoreModel { online: true, table: Table::Holding(value) }),
        store.result_of(op) is Err ==> store.after(op.spec_statement()) == store,
{
}

/// Carries out one operation on the in-memory store: sends the operation's
/// statement and reads the reply.
pub fn perform(store: &mut MemoryStore, op: Operation) -> (result: Result<Counter, StoreError>)
    ensures
        final(store)@ == old(store)@.after(op.spec_statement()),
        reported(result) == old(store)@.result_of(op),
{
    let reply = store.run(op.statement());
    op.outcome(reply)
}

} // verus!
