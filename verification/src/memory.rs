//! An in-memory store that answers every statement exactly as the model says.

use vstd::prelude::*;
use crate::store::{lemma_bootstrap_statements, Reply, Statement, StoreError, StoreModel, Table};

verus! {

enum Contents {
    Absent,
    Vacant,
    Holding(i64),
}

/// A store kept in memory. It can be switched off to stand for storage that
/// cannot be reached.
pub struct MemoryStore {
    online: bool,
    contents: Contents,
}

impl View for MemoryStore {
    type V = StoreModel;

    closed spec fn view(&self) -> StoreModel {
        StoreModel {
            online: self.online,
            table: match self.contents {
                Contents::Absent => Table::Absent,
                Contents::Vacant => Table::Vacant,
                Contents::Holding(v) => Table::Holding(v as int),
            },
        }
    }
}

impl MemoryStore {
    /// A reachable store in which nothing has been created yet.
    pub fn new() -> (store: MemoryStore)
        ensures
            store@ == StoreModel::fresh(),
    {
        MemoryStore { online: true, contents: Contents::Absent }
    }

    /// Makes the store reachable or unreachable; what it holds stays.
    pub fn set_online(&mut self, online: bool)
        ensures
            final(self)@ == (StoreModel { online, table: old(self)@.table }),
    {
        self.online = online;
    }

    /// Whether the store can be reached.
    pub fn is_online(&self) -> (b: bool)
        ensures
            b == self@.online,
    {
        self.online
    }

    /// Whether the table has been created.
    pub fn has_schema(&self) -> (b: bool)
        ensures
            b == !(self@.table is Absent),
    {
        match self.contents {
            Contents::Absent => false,
            _ => true,
        }
    }

    /// The record's value, if the record exists.
    pub fn value(&self) -> (v: Option<i64>)
        ensures
            match v {
                Some(x) => self@.table == Table::Holding(x as int),
                None => !self@.has_record(),
            },
    {
        match self.contents {
            Contents::Holding(x) => Some(x),
            _ => None,
        }
    }

    /// The record of a store in memory is a 64-bit integer.
    pub proof fn lemma_valid(&self)
        ensures
            self@.valid(),
    {
    }

    /// Whether the sum that the statement would store fits the record.
    pub fn admits(&self, stmt: Statement) -> (b: bool)
        ensures
            b == self@.admits(stmt),
    {
        match (stmt, &self.contents) {
            (Statement::ApplyDelta(d), Contents::Holding(v)) => {
                !self.online || v.checked_add(d).is_some()
            },
            _ => true,
        }
    }

    /// Bootstraps the store: creates the table unless it exists, then seeds
    /// the record unless it exists. Fails, leaving the store as it was, exactly
    /// if the store cannot be reached.
    pub fn bootstrap(&mut self) -> (result: Result<(), StoreError>)
        ensures
            final(self)@ == old(self)@.bootstrapped(),
            result == if old(self)@.online {
                Ok::<(), StoreError>(())
            } else {
                Err::<(), StoreError>(StoreError::StoreUnavailable)
            },
    {
        proof {
            lemma_bootstrap_statements(self@);
        }
        if !self.run(Statement::CreateSchema).ran() {
            return Err(StoreError::StoreUnavailable);
        }
        if !self.run(Statement::SeedRecord).ran() {
            return Err(StoreError::StoreUnavailable);
        }
        Ok(())
    }

    /// Runs one statement. The store changes and replies as the model says;
    /// a statement that cannot run leaves the store as it was.
    pub fn run(&mut self, stmt: Statement) -> (reply: Reply)
        ensures
            final(self)@ == old(self)@.after(stmt),
            reply@ == old(self)@.answer(stmt),
    {
        if !self.online {
            return Reply::Unavailable;
        }
        match stmt {
            Statement::CreateSchema => {
                if let Contents::Absent = self.contents {
                    self.contents = Contents::Vacant;
                }
                Reply::Empty
            },
            Statement::SeedRecord => {
                match self.contents {
                    Contents::Absent => Reply::Unavailable,
                    Contents::Vacant => {
                        self.contents = Contents::Holding(0);
                        Reply::Empty
                    },
                    Contents::Holding(_) => Reply::Empty,
                }
            },
            Statement::Read => {
                match self.contents {
                    Contents::Absent => Reply::Unavailable,
                    Contents::Vacant => Reply::Empty,
                    Contents::Holding(v) => Reply::Value(v),
                }
            },
            Statement::ApplyDelta(d) => {
                match self.contents {
                    Contents::Absent => Reply::Unavailable,
                    Contents::Vacant => Reply::Empty,
                    Contents::Holding(v) => match v.checked_add(d) {
                        Some(sum) => {
                            self.contents = Contents::Holding(sum);
                            Reply::Value(sum)
                        },
                        None => Reply::Unavailable,
                    },
                }
            },
            Statement::Reset => {
                match self.contents {
                    Contents::Absent => Reply::Unavailable,
                    Contents::Vacant => Reply::Empty,
                    Contents::Holding(_) => {
                        self.contents = Contents::Holding(0);
                        Reply::Value(0)
                    },
                }
            },
        }
    }
}

} // verus!
