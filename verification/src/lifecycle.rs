//! The life of a process: the order in which it prepares storage, opens and
//! bootstraps the store, binds its listener and begins to serve.
//!
//! Each stage has one action that the process must carry out, and the
//! outcome of that action decides the next stage. A process reaches its
//! listener only through a store that was opened and bootstrapped; any
//! failure on the way ends it.

use vstd::prelude::*;
use crate::memory::MemoryStore;
use crate::store::{lemma_bootstrap_statements, Statement};

verus! {

/// The four phases of a process.
#[derive(Clone, Copy, Debug, PartialEq, Eq, Structural)]
pub enum Phase {
    Starting,
    Bootstrapping,
    Serving,
    Terminated,
}

/// Where a process stands.
#[derive(Clone, Copy, Debug, PartialEq, Eq, Structural)]
pub enum Stage {
    /// Nothing has been done yet.
    Starting,
    /// The store is being opened.
    Opening,
    /// The table is being created.
    CreatingSchema,
    /// The record is being seeded.
    SeedingRecord,
    /// The store is bootstrapped; the listener is being bound.
    Binding,
    /// The listener is bound and requests are served.
    Serving,
    /// The process has given up.
    Terminated,
}

/// What a process has to do in a stage.
#[derive(Clone, Copy, Debug, PartialEq, Eq, Structural)]
pub enum Action {
    /// Create the directory of the storage location if it is absent.
    EnsureStorageLocation,
    /// Open the store.
    OpenStore,
    /// Run a statement on the store.
    Run(Statement),
    /// Bind the network listener.
    Listen,
    /// Serve requests on the listener.
    Serve,
    /// Stop, reporting the failure.
    Exit,
}

impl Stage {
    pub open spec fn spec_phase(self) -> Phase {
        match self {
            Stage::Starting => Phase::Starting,
            Stage::Serving => Phase::Serving,
            Stage::Terminated => Phase::Terminated,
            _ => Phase::Bootstrapping,
        }
    }

    pub open spec fn spec_action(self) -> Action {
        match self {
            Stage::Starting => Action::EnsureStorageLocation,
            Stage::Opening => Action::OpenStore,
            Stage::CreatingSchema => Action::Run(Statement::CreateSchema),
            Stage::SeedingRecord => Action::Run(Statement::SeedRecord),
            Stage::Binding => Action::Listen,
            Stage::Serving => Action::Serve,
            Stage::Terminated => Action::Exit,
        }
    }

    /// The stage that follows when the action of this stage succeeded or
    /// failed.
    ///
    /// Whether the storage location could be ensured decides nothing: a
    /// location that cannot be used shows when the store is opened. While
    /// bootstrapping, success leads one step on and failure ends the process.
    /// A serving process stays serving and a terminated one stays terminated.
    pub open spec fn spec_advance(self, succeeded: bool) -> Stage {
        match self {
            Stage::Starting => Stage::Opening,
            Stage::Serving => Stage::Serving,
            Stage::Terminated => Stage::Terminated,
            _ => if !succeeded {
                Stage::Terminated
            } else {
                match self {
                    Stage::Opening => Stage::CreatingSchema,
                    Stage::CreatingSchema => Stage::SeedingRecord,
                    Stage::SeedingRecord => Stage::Binding,
                    _ => Stage::Serving,
                }
            },
        }
    }

    /// The stage reached from this one when the actions taken in turn had
    /// these outcomes.
    pub open spec fn after(self, outcomes: Seq<bool>) -> Stage
        decreases outcomes.len(),
    {
        if outcomes.len() == 0 {
            self
        } else {
            self.after(outcomes.drop_last()).spec_advance(outcomes.last())
        }
    }

    /// The stage in which every process begins.
    pub fn new() -> (stage: Stage)
        ensures
            stage == Stage::Starting,
    {
        Stage::Starting
    }

    /// The phase that the stage belongs to.
    #[verifier::when_used_as_spec(spec_phase)]
    pub fn phase(self) -> (phase: Phase)
        ensures
            phase == self.spec_phase(),
    {
        match self {
            Stage::Starting => Phase::Starting,
            Stage::Opening | Stage::CreatingSchema | Stage::SeedingRecord | Stage::Binding => {
                Phase::Bootstrapping
            },
            Stage::Serving => Phase::Serving,
            Stage::Terminated => Phase::Terminated,
        }
    }

    /// What the process has to do now.
    #[verifier::when_used_as_spec(spec_action)]
    pub fn action(self) -> (action: Action)
        ensures
            action == self.spec_action(),
    {
        match self {
            Stage::Starting => Action::EnsureStorageLocation,
            Stage::Opening => Action::OpenStore,
            Stage::CreatingSchema => Action::Run(Statement::CreateSchema),
            Stage::SeedingRecord => Action::Run(Statement::SeedRecord),
            Stage::Binding => Action::Listen,
            Stage::Serving => Action::Serve,
            Stage::Terminated => Action::Exit,
        }
    }

    /// Moves on from the outcome of the action of this stage.
    #[verifier::when_used_as_spec(spec_advance)]
    pub fn advance(self, succeeded: bool) -> (next: Stage)
        ensures
            next == self.spec_advance(succeeded),
    {
        match (self, succeeded) {
            (Stage::Starting, _) => Stage::Opening,
            (Stage::Opening, true) => Stage::CreatingSchema,
            (Stage::CreatingSchema, true) => Stage::SeedingRecord,
            (Stage::SeedingRecord, true) => Stage::Binding,
            (Stage::Binding, true) => Stage::Serving,
            (Stage::Serving, _) => Stage::Serving,
            _ => Stage::Terminated,
        }
    }
}

/// How the start of a process went: the stage it came to rest in, and the
/// actions it carried out on the way, in order.
#[derive(Debug, PartialEq, Eq)]
pub struct Startup {
    pub stage: Stage,
    pub performed: Vec<Action>,
}

/// The actions a process carries out when it starts: all five up to the
/// listener if its store can be opened, and no more than the first two if it
/// cannot.
pub open spec fn startup_actions(store_online: bool) -> Seq<Action> {
    if store_online {
        seq![
            Action::EnsureStorageLocation,
            Action::OpenStore,
            Action::Run(Statement::CreateSchema),
            Action::Run(Statement::SeedRecord),
            Action::Listen,
        ]
    } else {
        seq![Action::EnsureStorageLocation, Action::OpenStore]
    }
}

/// How many actions a process in this stage still has before it serves, at
/// most.
pub open spec fn steps_left(stage: Stage) -> nat {
    match stage {
        Stage::Starting => 5,
        Stage::Opening => 4,
        Stage::CreatingSchema => 3,
        Stage::SeedingRecord => 2,
        Stage::Binding => 1,
        Stage::Serving => 0,
        Stage::Terminated => 0,
    }
}

/// Starts a process on the in-memory store and follows it until it serves or
/// has terminated.
///
/// The store opens if it is online, the statements of the bootstrap run on
/// it, and the listener can be bound if `listener_free` says so.
/// `location_ready` tells whether the storage location could be ensured.
/// The process comes to serve exactly if the store is online and the
/// listener is free, and a process that serves has a store with its one
/// record. With a store that is offline nothing is run on it and the
/// listener is never asked for.
pub fn start(store: &mut MemoryStore, location_ready: bool, listener_free: bool) -> (startup:
    Startup)
    ensures
        final(store)@ == old(store)@.bootstrapped(),
        startup.stage == if old(store)@.online && listener_free {
            Stage::Serving
        } else {
            Stage::Terminated
        },
        startup.stage is Serving ==> final(store)@.has_record(),
        startup.performed@ == startup_actions(old(store)@.online),
{
    let mut stage = Stage::new();
    let mut performed: Vec<Action> = Vec::new();
    let ghost before = store@;
    proof {
        lemma_bootstrap_statements(before);
    }
    while stage.phase() != Phase::Serving && stage.phase() != Phase::Terminated
        invariant
            before.after(Statement::CreateSchema).after(Statement::SeedRecord)
                == before.bootstrapped(),
            match stage {
                Stage::Starting => store@ == before && performed@ == Seq::<Action>::empty(),
                Stage::Opening => store@ == before && performed@ == startup_actions(false).take(1),
                Stage::CreatingSchema => store@ == before && before.online && performed@
                    == startup_actions(true).take(2),
                Stage::SeedingRecord => store@ == before.after(Statement::CreateSchema)
                    && before.online && performed@ == startup_actions(true).take(3),
                Stage::Binding => store@ == before.bootstrapped() && before.online && performed@
                    == startup_actions(true).take(4),
                Stage::Serving => store@ == before.bootstrapped() && before.online
                    && listener_free && performed@ == startup_actions(true),
                Stage::Terminated => store@ == before.bootstrapped() && !(before.online
                    && listener_free) && performed@ == startup_actions(before.online),
            },
        decreases steps_left(stage),
    {
        let action = stage.action();
        let succeeded = match action {
            Action::EnsureStorageLocation => location_ready,
            Action::OpenStore => store.is_online(),
            Action::Run(statement) => store.run(statement).ran(),
            Action::Listen => listener_free,
            Action::Serve | Action::Exit => true,
        };
        performed.push(action);
        stage = stage.advance(succeeded);
    }
    Startup { stage, performed }
}

/// Where a process stands after a number of actions, told from their
/// outcomes alone.
proof fn lemma_progress(outcomes: Seq<bool>)
    ensures
        ({
            let stage = Stage::Starting.after(outcomes);
            let n = outcomes.len();
            let opened = n >= 2 && outcomes[1];
            let created = opened && n >= 3 && outcomes[2];
            let seeded = created && n >= 4 && outcomes[3];
            let bound = seeded && n >= 5 && outcomes[4];
            &&& n == 0 ==> stage is Starting
            &&& n == 1 ==> stage is Opening
            &&& n >= 2 ==> stage == if bound {
                Stage::Serving
            } else if seeded && n == 4 {
                Stage::Binding
            } else if created && n == 3 {
                Stage::SeedingRecord
            } else if opened && n == 2 {
                Stage::CreatingSchema
            } else {
                Stage::Terminated
            }
        }),
    decreases outcomes.len(),
{
    if outcomes.len() > 0 {
        let earlier = outcomes.drop_last();
        lemma_progress(earlier);
        assert(forall|i: int| 0 <= i < earlier.len() ==> earlier[i] == outcomes[i]);
    }
}

/// A process serves, or is about to bind its listener, only if the store was
/// opened, the table created and the record seeded, each with success.
pub proof fn lemma_listener_needs_bootstrap(outcomes: Seq<bool>)
    requires
        Stage::Starting.after(outcomes) is Binding || Stage::Starting.after(outcomes) is Serving,
    ensures
        outcomes.len() >= 4,
        outcomes[1] && outcomes[2] && outcomes[3],
        Stage::Starting.after(outcomes) is Serving ==> outcomes.len() >= 5 && outcomes[4],
{
    lemma_progress(outcomes);
}

/// If opening or bootstrapping the store fails, the process never binds its
/// listener and never serves: at no point of its life is it in a stage that
/// asks for the listener or uses it.
pub proof fn lemma_failed_bootstrap_never_listens(outcomes: Seq<bool>, failed: int, upto: int)
    requires
        1 <= failed <= 3,
        failed < outcomes.len(),
        !outcomes[failed],
        0 <= upto <= outcomes.len(),
    ensures
        !(Stage::Starting.after(outcomes.take(upto)).spec_action() is Listen),
        !(Stage::Starting.after(outcomes.take(upto)).spec_action() is Serve),
        upto > failed ==> Stage::Starting.after(outcomes.take(upto)) is Terminated,
{
    lemma_progress(outcomes.take(upto));
}

/// Once serving, a process stays serving whatever happens.
pub proof fn lemma_serving_is_stable(outcomes: Seq<bool>)
    ensures
        Stage::Serving.after(outcomes) is Serving,
    decreases outcomes.len(),
{
    if outcomes.len() > 0 {
        lemma_serving_is_stable(outcomes.drop_last());
    }
}

/// Once terminated, a process stays terminated whatever happens.
pub proof fn lemma_terminated_is_final(outcomes: Seq<bool>)
    ensures
        Stage::Terminated.after(outcomes) is Terminated,
    decreases outcomes.len(),
{
    if outcomes.len() > 0 {
        lemma_terminated_is_final(outcomes.drop_last());
    }
}

} // verus!
