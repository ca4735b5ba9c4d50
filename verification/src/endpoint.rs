//! The HTTP face of the service: the routes, and the response that each
//! result becomes.
//!
//! A failure of any kind becomes the same opaque server fault; which failure
//! it was never reaches the client.

use vstd::prelude::*;
use crate::counter::Counter;
use crate::memory::MemoryStore;
use crate::service::{perform, reported, Operation};
use crate::store::StoreError;

verus! {

/// The request methods the service answers to.
#[derive(Clone, Copy, Debug, PartialEq, Eq, Structural)]
pub enum Method {
    Get,
    Post,
}

/// What a request asks for.
#[derive(Clone, Copy, Debug, PartialEq, Eq, Structural)]
pub enum Route {
    /// The liveness probe.
    Health,
    /// An operation on the counter.
    Counter(Operation),
}

/// The status of a response.
#[derive(Clone, Copy, Debug, PartialEq, Eq, Structural)]
pub enum Status {
    /// The request was served.
    Success,
    /// The request could not be served; the client learns no more than that.
    ServerFault,
}

/// A response: its status, and the counter in its body where it has one.
#[derive(Clone, Copy, Debug, PartialEq, Eq, Structural)]
pub struct Response {
    pub status: Status,
    pub body: Option<Counter>,
}

impl Status {
    /// The status code on the wire: 200 for success, 500 for a server fault.
    pub open spec fn spec_code(self) -> u16 {
        match self {
            Status::Success => 200,
            Status::ServerFault => 500,
        }
    }

    /// The status code on the wire.
    #[verifier::when_used_as_spec(spec_code)]
    pub fn code(self) -> (code: u16)
        ensures
            code == self.spec_code(),
    {
        match self {
            Status::Success => 200,
            Status::ServerFault => 500,
        }
    }
}

impl Route {
    /// The method under which the route is served: reading routes under
    /// `GET`, changing routes under `POST`.
    pub open spec fn spec_method(self) -> Method {
        match self {
            Route::Health => Method::Get,
            Route::Counter(Operation::Get) => Method::Get,
            Route::Counter(_) => Method::Post,
        }
    }

    /// The path under which the route is served.
    pub open spec fn spec_path(self) -> Seq<char> {
        match self {
            Route::Health => "/api/health"@,
            Route::Counter(Operation::Get) => "/api/counter"@,
            Route::Counter(Operation::Increment) => "/api/counter/increment"@,
            Route::Counter(Operation::Decrement) => "/api/counter/decrement"@,
            Route::Counter(Operation::Reset) => "/api/counter/reset"@,
        }
    }

    /// The method under which the route is served.
    #[verifier::when_used_as_spec(spec_method)]
    pub fn method(self) -> (method: Method)
        ensures
            method == self.spec_method(),
    {
        match self {
            Route::Health => Method::Get,
            Route::Counter(Operation::Get) => Method::Get,
            Route::Counter(_) => Method::Post,
        }
    }

    /// The path under which the route is served.
    pub fn path(self) -> (path: &'static str)
        ensures
            path@ == self.spec_path(),
    {
        match self {
            Route::Health => "/api/health",
            Route::Counter(Operation::Get) => "/api/counter",
            Route::Counter(Operation::Increment) => "/api/counter/increment",
            Route::Counter(Operation::Decrement) => "/api/counter/decrement",
            Route::Counter(Operation::Reset) => "/api/counter/reset",
        }
    }
}

/// Every route, in the order in which a process registers them.
pub open spec fn spec_routes() -> Seq<Route> {
    seq![
        Route::Counter(Operation::Get),
        Route::Counter(Operation::Increment),
        Route::Counter(Operation::Decrement),
        Route::Counter(Operation::Reset),
        Route::Health,
    ]
}

/// Every route, in the order in which a process registers them.
pub fn routes() -> (all: Vec<Route>)
    ensures
        all@ == spec_routes(),
{
    let mut all: Vec<Route> = Vec::new();
    all.push(Route::Counter(Operation::Get));
    all.push(Route::Counter(Operation::Increment));
    all.push(Route::Counter(Operation::Decrement));
    all.push(Route::Counter(Operation::Reset));
    all.push(Route::Health);
    all
}

/// The list of routes is complete and names no route twice.
pub proof fn lemma_routes_are_complete(route: Route)
    ensures
        spec_routes().contains(route),
        spec_routes().no_duplicates(),
{
    let all = spec_routes();
    match route {
        Route::Counter(Operation::Get) => assert(all[0] == route),
        Route::Counter(Operation::Increment) => assert(all[1] == route),
        Route::Counter(Operation::Decrement) => assert(all[2] == route),
        Route::Counter(Operation::Reset) => assert(all[3] == route),
        Route::Health => assert(all[4] == route),
    }
}

/// No two routes are served under the same method and path.
pub proof fn lemma_routes_are_distinct(first: Route, second: Route)
    requires
        first != second,
    ensures
        first.spec_method() != second.spec_method() || first.spec_path() != second.spec_path(),
{
    reveal_strlit("/api/health");
    reveal_strlit("/api/counter");
    reveal_strlit("/api/counter/increment");
    reveal_strlit("/api/counter/decrement");
    reveal_strlit("/api/counter/reset");
    if first.spec_path().len() == second.spec_path().len() {
        assert("/api/counter/increment"@[13] != "/api/counter/decrement"@[13]);
    }
}

impl Response {
    /// The response that a result becomes: the counter with status 200, or a
    /// bare server fault.
    pub open spec fn of(result: Result<Counter, StoreError>) -> Response {
        match result {
            Ok(counter) => Response { status: Status::Success, body: Some(counter) },
            Err(_) => Response { status: Status::ServerFault, body: None },
        }
    }

    /// The response of the liveness probe: success without a body.
    pub open spec fn alive() -> Response {
        Response { status: Status::Success, body: None }
    }

    /// Whether the response is the one that the result calls for.
    pub open spec fn carries(self, result: Result<int, StoreError>) -> bool {
        match result {
            Ok(value) => {
                &&& self.status is Success
                &&& self.body matches Some(counter)
                &&& counter.value == value
            },
            Err(_) => self.status is ServerFault && self.body is None,
        }
    }
}

/// Turns the result of an operation into a response.
pub fn respond(result: Result<Counter, StoreError>) -> (response: Response)
    ensures
        response == Response::of(result),
        response.carries(reported(result)),
{
    match result {
        Ok(counter) => Response { status: Status::Success, body: Some(counter) },
        Err(_) => Response { status: Status::ServerFault, body: None },
    }
}

/// Answers the liveness probe. It takes no store and so cannot depend on one.
pub fn health_check() -> (response: Response)
    ensures
        response == Response::alive(),
{
    Response { status: Status::Success, body: None }
}

/// Serves one request against the in-memory store.
///
/// The liveness probe succeeds and leaves the store alone, whatever state the
/// store is in. A counter route carries out its operation and responds with
/// what the operation returned.
pub fn handle(store: &mut MemoryStore, route: Route) -> (response: Response)
    ensures
        match route {
            Route::Health => final(store)@ == old(store)@ && response == Response::alive(),
            Route::Counter(op) => final(store)@ == old(store)@.after(op.spec_statement())
                && response.carries(old(store)@.result_of(op)),
        },
{
    match route {
        Route::Health => health_check(),
        Route::Counter(op) => respond(perform(store, op)),
    }
}

} // verus!
