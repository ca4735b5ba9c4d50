//! The counter as clients see it.

use vstd::prelude::*;

verus! {

/// The value of the singleton counter, as a counter route reports it.
#[derive(Clone, Copy, Debug, PartialEq, Eq, Structural)]
pub struct Counter {
    pub value: i64,
}

} // verus!
