//! Verified core of a small HTTP service that keeps one durable integer counter.
//!
//! The crate holds every decision the service makes and leaves the effects to
//! the program around it: which statement an operation sends to storage, what
//! a reply from storage means, which response a result becomes, and in which
//! order a process may start. Storage itself is described by a mathematical
//! model, and an in-memory store that follows the model exactly stands in for
//! the durable one wherever the service has to be run without it.

pub mod counter;
pub mod store;
pub mod memory;
pub mod service;
pub mod endpoint;
pub mod lifecycle;
pub mod schedule;
pub mod config;
