//! A small library for spawning a concurrently-running unit of work (a
//! task) and managing its lifecycle and message exchange with the entity
//! that spawned it (a controller, here called a worker).
//!
//! The communication topology between worker and task is fixed once, at
//! creation time, by a compile-time mode type. The worker-side handle and
//! the task-side handle of one relationship are built together by a sealed
//! factory, so the two sides are structurally complementary by
//! construction: a sender of a message type is always paired with the
//! receiver of the same type, a publisher with subscriptions of the same
//! event type, and both sides share one termination signal.

use vstd::prelude::*;

pub mod handle;
pub mod worker;

mod ext;

pub use worker::Worker;

verus! {

/// Default capacity of the bounded point-to-point channel and of each
/// fan-out subscription backlog, applied at creation time.
pub const BUFFER_CAPACITY: usize = 1000;

/// The one error kind of the library: a point-to-point delivery could not
/// complete because the task-side receiver was gone. It carries an opaque
/// human-readable cause.
#[derive(Clone, Debug)]
pub struct Error {
    cause: String,
}

impl Error {
    /// The cause string, as an abstract sequence of characters.
    pub closed spec fn cause_chars(&self) -> Seq<char> {
        self.cause@
    }

    /// Builds a delivery error out of an underlying failure's rendered
    /// message, kept as the opaque cause.
    pub fn from(cause: String) -> (r: Self)
        ensures
            r.cause_chars() == cause@,
    {
        Error { cause }
    }

    /// The human-readable cause of the failure.
    pub fn cause(&self) -> (r: &String)
        ensures
            r@ == self.cause_chars(),
    {
        &self.cause
    }
}

} // verus!
