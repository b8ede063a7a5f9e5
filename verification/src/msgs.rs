//! The control messages of the runtime, and the shape of a handler's reply.

use vstd::prelude::*;
use crate::address::SyncAddress;

verus! {

/// Asks an arbiter to end its event loop with the given exit code.
#[derive(Clone, Copy, PartialEq, Eq, Structural, Debug)]
pub struct StopArbiter(pub i32);

/// Asks the system to shut the whole process down with the given exit code.
#[derive(Clone, Copy, PartialEq, Eq, Structural, Debug)]
pub struct SystemExit(pub i32);

/// Asks an arbiter to start a new actor on its own thread.
#[derive(Clone, Copy, PartialEq, Eq, Structural, Debug)]
pub struct StartActor;

/// Asks an arbiter to run a computation on its own thread.
pub struct Execute<F>(pub F);

/// Tells the system that the arbiter with the given key now runs, and where
/// to reach it.
#[derive(Debug, PartialEq, Eq)]
pub struct RegisterArbiter(pub String, pub SyncAddress);

/// Tells the system that the arbiter with the given key has ended.
#[derive(Debug, PartialEq, Eq)]
pub struct UnregisterArbiter(pub String);

/// What a handler answers: nothing, an item, or an error. An error is data
/// carried in the reply; it never unwinds into the sender.
#[derive(Debug, PartialEq, Eq)]
pub enum Response<I, E> {
    /// The handler has nothing to say.
    Empty,
    /// The handler succeeded with this item.
    Reply(I),
    /// The handler failed with this error.
    Error(E),
}

impl<I, E> Response<I, E> {
    /// The reply that relays the outcome of a computation: its item on
    /// success, its error on failure.
    pub fn relay(outcome: Result<I, E>) -> (r: Response<I, E>)
        ensures
            r == relayed(outcome),
    {
        match outcome {
            Ok(item) => Response::Reply(item),
            Err(error) => Response::Error(error),
        }
    }
}

/// The reply that carries `outcome` back to the sender.
pub open spec fn relayed<I, E>(outcome: Result<I, E>) -> Response<I, E> {
    match outcome {
        Ok(item) => Response::Reply(item),
        Err(error) => Response::Error(error),
    }
}

} // verus!
