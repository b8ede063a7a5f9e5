//! The concurrency core of an actor runtime, as a kernel of state machines.
//!
//! An *arbiter* is one thread running one cooperative event loop that hosts
//! actors. This crate holds everything about arbiters that can be decided
//! without touching a thread or a reactor: identifiers and names, the
//! per-thread record an arbiter keeps, mailboxes with their ordering and
//! run-to-completion guarantees, the registries of singleton services, the
//! system coordinator with its shutdown protocol, and the signal fan-out
//! service. Each operation carries a contract that Verus proves.
//!
//! The shell that owns the threads and the reactor drives these state
//! machines: it performs the actions they return and feeds back the events.

pub mod ident;
pub mod address;
pub mod msgs;
pub mod mailbox;
pub mod context;
pub mod assoc;
pub mod registry;
pub mod handles;
pub mod system;
pub mod arbiter;
pub mod signal;
