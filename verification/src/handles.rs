//! The handles into the reactor that the kernel carries but never looks
//! into: the event-loop handle of a thread, and the sender half of the
//! one-shot channel whose value ends an event loop.

use vstd::prelude::*;
use futures::sync::oneshot::Sender;

verus! {

/// `futures::sync::oneshot::Sender`, the completing half of a one-shot
/// channel. Opaque to the verifier.
#[verifier::external_type_specification]
#[verifier::external_body]
#[verifier::reject_recursive_types(T)]
pub struct ExSender<T>(futures::sync::oneshot::Sender<T>);

/// `tokio_core::reactor::Handle`, a handle to the event loop of the current
/// thread. Opaque to the verifier.
#[verifier::external_type_specification]
#[verifier::external_body]
pub struct ExHandle(tokio_core::reactor::Handle);

/// What became of an attempt to end an event loop.
#[derive(Clone, Copy, PartialEq, Eq, Structural, Debug)]
pub enum LoopEnd {
    /// The loop was told to end with this exit code.
    Signalled(i32),
    /// The loop was gone already: nothing waited for the exit code.
    Gone,
}

/// What an attempt to end an event loop with `code` came to, given what the
/// channel answered.
pub open spec fn loop_end(answer: Result<(), i32>, code: i32) -> LoopEnd {
    match answer {
        Ok(_) => LoopEnd::Signalled(code),
        Err(_) => LoopEnd::Gone,
    }
}

/// What a handover holds.
pub struct HandoverState {
    /// The exit code that was handed to the channel of the event loop.
    pub code: i32,
    /// What the channel answered: done, or the code back when nothing
    /// waited for it.
    pub answer: Result<(), i32>,
}

/// The record of one attempt to end an event loop: the exit code that was
/// handed to the loop's channel, and what the channel answered. A handover
/// comes into being only by handing a code to a channel, so whoever holds
/// one knows which code the loop was given.
#[derive(Clone, Copy, PartialEq, Eq, Debug)]
pub struct Handover {
    code: i32,
    answer: Result<(), i32>,
}

impl View for Handover {
    type V = HandoverState;

    closed spec fn view(&self) -> HandoverState {
        HandoverState { code: self.code, answer: self.answer }
    }
}

impl Handover {
    /// The exit code that was handed to the channel.
    pub fn code(&self) -> (code: i32)
        ensures
            code == self@.code,
    {
        self.code
    }

    /// Whether the channel took the code, that is, whether the loop was
    /// still there to be told.
    pub fn taken(&self) -> (b: bool)
        ensures
            b == self@.answer is Ok,
    {
        self.answer.is_ok()
    }

    /// What the attempt came to.
    pub fn end(&self) -> (e: LoopEnd)
        ensures
            e == loop_end(self@.answer, self@.code),
    {
        match self.answer {
            Ok(_) => LoopEnd::Signalled(self.code),
            Err(_) => LoopEnd::Gone,
        }
    }
}

/// Calls `futures::sync::oneshot::Sender::send`, which consumes the sender,
/// and keeps the code that was handed over beside the channel's answer.
///
/// Trusted: the code in the handover is the code that was given to `send`.
/// Whether the value is enqueued depends on whether the receiving half is
/// still alive, so nothing is promised about success. When the send fails,
/// the error carries back the value that was given.
#[verifier::external_body]
pub(crate) fn oneshot_send(stop: Sender<i32>, code: i32) -> (h: Handover)
    ensures
        h@.code == code,
        h@.answer is Err ==> h@.answer->Err_0 == code,
{
    Handover { code, answer: stop.send(code) }
}

} // verus!
