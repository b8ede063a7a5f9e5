//! The mailbox of one actor: a first-in first-out queue of pending messages
//! that hands out one message at a time.
//!
//! A mailbox remembers, as ghost state, every envelope it ever accepted and
//! every envelope it ever handed to the handler. Its invariant ties the two
//! histories together, and the ordering and run-to-completion guarantees are
//! consequences of that invariant.
//!
//! A message that expects an answer carries the means to answer inside
//! itself. An envelope that is refused, or that is still pending when the
//! actor stops, goes back to the caller, so that whoever waits for its
//! answer learns that none will come.

use vstd::prelude::*;
use std::collections::VecDeque;
use crate::address::ActorRef;

verus! {

/// Where a message comes from. Each origin is one sending channel.
#[derive(Clone, Copy, PartialEq, Eq, Structural, Debug)]
pub enum Origin {
    /// Sent by another actor, or by the receiving actor to itself.
    Actor(ActorRef),
    /// Produced by a stream that was attached to the receiving actor.
    Stream(u64),
    /// Produced by a continuation that the receiving actor scheduled.
    Continuation(u64),
    /// Sent by code that runs outside any actor.
    Outside,
}

/// A message together with the channel it was sent on.
#[derive(Debug, PartialEq, Eq)]
pub struct Envelope<M> {
    /// The sending channel.
    pub sender: Origin,
    /// The message itself.
    pub msg: M,
}

/// Why a message was not accepted.
#[derive(Debug, PartialEq, Eq)]
pub enum SendError<M> {
    /// The receiving actor has stopped. The message comes back.
    Closed(M),
}

/// The mathematical state of a mailbox.
#[verifier::ext_equal]
pub struct MailboxState<M> {
    /// Accepted envelopes that wait for the handler, oldest first.
    pub pending: Seq<Envelope<M>>,
    /// Whether a handler invocation is in progress.
    pub busy: bool,
    /// Whether the actor has stopped.
    pub closed: bool,
    /// Every envelope ever accepted, in the order of acceptance.
    pub accepted: Seq<Envelope<M>>,
    /// Every envelope ever handed to the handler, in the order of delivery.
    pub delivered: Seq<Envelope<M>>,
    /// The envelopes that were still pending when the actor stopped.
    pub dropped: Seq<Envelope<M>>,
    /// How many handler invocations have run to completion.
    pub completed: nat,
}

impl<M> MailboxState<M> {
    /// The state of a new mailbox: open, idle, with empty histories.
    pub open spec fn fresh() -> Self {
        MailboxState {
            pending: Seq::empty(),
            busy: false,
            closed: false,
            accepted: Seq::empty(),
            delivered: Seq::empty(),
            dropped: Seq::empty(),
            completed: 0,
        }
    }

    /// The invariant of every mailbox.
    pub open spec fn wf(self) -> bool {
        &&& self.accepted =~= self.delivered + self.dropped + self.pending
        &&& !self.closed ==> self.dropped.len() == 0
        &&& self.closed ==> self.pending.len() == 0
        &&& self.delivered.len() == self.completed + (if self.busy { 1nat } else { 0nat })
    }

    /// The number of handler invocations in progress.
    pub open spec fn in_progress(self) -> int {
        self.delivered.len() - self.completed
    }

    /// The state after an open mailbox accepts `e`.
    pub open spec fn accept(self, e: Envelope<M>) -> Self {
        MailboxState { pending: self.pending.push(e), accepted: self.accepted.push(e), ..self }
    }

    /// Whether the next pending envelope may be handed to the handler now.
    pub open spec fn ready(self) -> bool {
        !self.busy && !self.closed && self.pending.len() > 0
    }

    /// The state after the oldest pending envelope is handed to the handler.
    pub open spec fn deliver(self) -> Self {
        MailboxState {
            pending: self.pending.skip(1),
            delivered: self.delivered.push(self.pending[0]),
            busy: true,
            ..self
        }
    }

    /// The state after the handler invocation in progress, if any, returns.
    pub open spec fn complete(self) -> Self {
        if self.busy {
            MailboxState { busy: false, completed: self.completed + 1, ..self }
        } else {
            self
        }
    }

    /// The state after the actor stops: what was pending is dropped.
    pub open spec fn close(self) -> Self {
        if self.closed {
            self
        } else {
            MailboxState { pending: Seq::empty(), dropped: self.pending, closed: true, ..self }
        }
    }
}

/// The envelopes of `s` that were sent on channel `sender`, in order.
pub open spec fn from_sender<M>(s: Seq<Envelope<M>>, sender: Origin) -> Seq<Envelope<M>> {
    s.filter(|e: Envelope<M>| e.sender == sender)
}

/// The mailbox of one actor.
pub struct Mailbox<M> {
    queue: VecDeque<Envelope<M>>,
    busy: bool,
    closed: bool,
    accepted: Ghost<Seq<Envelope<M>>>,
    delivered: Ghost<Seq<Envelope<M>>>,
    dropped: Ghost<Seq<Envelope<M>>>,
    completed: Ghost<nat>,
}

impl<M> View for Mailbox<M> {
    type V = MailboxState<M>;

    closed spec fn view(&self) -> MailboxState<M> {
        MailboxState {
            pending: self.queue@,
            busy: self.busy,
            closed: self.closed,
            accepted: self.accepted@,
            delivered: self.delivered@,
            dropped: self.dropped@,
            completed: self.completed@,
        }
    }
}

impl<M> Mailbox<M> {
    /// Whether the mailbox satisfies its invariant.
    pub open spec fn wf(&self) -> bool {
        self@.wf()
    }

    /// A new mailbox: open, idle and empty.
    pub fn new() -> (mb: Mailbox<M>)
        ensures
            mb.wf(),
            mb@ == MailboxState::<M>::fresh(),
    {
        Mailbox {
            queue: VecDeque::new(),
            busy: false,
            closed: false,
            accepted: Ghost(Seq::empty()),
            delivered: Ghost(Seq::empty()),
            dropped: Ghost(Seq::empty()),
            completed: Ghost(0),
        }
    }

    /// Enqueues `msg`, sent on channel `sender`. A stopped actor accepts
    /// nothing: the message comes back in the error. A message sent while a
    /// handler runs, even by that handler, waits in the queue.
    pub fn send(&mut self, sender: Origin, msg: M) -> (r: Result<(), SendError<M>>)
        requires
            old(self).wf(),
        ensures
            final(self).wf(),
            old(self)@.closed ==> r == Err::<(), SendError<M>>(SendError::Closed(msg)),
            old(self)@.closed ==> final(self)@ == old(self)@,
            !old(self)@.closed ==> r is Ok,
            !old(self)@.closed ==> final(self)@ == old(self)@.accept((Envelope { sender, msg })),
    {
        if self.closed {
            return Err(SendError::Closed(msg));
        }
        let ghost e = Envelope { sender, msg };
        self.queue.push_back(Envelope { sender, msg });
        proof {
            self.accepted@ = self.accepted@.push(e);
        }
        Ok(())
    }

    /// Hands out the oldest pending envelope and marks the handler as
    /// running. Hands out nothing while a handler runs, when nothing is
    /// pending, or after the actor has stopped.
    pub fn take(&mut self) -> (r: Option<Envelope<M>>)
        requires
            old(self).wf(),
        ensures
            final(self).wf(),
            old(self)@.ready() ==> r == Some(old(self)@.pending[0]),
            old(self)@.ready() ==> final(self)@ == old(self)@.deliver(),
            !old(self)@.ready() ==> r is None,
            !old(self)@.ready() ==> final(self)@ == old(self)@,
    {
        if self.busy || self.closed {
            return None;
        }
        match self.queue.pop_front() {
            Some(e) => {
                self.busy = true;
                proof {
                    self.delivered@ = self.delivered@.push(e);
                }
                Some(e)
            },
            None => None,
        }
    }

    /// Records that the handler invocation in progress has returned. Does
    /// nothing when no handler runs.
    pub fn complete(&mut self)
        requires
            old(self).wf(),
        ensures
            final(self).wf(),
            final(self)@ == old(self)@.complete(),
    {
        if self.busy {
            self.busy = false;
            proof {
                self.completed@ = self.completed@ + 1;
            }
        }
    }

    /// Stops accepting messages and returns what was still pending, oldest
    /// first. Closing a closed mailbox changes nothing and returns nothing.
    pub fn close(&mut self) -> (undelivered: Vec<Envelope<M>>)
        requires
            old(self).wf(),
        ensures
            final(self).wf(),
            final(self)@ == old(self)@.close(),
            undelivered@ == old(self)@.pending,
    {
        let mut undelivered: Vec<Envelope<M>> = Vec::new();
        if self.closed {
            return undelivered;
        }
        let ghost pending = self.queue@;
        while self.queue.len() > 0
            invariant
                undelivered@ + self.queue@ == pending,
                self.busy == old(self).busy,
                self.closed == old(self).closed,
                self.accepted == old(self).accepted,
                self.delivered == old(self).delivered,
                self.dropped == old(self).dropped,
                self.completed == old(self).completed,
            decreases self.queue@.len(),
        {
            let front = self.queue.pop_front();
            match front {
                Some(e) => {
                    undelivered.push(e);
                },
                None => {},
            }
        }
        self.closed = true;
        proof {
            self.dropped@ = pending;
        }
        undelivered
    }

    /// The number of pending messages.
    pub fn len(&self) -> (n: usize)
        ensures
            n == self@.pending.len(),
    {
        self.queue.len()
    }

    /// Whether a handler invocation is in progress.
    pub fn is_busy(&self) -> (b: bool)
        ensures
            b == self@.busy,
    {
        self.busy
    }

    /// Whether the actor has stopped.
    pub fn is_closed(&self) -> (b: bool)
        ensures
            b == self@.closed,
    {
        self.closed
    }
}

/// Messages reach the handler in the order in which they were accepted:
/// what has been delivered is an initial part of what has been accepted.
pub proof fn lemma_delivery_in_order<M>(s: MailboxState<M>)
    requires
        s.wf(),
    ensures
        s.delivered.is_prefix_of(s.accepted),
{
}

/// First in, first out for each sender: the messages of one sending channel
/// reach the handler in the order in which that channel sent them, whatever
/// other senders interleave.
pub proof fn lemma_fifo_per_sender<M>(s: MailboxState<M>, sender: Origin)
    requires
        s.wf(),
    ensures
        from_sender(s.delivered, sender).is_prefix_of(from_sender(s.accepted, sender)),
{
    let pred = |e: Envelope<M>| e.sender == sender;
    let rest = s.dropped + s.pending;
    assert(s.accepted == s.delivered + rest);
    Seq::filter_distributes_over_add(s.delivered, rest, pred);
}

/// Of two messages that one sender sent and that were both delivered, the
/// one sent first was delivered first: each sits at the same place in the
/// delivery history as in the acceptance history.
pub proof fn lemma_sent_first_delivered_first<M>(s: MailboxState<M>, first: int, second: int)
    requires
        s.wf(),
        0 <= first < second < s.delivered.len(),
    ensures
        second < s.accepted.len(),
        s.delivered[first] == s.accepted[first],
        s.delivered[second] == s.accepted[second],
{
}

/// Run to completion: at any moment at most one handler invocation is in
/// progress, and exactly one while the mailbox is busy.
pub proof fn lemma_run_to_completion<M>(s: MailboxState<M>)
    requires
        s.wf(),
    ensures
        0 <= s.in_progress() <= 1,
        s.busy <==> s.in_progress() == 1,
        s.busy ==> !s.ready(),
{
}

/// A new mailbox satisfies the invariant and every step keeps it, so the
/// guarantees above hold in every state a mailbox can reach.
pub proof fn lemma_steps_keep_invariant<M>(s: MailboxState<M>, e: Envelope<M>)
    requires
        s.wf(),
    ensures
        MailboxState::<M>::fresh().wf(),
        !s.closed ==> s.accept(e).wf(),
        s.ready() ==> s.deliver().wf(),
        s.complete().wf(),
        s.close().wf(),
{
}

} // verus!
