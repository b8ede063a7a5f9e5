//! The execution environment of one live actor: its address, its place in
//! the actor lifecycle, its mailbox, and the extra message sources attached
//! to it.

use vstd::prelude::*;
use crate::address::{ActorRef, Address, SyncAddress};
use crate::mailbox::{Envelope, Mailbox, MailboxState, Origin, SendError};

verus! {

/// Where an actor stands in its lifecycle.
#[derive(Clone, Copy, PartialEq, Eq, Structural, Debug)]
pub enum Phase {
    /// Constructed; no hook has run and no message has been delivered.
    Created,
    /// The startup hooks have run; messages are being processed.
    Running,
    /// Stopped; nothing is accepted or delivered any more.
    Stopped,
}

/// A lifecycle callback of an actor.
#[derive(Clone, Copy, PartialEq, Eq, Structural, Debug)]
pub enum Hook {
    /// The startup hook of a system service.
    ServiceStarted,
    /// The startup hook of every actor.
    Started,
    /// The hook that runs when a started actor stops.
    Stopped,
}

/// The hooks that run when an actor starts, in the order in which they run.
pub open spec fn startup_hooks(service: bool) -> Seq<Hook> {
    if service {
        seq![Hook::ServiceStarted, Hook::Started]
    } else {
        seq![Hook::Started]
    }
}

/// The mathematical state of a context.
#[verifier::ext_equal]
pub struct ContextState<M> {
    /// The actor this context belongs to.
    pub actor: ActorRef,
    /// Whether the actor is a system service.
    pub service: bool,
    /// The actor's place in its lifecycle.
    pub phase: Phase,
    /// The actor's mailbox.
    pub mailbox: MailboxState<M>,
    /// The number of streams attached so far.
    pub streams: nat,
    /// The number of continuations scheduled so far.
    pub continuations: nat,
    /// Every hook that has run, in the order in which they ran.
    pub hooks: Seq<Hook>,
}

impl<M> ContextState<M> {
    /// The invariant of every context.
    pub open spec fn wf(self) -> bool {
        &&& self.mailbox.wf()
        &&& self.mailbox.closed <==> self.phase is Stopped
        &&& self.phase is Created ==> self.mailbox.delivered.len() == 0 && self.hooks.len() == 0
        &&& self.phase is Running ==> self.hooks == startup_hooks(self.service)
        &&& self.phase is Stopped ==> (self.hooks.len() == 0 && self.mailbox.delivered.len() == 0)
            || self.hooks == startup_hooks(self.service).push(Hook::Stopped)
        &&& self.streams <= u64::MAX
        &&& self.continuations <= u64::MAX
    }
}

/// What stopping an actor yields.
pub struct Stopping<M> {
    /// The hook to run now, if the actor had been started.
    pub hook: Option<Hook>,
    /// The messages that were accepted but will never be delivered, oldest
    /// first. Their senders are to be told that the send failed.
    pub undelivered: Vec<Envelope<M>>,
}

/// The execution environment of one live actor.
pub struct Context<M> {
    addr: Address,
    service: bool,
    phase: Phase,
    mailbox: Mailbox<M>,
    streams: u64,
    continuations: u64,
    hooks: Ghost<Seq<Hook>>,
}

impl<M> View for Context<M> {
    type V = ContextState<M>;

    closed spec fn view(&self) -> ContextState<M> {
        ContextState {
            actor: self.addr@,
            service: self.service,
            phase: self.phase,
            mailbox: self.mailbox@,
            streams: self.streams as nat,
            continuations: self.continuations as nat,
            hooks: self.hooks@,
        }
    }
}

impl<M> Context<M> {
    /// Whether the context satisfies its invariant.
    pub open spec fn wf(&self) -> bool {
        self@.wf()
    }

    /// The context of a newly constructed actor at `addr`.
    pub fn new(addr: Address, service: bool) -> (ctx: Context<M>)
        ensures
            ctx.wf(),
            ctx@ == (ContextState {
                actor: addr@,
                service,
                phase: Phase::Created,
                mailbox: MailboxState::<M>::fresh(),
                streams: 0,
                continuations: 0,
                hooks: Seq::empty(),
            }),
    {
        Context {
            addr,
            service,
            phase: Phase::Created,
            mailbox: Mailbox::new(),
            streams: 0,
            continuations: 0,
            hooks: Ghost(Seq::empty()),
        }
    }

    /// The actor's own same-thread address.
    pub fn address(&self) -> (a: Address)
        ensures
            a@ == self@.actor,
    {
        self.addr
    }

    /// The actor's own address for use on any thread.
    pub fn sync_address(&self) -> (a: SyncAddress)
        ensures
            a@ == self@.actor,
    {
        self.addr.sync()
    }

    /// The actor's place in its lifecycle.
    pub fn phase(&self) -> (p: Phase)
        ensures
            p == self@.phase,
    {
        self.phase
    }

    /// Starts a created actor and returns the hooks to run, in order: for a
    /// system service its service hook, then the ordinary startup hook.
    /// Starting an actor a second time, or a stopped one, runs nothing.
    pub fn start(&mut self) -> (hooks: Vec<Hook>)
        requires
            old(self).wf(),
        ensures
            final(self).wf(),
            old(self)@.phase is Created ==> hooks@ == startup_hooks(old(self)@.service),
            old(self)@.phase is Created ==> final(self)@ == (ContextState {
                phase: Phase::Running,
                hooks: hooks@,
                ..old(self)@
            }),
            !(old(self)@.phase is Created) ==> hooks@.len() == 0,
            !(old(self)@.phase is Created) ==> final(self)@ == old(self)@,
    {
        let mut hooks: Vec<Hook> = Vec::new();
        match self.phase {
            Phase::Created => {
                if self.service {
                    hooks.push(Hook::ServiceStarted);
                }
                hooks.push(Hook::Started);
                self.phase = Phase::Running;
                proof {
                    self.hooks@ = hooks@;
                }
                assert(hooks@ =~= startup_hooks(self.service));
            },
            _ => {},
        }
        hooks
    }

    /// Enqueues `msg` from `sender`. A stopped actor accepts nothing and the
    /// message comes back. A message sent before the actor starts, or while
    /// its handler runs, waits in the queue.
    pub fn send(&mut self, sender: Origin, msg: M) -> (r: Result<(), SendError<M>>)
        requires
            old(self).wf(),
        ensures
            final(self).wf(),
            old(self)@.phase is Stopped ==> r == Err::<(), SendError<M>>(SendError::Closed(msg)),
            old(self)@.phase is Stopped ==> final(self)@ == old(self)@,
            !(old(self)@.phase is Stopped) ==> r is Ok,
            !(old(self)@.phase is Stopped) ==> final(self)@ == (ContextState {
                mailbox: old(self)@.mailbox.accept((Envelope { sender, msg })),
                ..old(self)@
            }),
    {
        self.mailbox.send(sender, msg)
    }

    /// Whether a message may be handed to the actor's handler now.
    pub open spec fn deliverable(&self) -> bool {
        self@.phase is Running && self@.mailbox.ready()
    }

    /// Hands the oldest pending message to the handler. Nothing is handed
    /// out before the actor has started, while a handler runs, when nothing
    /// is pending, or after the actor has stopped.
    pub fn next(&mut self) -> (r: Option<Envelope<M>>)
        requires
            old(self).wf(),
        ensures
            final(self).wf(),
            old(self).deliverable() ==> r == Some(old(self)@.mailbox.pending[0]),
            old(self).deliverable() ==> final(self)@ == (ContextState {
                mailbox: old(self)@.mailbox.deliver(),
                ..old(self)@
            }),
            !old(self).deliverable() ==> r is None,
            !old(self).deliverable() ==> final(self)@ == old(self)@,
    {
        match self.phase {
            Phase::Running => self.mailbox.take(),
            _ => None,
        }
    }

    /// Records that the handler invocation in progress has returned.
    pub fn complete(&mut self)
        requires
            old(self).wf(),
        ensures
            final(self).wf(),
            final(self)@ == (ContextState {
                mailbox: old(self)@.mailbox.complete(),
                ..old(self)@
            }),
    {
        self.mailbox.complete();
    }

    /// Stops the actor. A running actor gets its stop hook; an actor that
    /// never started gets none. What was pending is returned undelivered.
    /// Stopping a stopped actor changes nothing.
    pub fn stop(&mut self) -> (r: Stopping<M>)
        requires
            old(self).wf(),
        ensures
            final(self).wf(),
            r.undelivered@ == old(self)@.mailbox.pending,
            r.hook == (if old(self)@.phase is Running {
                Some(Hook::Stopped)
            } else {
                None::<Hook>
            }),
            final(self)@ == (ContextState {
                phase: Phase::Stopped,
                mailbox: old(self)@.mailbox.close(),
                hooks: if old(self)@.phase is Running {
                    old(self)@.hooks.push(Hook::Stopped)
                } else {
                    old(self)@.hooks
                },
                ..old(self)@
            }),
    {
        let hook = match self.phase {
            Phase::Running => Some(Hook::Stopped),
            _ => None,
        };
        proof {
            if self.phase is Running {
                self.hooks@ = self.hooks@.push(Hook::Stopped);
            }
        }
        self.phase = Phase::Stopped;
        let undelivered = self.mailbox.close();
        Stopping { hook, undelivered }
    }

    /// Attaches one more stream to the actor and returns the channel on
    /// which its items arrive, or nothing when the stream numbers are used
    /// up.
    pub fn add_stream(&mut self) -> (r: Option<Origin>)
        requires
            old(self).wf(),
        ensures
            final(self).wf(),
            old(self)@.streams < u64::MAX ==> r == Some(Origin::Stream(old(self)@.streams as u64)),
            old(self)@.streams < u64::MAX ==> final(self)@ == (ContextState {
                streams: old(self)@.streams + 1,
                ..old(self)@
            }),
            old(self)@.streams >= u64::MAX ==> r is None && final(self)@ == old(self)@,
    {
        if self.streams < u64::MAX {
            let channel = Origin::Stream(self.streams);
            self.streams = self.streams + 1;
            Some(channel)
        } else {
            None
        }
    }

    /// Schedules one more continuation and returns the channel on which its
    /// result re-enters the actor, or nothing when the numbers are used up.
    pub fn spawn(&mut self) -> (r: Option<Origin>)
        requires
            old(self).wf(),
        ensures
            final(self).wf(),
            old(self)@.continuations < u64::MAX ==> r == Some(
                Origin::Continuation(old(self)@.continuations as u64),
            ),
            old(self)@.continuations < u64::MAX ==> final(self)@ == (ContextState {
                continuations: old(self)@.continuations + 1,
                ..old(self)@
            }),
            old(self)@.continuations >= u64::MAX ==> r is None && final(self)@ == old(self)@,
    {
        if self.continuations < u64::MAX {
            let channel = Origin::Continuation(self.continuations);
            self.continuations = self.continuations + 1;
            Some(channel)
        } else {
            None
        }
    }
}

/// The startup hooks run before the first message is delivered: once a
/// message has reached the handler, the startup hooks have run, the service
/// hook first.
pub proof fn lemma_started_before_first_message<M>(s: ContextState<M>)
    requires
        s.wf(),
        s.mailbox.delivered.len() > 0,
    ensures
        !(s.phase is Created),
        startup_hooks(s.service).is_prefix_of(s.hooks),
        s.hooks.last() == Hook::Started || s.hooks.last() == Hook::Stopped,
{
}

/// No hook runs twice, and the stop hook runs only after the startup hooks.
pub proof fn lemma_hooks_run_once<M>(s: ContextState<M>)
    requires
        s.wf(),
    ensures
        s.hooks.no_duplicates(),
        forall|i: int|
            0 <= i < s.hooks.len() && s.hooks[i] == Hook::Stopped ==> i == s.hooks.len() - 1,
        s.hooks.contains(Hook::Stopped) ==> s.hooks.contains(Hook::Started),
        s.hooks.contains(Hook::ServiceStarted) ==> s.service,
{
    if s.hooks.len() > 0 {
        let startup = startup_hooks(s.service);
        assert(s.hooks == startup || s.hooks == startup.push(Hook::Stopped));
        if s.hooks.contains(Hook::Stopped) {
            assert(s.hooks == startup.push(Hook::Stopped));
            assert(s.hooks[startup.len() - 1] == Hook::Started);
        }
    }
}

} // verus!
