//! Process signals as messages.
//!
//! [`ProcessSignals`] is a system service. When it starts it attaches one
//! stream per kind of signal to its context; for every signal that arrives
//! it sends a [`Signal`] to each of its subscribers and forgets those that
//! can no longer be reached. [`DefaultSignalsHandler`] subscribes to it and
//! turns the signals that ask a process to end into a shutdown request.

use vstd::prelude::*;
use crate::address::SyncAddress;
use crate::context::{Context, ContextState};
use crate::mailbox::Origin;
use crate::msgs::SystemExit;
use crate::registry::ServiceId;

verus! {

/// The kinds of process signals that are watched.
#[derive(PartialEq, Eq, Structural, Clone, Copy, Debug)]
pub enum SignalType {
    /// The hang-up signal.
    Hup,
    /// The interrupt signal.
    Int,
    /// The termination signal.
    Term,
    /// The quit signal.
    Quit,
    /// The signal that a child process has changed state.
    Child,
}

/// A process signal, as the message that subscribers receive.
#[derive(PartialEq, Eq, Structural, Clone, Copy, Debug)]
pub struct Signal(pub SignalType);

/// Subscribes the actor at the given address to process signals.
#[derive(PartialEq, Eq, Structural, Clone, Copy, Debug)]
pub struct Subscribe(pub SyncAddress);

/// One stream to attach: the kind of signal to listen for and the channel
/// on which its occurrences arrive at the service.
#[derive(PartialEq, Eq, Structural, Clone, Copy, Debug)]
pub struct Watch {
    /// The kind of signal.
    pub kind: SignalType,
    /// The channel of the stream.
    pub channel: Origin,
}

/// The number under which the signal service is kept in the process-wide
/// registry.
pub const PROCESS_SIGNALS: u64 = 1;

/// The kinds of signals that the service listens for, in the order in which
/// it attaches their streams.
pub open spec fn watched() -> Seq<SignalType> {
    seq![SignalType::Int, SignalType::Hup, SignalType::Term, SignalType::Quit, SignalType::Child]
}

/// The streams that the service attaches when its context has `streams`
/// streams already: one per watched kind, on consecutive channels, as far
/// as the channel numbers reach.
pub open spec fn watch_plan(streams: nat) -> Seq<Watch> {
    Seq::new(
        if streams + 5 <= u64::MAX {
            5nat
        } else {
            (u64::MAX - streams) as nat
        },
        |i: int| Watch { kind: watched()[i], channel: Origin::Stream((streams + i) as u64) },
    )
}

/// The subscribers that stay after a fan-out: those to which the send
/// succeeded, in their order.
pub open spec fn kept(subscribers: Seq<SyncAddress>, delivered: Seq<bool>) -> Seq<SyncAddress>
    decreases subscribers.len(),
{
    if subscribers.len() == 0 || delivered.len() != subscribers.len() {
        Seq::empty()
    } else {
        let rest = kept(subscribers.drop_last(), delivered.drop_last());
        if delivered.last() {
            rest.push(subscribers.last())
        } else {
            rest
        }
    }
}

/// The shutdown request that a signal calls for, if any: interrupt,
/// termination and quit end the process with exit code 0.
pub open spec fn exit_on(kind: SignalType) -> Option<SystemExit> {
    match kind {
        SignalType::Int | SignalType::Term | SignalType::Quit => Some(SystemExit(0)),
        SignalType::Hup | SignalType::Child => None,
    }
}

/// The service that fans process signals out to its subscribers.
pub struct ProcessSignals {
    subscribers: Vec<SyncAddress>,
}

impl View for ProcessSignals {
    type V = Seq<SyncAddress>;

    closed spec fn view(&self) -> Seq<SyncAddress> {
        self.subscribers@
    }
}

impl Default for ProcessSignals {
    fn default() -> (s: ProcessSignals)
        ensures
            s@ == Seq::<SyncAddress>::empty(),
    {
        ProcessSignals { subscribers: Vec::new() }
    }
}

impl ProcessSignals {
    /// The identity of the signal service in the process-wide registry.
    pub fn service_id() -> (id: ServiceId)
        ensures
            id == ServiceId(PROCESS_SIGNALS),
    {
        ServiceId(PROCESS_SIGNALS)
    }

    /// The number of subscribers.
    pub fn len(&self) -> (n: usize)
        ensures
            n == self@.len(),
    {
        self.subscribers.len()
    }

    /// The subscribers, in the order in which they subscribed.
    pub fn subscribers(&self) -> (s: &Vec<SyncAddress>)
        ensures
            s@ == self@,
    {
        &self.subscribers
    }

    /// The service hook: attaches one stream per watched kind of signal to
    /// the service's context and says which kind arrives on which channel.
    pub fn service_started<M>(&mut self, ctx: &mut Context<M>) -> (watches: Vec<Watch>)
        requires
            old(ctx).wf(),
        ensures
            final(ctx).wf(),
            final(self)@ == old(self)@,
            watches@ == watch_plan(old(ctx)@.streams),
            final(ctx)@ == (ContextState {
                streams: old(ctx)@.streams + watches@.len(),
                ..old(ctx)@
            }),
    {
        let kinds = [
            SignalType::Int,
            SignalType::Hup,
            SignalType::Term,
            SignalType::Quit,
            SignalType::Child,
        ];
        let mut watches: Vec<Watch> = Vec::new();
        let mut i: usize = 0;
        let mut open = true;
        while open && i < 5
            invariant
                i <= 5,
                ctx.wf(),
                kinds@ == watched(),
                !open ==> ctx@.streams >= u64::MAX,
                watches@.len() == i,
                ctx@ == (ContextState { streams: old(ctx)@.streams + i as nat, ..old(ctx)@ }),
                forall|k: int|
                    0 <= k < i ==> #[trigger] watches@[k] == (Watch {
                        kind: watched()[k],
                        channel: Origin::Stream((old(ctx)@.streams + k) as u64),
                    }),
            decreases (if open { 1int } else { 0int }), 5 - i,
        {
            match ctx.add_stream() {
                Some(channel) => {
                    watches.push(Watch { kind: kinds[i], channel });
                    i = i + 1;
                },
                None => {
                    open = false;
                },
            }
        }
        assert(watches@ =~= watch_plan(old(ctx)@.streams));
        watches
    }

    /// Adds a subscriber.
    pub fn subscribe(&mut self, msg: Subscribe)
        ensures
            final(self)@ == old(self)@.push(msg.0),
    {
        self.subscribers.push(msg.0);
    }

    /// Fans a signal out: calls `send` once for each subscriber, in order,
    /// with the signal as the message, and keeps exactly the subscribers to
    /// which the send succeeded. Returns, for each subscriber it had, whether
    /// the send succeeded.
    pub fn handle<F: Fn(&SyncAddress, Signal) -> bool>(
        &mut self,
        msg: SignalType,
        send: F,
    ) -> (delivered: Vec<bool>)
        requires
            forall|i: int|
                0 <= i < old(self)@.len() ==> call_requires(
                    send,
                    (&#[trigger] old(self)@[i], Signal(msg)),
                ),
        ensures
            delivered@.len() == old(self)@.len(),
            forall|i: int|
                0 <= i < old(self)@.len() ==> call_ensures(
                    send,
                    (&old(self)@[i], Signal(msg)),
                    #[trigger] delivered@[i],
                ),
            final(self)@ == kept(old(self)@, delivered@),
    {
        let mut delivered: Vec<bool> = Vec::new();
        let mut staying: Vec<SyncAddress> = Vec::new();
        let mut i: usize = 0;
        while i < self.subscribers.len()
            invariant
                i <= self.subscribers.len(),
                self@ == old(self)@,
                delivered@.len() == i,
                forall|k: int|
                    0 <= k < self@.len() ==> call_requires(
                        send,
                        (&#[trigger] self@[k], Signal(msg)),
                    ),
                forall|k: int|
                    0 <= k < i ==> call_ensures(
                        send,
                        (&self@[k], Signal(msg)),
                        #[trigger] delivered@[k],
                    ),
                staying@ == kept(self@.take(i as int), delivered@),
            decreases self.subscribers.len() - i,
        {
            let ghost before = delivered@;
            let ok = send(&self.subscribers[i], Signal(msg));
            delivered.push(ok);
            if ok {
                staying.push(self.subscribers[i]);
            }
            proof {
                assert(self@.take(i as int + 1).drop_last() =~= self@.take(i as int));
                assert(delivered@.drop_last() =~= before);
            }
            i = i + 1;
        }
        assert(self@.take(i as int) =~= self@);
        self.subscribers = staying;
        delivered
    }
}

/// The handler that ends the process on the signals that ask for it.
#[derive(PartialEq, Eq, Structural, Clone, Copy, Debug)]
pub struct DefaultSignalsHandler;

impl Default for DefaultSignalsHandler {
    fn default() -> (h: DefaultSignalsHandler)
        ensures
            h == DefaultSignalsHandler,
    {
        DefaultSignalsHandler
    }
}

impl DefaultSignalsHandler {
    /// The startup hook: says which service to look up in the process-wide
    /// registry and the subscription to send it, which names the handler's
    /// own address.
    pub fn started<M>(&self, ctx: &Context<M>) -> (r: (ServiceId, Subscribe))
        ensures
            r.0 == ServiceId(PROCESS_SIGNALS),
            r.1.0@ == ctx@.actor,
    {
        (ProcessSignals::service_id(), Subscribe(ctx.sync_address()))
    }

    /// Handles a signal: interrupt, termination and quit call for a
    /// shutdown of the process with exit code 0, to be sent to the system;
    /// hang-up and child signals call for nothing.
    pub fn handle(&self, msg: Signal) -> (r: Option<SystemExit>)
        ensures
            r == exit_on(msg.0),
    {
        match msg.0 {
            SignalType::Int => Some(SystemExit(0)),
            SignalType::Hup => None,
            SignalType::Term => Some(SystemExit(0)),
            SignalType::Quit => Some(SystemExit(0)),
            _ => None,
        }
    }
}

/// Whether the send to `subscriber` succeeded in a fan-out to
/// `subscribers` with the outcomes `delivered`.
pub open spec fn reached(
    subscribers: Seq<SyncAddress>,
    delivered: Seq<bool>,
    subscriber: SyncAddress,
) -> bool {
    exists|i: int|
        0 <= i < subscribers.len() && delivered[i] && #[trigger] subscribers[i] == subscriber
}

/// A fan-out keeps every subscriber to which the send succeeded, keeps
/// none to which it failed, and adds none: the subscribers that stay are as
/// many as the sends that succeeded.
pub proof fn lemma_pruned(subscribers: Seq<SyncAddress>, delivered: Seq<bool>)
    requires
        delivered.len() == subscribers.len(),
    ensures
        kept(subscribers, delivered).len() == delivered.filter(|b: bool| b).len(),
        kept(subscribers, delivered).len() <= subscribers.len(),
        forall|i: int|
            0 <= i < subscribers.len() && delivered[i] ==> kept(subscribers, delivered).contains(
                #[trigger] subscribers[i],
            ),
        forall|k: int|
            0 <= k < kept(subscribers, delivered).len() ==> reached(
                subscribers,
                delivered,
                #[trigger] kept(subscribers, delivered)[k],
            ),
    decreases subscribers.len(),
{
    reveal(Seq::filter);
    if subscribers.len() > 0 {
        let front = subscribers.drop_last();
        let flags = delivered.drop_last();
        lemma_pruned(front, flags);
        let rest = kept(front, flags);
        let all = kept(subscribers, delivered);
        assert forall|i: int| 0 <= i < subscribers.len() && delivered[i] implies all.contains(
            #[trigger] subscribers[i],
        ) by {
            if i < front.len() {
                assert(flags[i] && front[i] == subscribers[i]);
                let k = choose|k: int| 0 <= k < rest.len() && rest[k] == front[i];
                assert(all[k] == rest[k]);
            } else {
                assert(all[all.len() - 1] == subscribers[i]);
            }
        }
        assert forall|k: int| 0 <= k < all.len() implies reached(
            subscribers,
            delivered,
            #[trigger] all[k],
        ) by {
            if k < rest.len() {
                assert(reached(front, flags, rest[k]));
                let i = choose|i: int|
                    0 <= i < front.len() && flags[i] && #[trigger] front[i] == rest[k];
                assert(delivered[i] && subscribers[i] == all[k]);
            } else {
                let i = subscribers.len() - 1;
                assert(delivered[i] && subscribers[i] == all[k]);
            }
        }
    }
}

/// A subscriber to which every send succeeds is never dropped.
pub proof fn lemma_all_delivered_keeps_all(subscribers: Seq<SyncAddress>, delivered: Seq<bool>)
    requires
        delivered.len() == subscribers.len(),
        forall|i: int| 0 <= i < delivered.len() ==> delivered[i],
    ensures
        kept(subscribers, delivered) == subscribers,
    decreases subscribers.len(),
{
    if subscribers.len() > 0 {
        lemma_all_delivered_keeps_all(subscribers.drop_last(), delivered.drop_last());
        assert(subscribers.drop_last().push(subscribers.last()) =~= subscribers);
    }
}

} // verus!
