//! The system: the one process-wide coordinator. It keeps the table of
//! running arbiters and carries out the shutdown of the whole process.

use vstd::prelude::*;
use futures::sync::oneshot::Sender;
use tokio_core::reactor::Handle;
use crate::address::{ActorRef, SyncAddress};
use crate::arbiter::{Arbiter, ArbiterState};
use crate::context::{Context, ContextState, Phase};
use crate::ident::is_random_v4;
use crate::mailbox::MailboxState;
use crate::msgs::StartActor;
use crate::registry::Services;
use crate::assoc::{
    assoc_map, has_key, keys_unique, lemma_assoc_domain, lemma_assoc_push, lemma_assoc_remove,
    lemma_assoc_update, lemma_assoc_value, lemma_push_keeps_unique,
};
use crate::handles::{oneshot_send, Handover};
use crate::msgs::{RegisterArbiter, StopArbiter, SystemExit, UnregisterArbiter};

verus! {

/// The table of running arbiters: the key of each and where to reach it, in
/// the order in which they registered.
pub type Arbiters = Seq<(Seq<char>, SyncAddress)>;

/// The mathematical state of the system.
#[verifier::ext_equal]
pub struct SystemState {
    /// The name of the system.
    pub name: Seq<char>,
    /// The running arbiters.
    pub arbiters: Arbiters,
    /// The address of the system arbiter, which hosts the system itself.
    pub system_arbiter: SyncAddress,
    /// Whether the system's own event loop has yet to be told to end.
    pub running: bool,
}

/// The stop orders that a shutdown with `code` sends: one to every
/// registered arbiter other than the system arbiter, in the order of
/// registration.
pub open spec fn stop_orders(arbiters: Arbiters, system_arbiter: SyncAddress, code: i32) -> Seq<
    (SyncAddress, StopArbiter),
> {
    arbiters.filter(|e: (Seq<char>, SyncAddress)| e.1 != system_arbiter).map_values(
        |e: (Seq<char>, SyncAddress)| (e.1, StopArbiter(code)),
    )
}

/// The table after the arbiter with key `key` registers at `addr`: a key
/// that is already there keeps its place and gets the new address.
pub open spec fn registered(arbiters: Arbiters, key: Seq<char>, addr: SyncAddress) -> Arbiters {
    if has_key(arbiters, key) {
        let i = choose|i: int| 0 <= i < arbiters.len() && (#[trigger] arbiters[i]).0 == key;
        arbiters.update(i, (key, addr))
    } else {
        arbiters.push((key, addr))
    }
}

/// The table after the arbiter with key `key` unregisters.
pub open spec fn unregistered(arbiters: Arbiters, key: Seq<char>) -> Arbiters {
    if has_key(arbiters, key) {
        let i = choose|i: int| 0 <= i < arbiters.len() && (#[trigger] arbiters[i]).0 == key;
        arbiters.remove(i)
    } else {
        arbiters
    }
}

/// What a shutdown request yields: the orders to carry out and the exit
/// code of the process.
pub struct Shutdown {
    /// The stop order for each arbiter, to be sent to the address beside it.
    pub stops: Vec<(SyncAddress, StopArbiter)>,
    /// The handover of the exit code to the system's own event loop, or
    /// nothing when an earlier shutdown had ended that loop already.
    pub system_loop: Option<Handover>,
    /// The exit code of the process.
    pub code: i32,
}

/// A message to the system.
#[derive(Debug, PartialEq, Eq)]
pub enum SystemMessage {
    /// An arbiter has started.
    Register(RegisterArbiter),
    /// An arbiter has ended.
    Unregister(UnregisterArbiter),
    /// The process is to shut down.
    Exit(SystemExit),
}

/// What starting the process yields: the record of the system arbiter for
/// the calling thread, the system, and the context of the system as an
/// actor on the system arbiter.
pub struct Boot {
    /// The record of the system arbiter.
    pub arbiter: Arbiter,
    /// The system.
    pub system: System,
    /// The context of the system.
    pub context: Context<SystemMessage>,
}

/// The exit code of the process, given what the system's event loop ended
/// with: the code it was told to end with, or 1 if it ended without one.
pub open spec fn exit_status(ended: Option<i32>) -> i32 {
    match ended {
        Some(code) => code,
        None => 1,
    }
}

/// The process-wide coordinator.
pub struct System {
    name: String,
    arbiters: Vec<(String, SyncAddress)>,
    system_arbiter: SyncAddress,
    stop: Option<Sender<i32>>,
}

impl View for System {
    type V = SystemState;

    closed spec fn view(&self) -> SystemState {
        SystemState {
            name: self.name@,
            arbiters: self.arbiters@.map_values(|e: (String, SyncAddress)| (e.0@, e.1)),
            system_arbiter: self.system_arbiter,
            running: self.stop is Some,
        }
    }
}

impl System {
    /// Whether the system satisfies its invariant: no key is registered
    /// twice.
    pub open spec fn wf(&self) -> bool {
        keys_unique(self@.arbiters)
    }

    /// The arbiters by key.
    pub open spec fn table(&self) -> Map<Seq<char>, SyncAddress> {
        assoc_map(self@.arbiters)
    }

    /// A system named `name`, hosted by the arbiter at `system_arbiter`,
    /// whose own event loop ends when `stop` is completed. No arbiter is
    /// registered yet.
    pub fn new(name: String, system_arbiter: SyncAddress, stop: Sender<i32>) -> (s: System)
        ensures
            s.wf(),
            s@ == (SystemState {
                name: name@,
                arbiters: Seq::empty(),
                system_arbiter,
                running: true,
            }),
    {
        System { name, arbiters: Vec::new(), system_arbiter, stop: Some(stop) }
    }

    /// Starts the process on the calling thread: makes that thread the
    /// system arbiter, named like the system, and starts the system as the
    /// first actor on it. The system arbiter knows the system from the
    /// start. The system's event loop ends when `stop` is completed.
    pub fn boot(name: String, hnd: Handle, stop: Sender<i32>) -> (b: Boot)
        ensures
            b.arbiter.wf(),
            b.system.wf(),
            b.context.wf(),
            is_random_v4(b.arbiter@.id@),
            b.arbiter@ == (ArbiterState {
                id: b.arbiter@.id,
                sys: true,
                name: name@,
                handle: hnd,
                armed: false,
                registry: Services::empty(),
                system: Some(b.arbiter@.system->0),
                system_name: Some(name@),
                system_arbiter: b.arbiter@.system_arbiter,
                system_registry: Services::empty(),
                actors: 2,
            }),
            b.arbiter@.system_arbiter@ == (ActorRef { arbiter: b.arbiter@.id, slot: 0 }),
            b.arbiter@.system->0@ == (ActorRef { arbiter: b.arbiter@.id, slot: 1 }),
            b.system@ == (SystemState {
                name: name@,
                arbiters: Seq::empty(),
                system_arbiter: b.arbiter@.system_arbiter,
                running: true,
            }),
            b.context@ == (ContextState {
                actor: ActorRef { arbiter: b.arbiter@.id, slot: 1 },
                service: false,
                phase: Phase::Created,
                mailbox: MailboxState::<SystemMessage>::fresh(),
                streams: 0,
                continuations: 0,
                hooks: Seq::empty(),
            }),
    {
        let mut arbiter = Arbiter::new_system(name.clone(), hnd);
        let started: Result<Context<SystemMessage>, ()> = arbiter.handle_start(StartActor);
        let context = started.unwrap();
        arbiter.set_system(context.sync_address(), name.clone());
        let system = System::new(name, arbiter.system_arbiter(), stop);
        Boot { arbiter, system, context }
    }

    /// Reads the exit code of the process from what the system's event
    /// loop ended with.
    pub fn exit_code(ended: Option<i32>) -> (code: i32)
        ensures
            code == exit_status(ended),
    {
        match ended {
            Some(code) => code,
            None => 1,
        }
    }

    /// Handles one message to the system. Only a shutdown request yields
    /// orders to carry out.
    pub fn handle(&mut self, msg: SystemMessage) -> (r: Option<Shutdown>)
        requires
            old(self).wf(),
        ensures
            final(self).wf(),
            match msg {
                SystemMessage::Register(m) => r is None && final(self)@ == (SystemState {
                    arbiters: registered(old(self)@.arbiters, m.0@, m.1),
                    ..old(self)@
                }),
                SystemMessage::Unregister(m) => r is None && final(self)@ == (SystemState {
                    arbiters: unregistered(old(self)@.arbiters, m.0@),
                    ..old(self)@
                }),
                SystemMessage::Exit(m) => r is Some && r->0.code == m.0 && r->0.stops@
                    == stop_orders(old(self)@.arbiters, old(self)@.system_arbiter, m.0)
                    && (r->0.system_loop is Some <==> old(self)@.running) && (r->0.system_loop
                    matches Some(handover) ==> handover@.code == m.0) && final(self)@ == (
                    SystemState { running: false, ..old(self)@ }),
            },
    {
        match msg {
            SystemMessage::Register(m) => {
                self.register(m);
                None
            },
            SystemMessage::Unregister(m) => {
                self.unregister(m);
                None
            },
            SystemMessage::Exit(m) => Some(self.handle_exit(m)),
        }
    }

    /// The name of the system.
    pub fn name(&self) -> (n: String)
        ensures
            n@ == self@.name,
    {
        self.name.clone()
    }

    /// The address of the system arbiter.
    pub fn system_arbiter(&self) -> (a: SyncAddress)
        ensures
            a == self@.system_arbiter,
    {
        self.system_arbiter
    }

    /// The number of registered arbiters.
    pub fn len(&self) -> (n: usize)
        ensures
            n == self@.arbiters.len(),
    {
        self.arbiters.len()
    }

    fn position(&self, key: &String) -> (r: Option<usize>)
        requires
            self.wf(),
        ensures
            r is Some <==> has_key(self@.arbiters, key@),
            r matches Some(i) ==> i < self@.arbiters.len() && self@.arbiters[i as int].0 == key@
                && i as int == (choose|i: int|
                0 <= i < self@.arbiters.len() && (#[trigger] self@.arbiters[i]).0 == key@),
    {
        let mut i: usize = 0;
        while i < self.arbiters.len()
            invariant
                i <= self.arbiters.len(),
                self.wf(),
                forall|j: int| 0 <= j < i ==> (#[trigger] self@.arbiters[j]).0 != key@,
            decreases self.arbiters.len() - i,
        {
            if self.arbiters[i].0 == *key {
                proof {
                    let arbiters = self@.arbiters;
                    assert(arbiters[i as int].0 == key@);
                    let c = choose|c: int|
                        0 <= c < arbiters.len() && (#[trigger] arbiters[c]).0 == key@;
                    if c < i {
                        assert(arbiters[c].0 != arbiters[i as int].0);
                    } else if c > i {
                        assert(arbiters[i as int].0 != arbiters[c].0);
                    }
                }
                return Some(i);
            }
            i = i + 1;
        }
        None
    }

    /// Where the arbiter with key `key` can be reached, if it is registered.
    pub fn lookup(&self, key: &String) -> (r: Option<SyncAddress>)
        requires
            self.wf(),
        ensures
            r is Some <==> self.table().contains_key(key@),
            r is Some ==> r->0 == self.table()[key@],
    {
        proof {
            lemma_assoc_domain(self@.arbiters, key@);
        }
        match self.position(key) {
            Some(i) => {
                proof {
                    lemma_assoc_value(self@.arbiters, i as int);
                }
                Some(self.arbiters[i].1)
            },
            None => None,
        }
    }

    /// Registers an arbiter. Registering a key again replaces its address:
    /// the last registration wins.
    pub fn register(&mut self, msg: RegisterArbiter)
        requires
            old(self).wf(),
        ensures
            final(self).wf(),
            final(self)@ == (SystemState {
                arbiters: registered(old(self)@.arbiters, msg.0@, msg.1),
                ..old(self)@
            }),
            final(self).table() == old(self).table().insert(msg.0@, msg.1),
    {
        let RegisterArbiter(key, addr) = msg;
        let ghost before = self@.arbiters;
        match self.position(&key) {
            Some(i) => {
                proof {
                    lemma_assoc_update(before, i as int, addr);
                }
                self.arbiters.set(i, (key, addr));
                assert(self@.arbiters =~= before.update(i as int, (key@, addr)));
            },
            None => {
                proof {
                    lemma_push_keeps_unique(before, key@, addr);
                    lemma_assoc_push(before, key@, addr);
                }
                self.arbiters.push((key, addr));
                assert(self@.arbiters =~= before.push((key@, addr)));
            },
        }
    }

    /// Unregisters an arbiter. Unregistering a key that is not registered
    /// changes nothing.
    pub fn unregister(&mut self, msg: UnregisterArbiter)
        requires
            old(self).wf(),
        ensures
            final(self).wf(),
            final(self)@ == (SystemState {
                arbiters: unregistered(old(self)@.arbiters, msg.0@),
                ..old(self)@
            }),
            final(self).table() == old(self).table().remove(msg.0@),
    {
        let ghost before = self@.arbiters;
        match self.position(&msg.0) {
            Some(i) => {
                proof {
                    lemma_assoc_remove(before, i as int);
                }
                let _ = self.arbiters.remove(i);
                assert(self@.arbiters =~= before.remove(i as int));
            },
            None => {
                proof {
                    lemma_assoc_domain(before, msg.0@);
                    assert(self.table().remove(msg.0@) =~= self.table());
                }
            },
        }
    }

    /// Shuts the process down with the exit code of `msg`: orders every
    /// registered arbiter other than the system arbiter to stop with that
    /// code, then hands that code to the system's own event loop, which
    /// ends with it. The table is left as it is: each arbiter unregisters
    /// as it ends.
    pub fn handle_exit(&mut self, msg: SystemExit) -> (r: Shutdown)
        requires
            old(self).wf(),
        ensures
            final(self).wf(),
            final(self)@ == (SystemState { running: false, ..old(self)@ }),
            r.code == msg.0,
            r.stops@ == stop_orders(old(self)@.arbiters, old(self)@.system_arbiter, msg.0),
            r.system_loop is Some <==> old(self)@.running,
            r.system_loop matches Some(handover) ==> handover@.code == msg.0,
    {
        let code = msg.0;
        let stops = self.broadcast(code);
        let system_loop = match self.stop.take() {
            Some(stop) => Some(oneshot_send(stop, code)),
            None => None,
        };
        Shutdown { stops, system_loop, code }
    }

    /// The stop orders of a shutdown with `code`.
    pub fn broadcast(&self, code: i32) -> (stops: Vec<(SyncAddress, StopArbiter)>)
        ensures
            stops@ == stop_orders(self@.arbiters, self@.system_arbiter, code),
    {
        let mut stops: Vec<(SyncAddress, StopArbiter)> = Vec::new();
        let mut i: usize = 0;
        proof {
            reveal(Seq::filter);
            assert(self@.arbiters.take(0) =~= Seq::empty());
        }
        while i < self.arbiters.len()
            invariant
                i <= self.arbiters.len(),
                stops@ == stop_orders(self@.arbiters.take(i as int), self@.system_arbiter, code),
            decreases self.arbiters.len() - i,
        {
            let addr = self.arbiters[i].1;
            proof {
                lemma_stop_orders_push(
                    self@.arbiters.take(i as int),
                    self@.arbiters[i as int],
                    self@.system_arbiter,
                    code,
                );
                assert(self@.arbiters.take(i as int + 1) =~= self@.arbiters.take(i as int).push(
                    self@.arbiters[i as int],
                ));
            }
            if !addr.same(&self.system_arbiter) {
                stops.push((addr, StopArbiter(code)));
            }
            i = i + 1;
        }
        assert(self@.arbiters.take(i as int) =~= self@.arbiters);
        stops
    }
}

/// Registering is idempotent and the last registration wins: registering a
/// key at an address a second time changes nothing, and of two
/// registrations of a key the later one decides the address. Unregistering
/// is idempotent too, and undoes a registration of a key that was new.
pub proof fn lemma_registration(
    arbiters: Arbiters,
    key: Seq<char>,
    first: SyncAddress,
    last: SyncAddress,
)
    requires
        keys_unique(arbiters),
    ensures
        keys_unique(registered(arbiters, key, last)),
        keys_unique(unregistered(arbiters, key)),
        assoc_map(registered(arbiters, key, last)) == assoc_map(arbiters).insert(key, last),
        assoc_map(unregistered(arbiters, key)) == assoc_map(arbiters).remove(key),
        registered(registered(arbiters, key, last), key, last) == registered(arbiters, key, last),
        registered(registered(arbiters, key, first), key, last) == registered(
            arbiters,
            key,
            last,
        ),
        unregistered(unregistered(arbiters, key), key) == unregistered(arbiters, key),
        !has_key(arbiters, key) ==> unregistered(registered(arbiters, key, last), key)
            == arbiters,
{
    lemma_registered(arbiters, key, first);
    lemma_registered(arbiters, key, last);
    lemma_unregistered(arbiters, key);
    lemma_registered_again(arbiters, key, last, last);
    lemma_registered_again(arbiters, key, first, last);
    let gone = unregistered(arbiters, key);
    lemma_assoc_domain(gone, key);
    assert(!has_key(gone, key));
    if !has_key(arbiters, key) {
        let more = arbiters.push((key, last));
        assert(more[arbiters.len() as int].0 == key);
        let i = choose|i: int| 0 <= i < more.len() && (#[trigger] more[i]).0 == key;
        if i < arbiters.len() {
            assert(arbiters[i].0 == key);
        }
        assert(more.remove(i) =~= arbiters);
    }
}

proof fn lemma_registered(arbiters: Arbiters, key: Seq<char>, addr: SyncAddress)
    requires
        keys_unique(arbiters),
    ensures
        keys_unique(registered(arbiters, key, addr)),
        assoc_map(registered(arbiters, key, addr)) == assoc_map(arbiters).insert(key, addr),
        has_key(registered(arbiters, key, addr), key),
{
    let after = registered(arbiters, key, addr);
    if has_key(arbiters, key) {
        let i = choose|i: int| 0 <= i < arbiters.len() && (#[trigger] arbiters[i]).0 == key;
        lemma_assoc_update(arbiters, i, addr);
        assert(after[i].0 == key);
    } else {
        lemma_push_keeps_unique(arbiters, key, addr);
        lemma_assoc_push(arbiters, key, addr);
        assert(after[arbiters.len() as int].0 == key);
    }
}

proof fn lemma_unregistered(arbiters: Arbiters, key: Seq<char>)
    requires
        keys_unique(arbiters),
    ensures
        keys_unique(unregistered(arbiters, key)),
        assoc_map(unregistered(arbiters, key)) == assoc_map(arbiters).remove(key),
{
    if has_key(arbiters, key) {
        let i = choose|i: int| 0 <= i < arbiters.len() && (#[trigger] arbiters[i]).0 == key;
        lemma_assoc_remove(arbiters, i);
    } else {
        lemma_assoc_domain(arbiters, key);
        assert(assoc_map(arbiters).remove(key) =~= assoc_map(arbiters));
    }
}

proof fn lemma_registered_again(
    arbiters: Arbiters,
    key: Seq<char>,
    first: SyncAddress,
    last: SyncAddress,
)
    requires
        keys_unique(arbiters),
    ensures
        registered(registered(arbiters, key, first), key, last) == registered(
            arbiters,
            key,
            last,
        ),
{
    let once = registered(arbiters, key, first);
    lemma_registered(arbiters, key, first);
    let j = choose|j: int| 0 <= j < once.len() && (#[trigger] once[j]).0 == key;
    if has_key(arbiters, key) {
        let i = choose|i: int| 0 <= i < arbiters.len() && (#[trigger] arbiters[i]).0 == key;
        assert(once[i].0 == key);
        if i < j {
            assert(once[i].0 != once[j].0);
        } else if j < i {
            assert(once[j].0 != once[i].0);
        }
        assert(once.update(j, (key, last)) =~= arbiters.update(i, (key, last)));
    } else {
        let n = arbiters.len() as int;
        assert(once[n].0 == key);
        if j < n {
            assert(arbiters[j].0 == key);
        }
        assert(once.update(j, (key, last)) =~= arbiters.push((key, last)));
    }
}

/// The stop orders for a table with one more arbiter at its end.
pub proof fn lemma_stop_orders_push(
    arbiters: Arbiters,
    last: (Seq<char>, SyncAddress),
    system_arbiter: SyncAddress,
    code: i32,
)
    ensures
        stop_orders(arbiters.push(last), system_arbiter, code) == (if last.1 == system_arbiter {
            stop_orders(arbiters, system_arbiter, code)
        } else {
            stop_orders(arbiters, system_arbiter, code).push((last.1, StopArbiter(code)))
        }),
{
    reveal(Seq::filter);
    assert(arbiters.push(last).drop_last() =~= arbiters);
}

/// Shutdown is complete: every registered arbiter other than the system
/// arbiter is sent a stop order, and every order carries the exit code of
/// the shutdown. Nothing else is ordered to stop.
pub proof fn lemma_shutdown_complete(arbiters: Arbiters, system_arbiter: SyncAddress, code: i32)
    ensures
        forall|i: int|
            0 <= i < arbiters.len() && (#[trigger] arbiters[i]).1 != system_arbiter ==> stop_orders(
                arbiters,
                system_arbiter,
                code,
            ).contains((arbiters[i].1, StopArbiter(code))),
        forall|k: int|
            0 <= k < stop_orders(arbiters, system_arbiter, code).len() ==> {
                let order = #[trigger] stop_orders(arbiters, system_arbiter, code)[k];
                &&& order.1 == StopArbiter(code)
                &&& order.0 != system_arbiter
                &&& exists|i: int| 0 <= i < arbiters.len() && (#[trigger] arbiters[i]).1 == order.0
            },
    decreases arbiters.len(),
{
    let orders = stop_orders(arbiters, system_arbiter, code);
    if arbiters.len() > 0 {
        let front = arbiters.drop_last();
        let last = arbiters.last();
        lemma_shutdown_complete(front, system_arbiter, code);
        assert(arbiters =~= front.push(last));
        lemma_stop_orders_push(front, last, system_arbiter, code);
        let before = stop_orders(front, system_arbiter, code);
        assert forall|i: int|
            0 <= i < arbiters.len() && (#[trigger] arbiters[i]).1
                != system_arbiter implies orders.contains((arbiters[i].1, StopArbiter(code))) by {
            if i < front.len() {
                assert(front[i].1 != system_arbiter);
                let k = choose|k: int|
                    0 <= k < before.len() && before[k] == (front[i].1, StopArbiter(code));
                assert(orders[k] == before[k]);
            } else {
                assert(orders[orders.len() - 1] == (last.1, StopArbiter(code)));
            }
        }
        assert forall|k: int| 0 <= k < orders.len() implies {
            let order = #[trigger] orders[k];
            &&& order.1 == StopArbiter(code)
            &&& order.0 != system_arbiter
            &&& exists|i: int| 0 <= i < arbiters.len() && (#[trigger] arbiters[i]).1 == order.0
        } by {
            if k < before.len() {
                let order = before[k];
                let i = choose|i: int| 0 <= i < front.len() && (#[trigger] front[i]).1 == order.0;
                assert(arbiters[i].1 == order.0);
            } else {
                assert(arbiters[arbiters.len() - 1].1 == orders[k].0);
            }
        }
    } else {
        reveal(Seq::filter);
    }
}

/// Shutdown ends every arbiter: an arbiter that is registered, is not the
/// system arbiter and is reached at its own address is sent a stop order
/// with the exit code, and once it has handled that order its event loop
/// can no longer be told to end, because it has been.
pub proof fn lemma_shutdown_ends_arbiter(
    arbiters: Arbiters,
    system_arbiter: SyncAddress,
    code: i32,
    i: int,
    arbiter: ArbiterState,
)
    requires
        0 <= i < arbiters.len(),
        arbiters[i].1 != system_arbiter,
        arbiters[i].1@ == arbiter.actor(),
        !arbiter.sys,
    ensures
        stop_orders(arbiters, system_arbiter, code).contains((arbiters[i].1, StopArbiter(code))),
        !arbiter.after_stop().armed,
        exit_status(Some(code)) == code,
{
    lemma_shutdown_complete(arbiters, system_arbiter, code);
}

} // verus!
