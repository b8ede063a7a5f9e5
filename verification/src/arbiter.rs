//! The arbiter: one thread, one event loop, and the actors it hosts.
//!
//! An [`Arbiter`] value is the record that a running arbiter keeps on its
//! own thread. It exists only on such a thread, so whoever holds one may
//! read the arbiter's name, address and handles from it. The record of a
//! spawned arbiter is made in two steps, because it is assembled on two
//! threads: [`Arbiter::seed`] gathers, on the spawning thread, what the new
//! thread must be given, and [`Arbiter::new`] builds the record on the new
//! thread from that seed and the new thread's own reactor handles.

use vstd::prelude::*;
use vstd::string::*;
use futures::sync::oneshot::Sender;
use tokio_core::reactor::Handle;
use crate::address::{route_of, ActorRef, Address, Route, SyncAddress};
use crate::context::{Context, ContextState, Phase};
use crate::handles::{oneshot_send, Handover};
use crate::ident::{hyphenated_text, is_random_v4, simple_text, ArbiterId};
use crate::mailbox::MailboxState;
use crate::msgs::{Execute, RegisterArbiter, Response, StartActor, StopArbiter, UnregisterArbiter};
use crate::registry::{after, resolve, Registry, ServiceId, Services, SystemRegistry};

verus! {

/// The text that Rust's `Debug` formatting gives for the string `s`: `s` in
/// double quotes, with the characters that need it escaped.
pub uninterp spec fn debug_text(s: Seq<char>) -> Seq<char>;

/// Formats `s` with `{:?}`, that is with `<str as core::fmt::Debug>::fmt`.
///
/// Trusted: the result is a function of the characters of `s` alone, which
/// is given the name [`debug_text`].
#[verifier::external_body]
fn debug_format(s: &str) -> (r: String)
    ensures
        r@ == debug_text(s@),
{
    format!("{:?}", s)
}

/// The name of an arbiter's thread, put together from the quoted text of
/// its identifier and the quoted text of the name it was asked for under,
/// if any.
pub open spec fn joined_name(quoted_id: Seq<char>, quoted_name: Option<Seq<char>>) -> Seq<char> {
    match quoted_name {
        Some(n) => "arbiter:"@ + quoted_id + ":"@ + n,
        None => "arbiter:"@ + quoted_id,
    }
}

/// The name of the thread of the arbiter with identifier `id`, which was
/// asked for under the name `name`, if any: both are quoted as `Debug`
/// formatting quotes a string.
pub open spec fn thread_name(id: u128, name: Option<Seq<char>>) -> Seq<char> {
    joined_name(
        debug_text(hyphenated_text(id)),
        match name {
            Some(n) => Some(debug_text(n)),
            None => None,
        },
    )
}

/// Puts the name of an arbiter's thread together from the quoted text of
/// its identifier and the quoted text of the requested name, if any.
pub fn join_name(quoted_id: &str, quoted_name: Option<&str>) -> (name: String)
    ensures
        name@ == joined_name(
            quoted_id@,
            match quoted_name {
                Some(n) => Some(n@),
                None => None,
            },
        ),
{
    let mut name = String::from_str("arbiter:");
    name.append(quoted_id);
    match quoted_name {
        Some(n) => {
            name.append(":");
            name.append(n);
        },
        None => {},
    }
    name
}

/// What the thread that spawns an arbiter hands to the new thread.
pub struct Seed {
    /// The identifier of the new arbiter.
    pub id: ArbiterId,
    /// The name of the new arbiter and of its thread.
    pub name: String,
    /// The address of the system.
    pub system: SyncAddress,
    /// The name of the system.
    pub system_name: String,
    /// The address of the system arbiter.
    pub system_arbiter: SyncAddress,
    /// A copy of the process-wide registry as the spawning thread knows it.
    pub system_registry: SystemRegistry,
}

/// The mathematical state of an arbiter's record.
#[verifier::ext_equal]
pub struct ArbiterState {
    /// The identifier of the arbiter.
    pub id: ArbiterId,
    /// Whether this is the system arbiter.
    pub sys: bool,
    /// The name of the arbiter.
    pub name: Seq<char>,
    /// The handle to the arbiter's event loop.
    pub handle: Handle,
    /// Whether the arbiter's event loop can still be told to end.
    pub armed: bool,
    /// The arbiter's own registry.
    pub registry: Services,
    /// The address of the system, once it is known.
    pub system: Option<SyncAddress>,
    /// The name of the system, once it is known.
    pub system_name: Option<Seq<char>>,
    /// The address of the system arbiter.
    pub system_arbiter: SyncAddress,
    /// The process-wide registry as this arbiter knows it.
    pub system_registry: Services,
    /// The number of actor slots handed out, the arbiter's own included.
    pub actors: nat,
}

impl ArbiterState {
    /// The arbiter's own place among the actors it hosts.
    pub open spec fn actor(self) -> ActorRef {
        ActorRef { arbiter: self.id, slot: 0 }
    }

    /// The state after a stop request: the system arbiter ignores it, any
    /// other arbiter can no longer be told to end.
    pub open spec fn after_stop(self) -> ArbiterState {
        if self.sys {
            self
        } else {
            ArbiterState { armed: false, ..self }
        }
    }
}

/// What an arbiter did with a stop request.
#[derive(Clone, Copy, PartialEq, Eq, Debug)]
pub enum StopOutcome {
    /// The system arbiter does not stop on request: the process ends only
    /// through the system.
    Rejected,
    /// The code of the request was handed to the arbiter's event loop; the
    /// handover says whether the loop was still there to take it.
    Ended(Handover),
    /// The arbiter had been told to end before.
    AlreadyStopped,
}

/// Why spawning an arbiter failed.
#[derive(Clone, Copy, PartialEq, Eq, Structural, Debug)]
pub enum SpawnError {
    /// The new thread ended, or could not be created, before the arbiter
    /// on it had started.
    NotStarted,
    /// The thread answered with the address of something other than the
    /// arbiter that was to be spawned.
    Mismatch,
}

/// What the spawning thread makes of the new thread's answer: the address
/// of the arbiter with identifier `id` confirms the spawn.
pub open spec fn confirmed(id: ArbiterId, reply: Option<SyncAddress>) -> Result<
    SyncAddress,
    SpawnError,
> {
    match reply {
        Some(addr) => if addr@ == (ActorRef { arbiter: id, slot: 0 }) {
            Ok(addr)
        } else {
            Err(SpawnError::Mismatch)
        },
        None => Err(SpawnError::NotStarted),
    }
}

/// What a lookup in a registry came to.
pub enum Lookup<H, M> {
    /// The service runs already, at this address.
    Cached(H),
    /// The service was not running. It has been given a slot on this
    /// arbiter and this context; its address is now cached.
    Started(Context<M>),
    /// The service was not running and the arbiter has no slot left.
    Exhausted,
}

/// The record of a running arbiter.
pub struct Arbiter {
    id: ArbiterId,
    sys: bool,
    name: String,
    hnd: Handle,
    stop: Option<Sender<i32>>,
    reg: Registry,
    system: Option<SyncAddress>,
    sysname: Option<String>,
    sysarb: SyncAddress,
    sysreg: SystemRegistry,
    actors: u64,
}

impl View for Arbiter {
    type V = ArbiterState;

    closed spec fn view(&self) -> ArbiterState {
        ArbiterState {
            id: self.id,
            sys: self.sys,
            name: self.name@,
            handle: self.hnd,
            armed: self.stop is Some,
            registry: self.reg@,
            system: self.system,
            system_name: match self.sysname {
                Some(n) => Some(n@),
                None => None,
            },
            system_arbiter: self.sysarb,
            system_registry: self.sysreg@,
            actors: self.actors as nat,
        }
    }
}

impl Arbiter {
    /// Whether the record satisfies its invariant.
    pub closed spec fn wf(&self) -> bool {
        &&& self.actors >= 1
        &&& self.sysreg.wf()
        &&& self.reg.wf()
        &&& self.sys ==> self.sysarb@ == self@.actor() && self.stop is None
        &&& !self.sys ==> self.system is Some && self.sysname is Some
    }

    /// What the invariant says of the state.
    pub proof fn lemma_wf(&self)
        requires
            self.wf(),
        ensures
            self@.actors >= 1,
            self@.actors <= u64::MAX,
            self@.sys ==> self@.system_arbiter@ == self@.actor() && !self@.armed,
            !self@.sys ==> self@.system is Some && self@.system_name is Some,
    {
    }

    /// Gathers, on the thread of this arbiter, what a new arbiter's thread
    /// is to be given: a fresh random identifier, the name of the new
    /// arbiter, and this arbiter's knowledge of the system.
    pub fn seed(&self, name: Option<String>) -> (seed: Seed)
        requires
            self.wf(),
            self@.system is Some,
            self@.system_name is Some,
        ensures
            is_random_v4(seed.id@),
            seeded(self@, seed.id, name, seed),
            seed.system_registry.wf(),
    {
        self.seed_with(ArbiterId::generate(), name)
    }

    /// Gathers what the thread of a new arbiter with identifier `id` is to
    /// be given: its name, which is made of the identifier and of the
    /// requested name, and this arbiter's knowledge of the system.
    pub fn seed_with(&self, id: ArbiterId, name: Option<String>) -> (seed: Seed)
        requires
            self.wf(),
            self@.system is Some,
            self@.system_name is Some,
        ensures
            seeded(self@, id, name, seed),
            seed.system_registry.wf(),
    {
        let system = self.system.unwrap();
        let system_name = self.sysname.as_ref().unwrap().clone();
        let quoted_id = debug_format(id.hyphenated().as_str());
        let thread = match name {
            Some(n) => {
                let quoted_name = debug_format(n.as_str());
                join_name(quoted_id.as_str(), Some(quoted_name.as_str()))
            },
            None => join_name(quoted_id.as_str(), None),
        };
        Seed {
            id,
            name: thread,
            system,
            system_name,
            system_arbiter: self.sysarb,
            system_registry: self.sysreg.copy(),
        }
    }

    /// Builds, on the new thread, the record of a spawned arbiter from the
    /// seed it was given, the handle of the thread's event loop and the
    /// sender that ends that loop. The arbiter takes slot 0 of its own
    /// actors and starts with an empty registry of its own.
    pub fn new(seed: Seed, hnd: Handle, stop: Sender<i32>) -> (a: Arbiter)
        requires
            seed.system_registry.wf(),
        ensures
            a.wf(),
            a@ == (ArbiterState {
                id: seed.id,
                sys: false,
                name: seed.name@,
                handle: hnd,
                armed: true,
                registry: Services::empty(),
                system: Some(seed.system),
                system_name: Some(seed.system_name@),
                system_arbiter: seed.system_arbiter,
                system_registry: seed.system_registry@,
                actors: 1,
            }),
    {
        Arbiter {
            id: seed.id,
            sys: false,
            name: seed.name,
            hnd,
            stop: Some(stop),
            reg: Registry::new(),
            system: Some(seed.system),
            sysname: Some(seed.system_name),
            sysarb: seed.system_arbiter,
            sysreg: seed.system_registry,
            actors: 1,
        }
    }

    /// Reads, on the spawning thread, the answer of the new thread of the
    /// arbiter with identifier `id`: the arbiter's address once it has
    /// started, or nothing if the thread ended before that. A spawn that
    /// did not succeed is an error for the caller, not a wait without end.
    pub fn confirm(id: ArbiterId, reply: Option<SyncAddress>) -> (r: Result<
        SyncAddress,
        SpawnError,
    >)
        ensures
            r == confirmed(id, reply),
    {
        match reply {
            Some(addr) => {
                if addr.same(&SyncAddress::new(id, 0)) {
                    Ok(addr)
                } else {
                    Err(SpawnError::Mismatch)
                }
            },
            None => Err(SpawnError::NotStarted),
        }
    }

    /// Builds the record of the system arbiter on the thread that starts
    /// the process. It gets a fresh random identifier, an empty registry of
    /// its own and the empty process-wide registry; it is its own system
    /// arbiter. The system's address and name are not known yet.
    pub fn new_system(name: String, hnd: Handle) -> (a: Arbiter)
        ensures
            a.wf(),
            is_random_v4(a@.id@),
            a@ == root_state(a@.id, name@, hnd, a@.system_arbiter),
            a@.system_arbiter@ == a@.actor(),
    {
        Self::new_system_with(ArbiterId::generate(), name, hnd)
    }

    /// Builds the record of the system arbiter with identifier `id`.
    pub fn new_system_with(id: ArbiterId, name: String, hnd: Handle) -> (a: Arbiter)
        ensures
            a.wf(),
            a@ == root_state(id, name@, hnd, a@.system_arbiter),
            a@.system_arbiter@ == a@.actor(),
    {
        Arbiter {
            id,
            sys: true,
            name,
            hnd,
            stop: None,
            reg: Registry::new(),
            system: None,
            sysname: None,
            sysarb: SyncAddress::new(id, 0),
            sysreg: SystemRegistry::new(),
            actors: 1,
        }
    }

    /// Records the address and the name of the system.
    pub fn set_system(&mut self, addr: SyncAddress, name: String)
        requires
            old(self).wf(),
        ensures
            final(self).wf(),
            final(self)@ == (ArbiterState {
                system: Some(addr),
                system_name: Some(name@),
                ..old(self)@
            }),
    {
        self.system = Some(addr);
        self.sysname = Some(name);
    }

    /// The identifier of this arbiter.
    pub fn id(&self) -> (id: ArbiterId)
        ensures
            id == self@.id,
    {
        self.id
    }

    /// Whether this is the system arbiter.
    pub fn is_system(&self) -> (b: bool)
        ensures
            b == self@.sys,
    {
        self.sys
    }

    /// The name of this arbiter.
    pub fn name(&self) -> (n: String)
        ensures
            n@ == self@.name,
    {
        self.name.clone()
    }

    /// The same-thread address of this arbiter.
    pub fn arbiter(&self) -> (a: Address)
        ensures
            a@ == self@.actor(),
    {
        Address::new(self.id, 0)
    }

    /// Whether the address of the system is known.
    pub fn has_system(&self) -> (b: bool)
        ensures
            b == (self@.system is Some && self@.system_name is Some),
    {
        self.system.is_some() && self.sysname.is_some()
    }

    /// The address of the system.
    pub fn system(&self) -> (a: SyncAddress)
        requires
            self@.system is Some,
        ensures
            a == self@.system->0,
    {
        self.system.unwrap()
    }

    /// The address of the system arbiter.
    pub fn system_arbiter(&self) -> (a: SyncAddress)
        ensures
            a == self@.system_arbiter,
    {
        self.sysarb
    }

    /// The name of the system.
    pub fn system_name(&self) -> (n: String)
        requires
            self@.system_name is Some,
        ensures
            n@ == self@.system_name->0,
    {
        self.sysname.as_ref().unwrap().clone()
    }

    /// The process-wide registry as this arbiter knows it.
    pub fn system_registry(&self) -> (r: &SystemRegistry)
        requires
            self.wf(),
        ensures
            r.wf(),
            r@ == self@.system_registry,
    {
        &self.sysreg
    }

    /// The handle to this arbiter's event loop.
    pub fn handle(&self) -> (h: &Handle)
        ensures
            *h == self@.handle,
    {
        &self.hnd
    }

    /// This arbiter's own registry: the one registry of this arbiter, on
    /// every call.
    pub fn registry(&self) -> (r: &Registry)
        requires
            self.wf(),
        ensures
            r.wf(),
            r@ == self@.registry,
    {
        &self.reg
    }

    /// The message that registers this arbiter with the system when it has
    /// started: its key and its address.
    pub fn started(&self) -> (msg: RegisterArbiter)
        ensures
            msg.0@ == simple_text(self@.id@),
            msg.1@ == self@.actor(),
    {
        RegisterArbiter(self.id.simple(), SyncAddress::new(self.id, 0))
    }

    /// The message that unregisters this arbiter from the system when its
    /// event loop has ended.
    pub fn finished(&self) -> (msg: UnregisterArbiter)
        ensures
            msg.0@ == simple_text(self@.id@),
    {
        UnregisterArbiter(self.id.simple())
    }

    /// Handles a stop request. The system arbiter rejects it and stays as
    /// it is. Any other arbiter hands the code of the request to its event
    /// loop, which ends with it; it can do so once.
    pub fn handle_stop(&mut self, msg: StopArbiter) -> (r: StopOutcome)
        requires
            old(self).wf(),
        ensures
            final(self).wf(),
            final(self)@ == old(self)@.after_stop(),
            old(self)@.sys ==> r == StopOutcome::Rejected,
            !old(self)@.sys && !old(self)@.armed ==> r == StopOutcome::AlreadyStopped,
            !old(self)@.sys && old(self)@.armed ==> r is Ended && r->Ended_0@.code == msg.0,
    {
        if self.sys {
            return StopOutcome::Rejected;
        }
        match self.stop.take() {
            Some(stop) => {
                let handed = oneshot_send(stop, msg.0);
                Self::stop_outcome(false, Some(handed))
            },
            None => StopOutcome::AlreadyStopped,
        }
    }

    /// What a stop request comes to, for the system arbiter or another,
    /// given the handover to its event loop, if the channel was still there
    /// to be tried.
    pub fn stop_outcome(sys: bool, handed: Option<Handover>) -> (r: StopOutcome)
        ensures
            r == (if sys {
                StopOutcome::Rejected
            } else {
                match handed {
                    Some(handover) => StopOutcome::Ended(handover),
                    None => StopOutcome::AlreadyStopped,
                }
            }),
    {
        if sys {
            StopOutcome::Rejected
        } else {
            match handed {
                Some(handover) => StopOutcome::Ended(handover),
                None => StopOutcome::AlreadyStopped,
            }
        }
    }

    fn host<M>(&mut self, service: bool) -> (r: Option<Context<M>>)
        requires
            old(self).wf(),
        ensures
            final(self).wf(),
            old(self)@.actors < u64::MAX ==> r is Some && r->0.wf() && r->0@ == hosted::<M>(
                old(self)@,
                service,
            ) && final(self)@ == (ArbiterState { actors: old(self)@.actors + 1, ..old(self)@ }),
            old(self)@.actors >= u64::MAX ==> r is None && final(self)@ == old(self)@,
    {
        if self.actors < u64::MAX {
            let addr = Address::new(self.id, self.actors);
            self.actors = self.actors + 1;
            Some(Context::new(addr, service))
        } else {
            None
        }
    }

    /// Handles a request to start an actor on this arbiter's thread: gives
    /// the new actor the next free slot and returns its context, through
    /// which its address is had. Fails when no slot is left.
    pub fn handle_start<M>(&mut self, msg: StartActor) -> (r: Result<Context<M>, ()>)
        requires
            old(self).wf(),
        ensures
            final(self).wf(),
            old(self)@.actors < u64::MAX ==> r is Ok && r->Ok_0.wf() && r->Ok_0@ == hosted::<M>(
                old(self)@,
                false,
            ) && final(self)@ == (ArbiterState { actors: old(self)@.actors + 1, ..old(self)@ }),
            old(self)@.actors >= u64::MAX ==> r is Err && final(self)@ == old(self)@,
    {
        match self.host(false) {
            Some(ctx) => Ok(ctx),
            None => Err(()),
        }
    }

    /// Looks `service` up in this arbiter's own registry. If it does not
    /// run yet, it is given the next free slot of this arbiter and a new
    /// context marked as a service, and its address is cached.
    pub fn service<M>(&mut self, service: ServiceId) -> (r: Lookup<Address, M>)
        requires
            old(self).wf(),
        ensures
            final(self).wf(),
            final(self)@ == after_service(old(self)@, service),
            match r {
                Lookup::Cached(addr) => old(self)@.registry.contains_key(service) && addr@
                    == old(self)@.registry[service],
                Lookup::Started(ctx) => !old(self)@.registry.contains_key(service)
                    && old(self)@.actors < u64::MAX && ctx.wf() && ctx@ == hosted::<M>(
                    old(self)@,
                    true,
                ),
                Lookup::Exhausted => !old(self)@.registry.contains_key(service)
                    && old(self)@.actors >= u64::MAX,
            },
    {
        let cached = self.reg.query(service);
        match cached {
            Some(addr) => Lookup::Cached(addr),
            None => match self.host(true) {
                Some(ctx) => {
                    let addr = ctx.address();
                    let _ = self.reg.get(service, || -> (a: Address)
                        ensures
                            a == addr,
                        { addr });
                    Lookup::Started(ctx)
                },
                None => Lookup::Exhausted,
            },
        }
    }

    /// Looks `service` up in the process-wide registry, of which the system
    /// arbiter holds the authoritative table. If the service does not run
    /// yet, it is given the next free slot of the system arbiter and a new
    /// context marked as a service, and its address is cached.
    pub fn system_service<M>(&mut self, service: ServiceId) -> (r: Lookup<SyncAddress, M>)
        requires
            old(self).wf(),
            old(self)@.sys,
        ensures
            final(self).wf(),
            final(self)@ == after_system_service(old(self)@, service),
            match r {
                Lookup::Cached(addr) => old(self)@.system_registry.contains_key(service) && addr@
                    == old(self)@.system_registry[service],
                Lookup::Started(ctx) => !old(self)@.system_registry.contains_key(service)
                    && old(self)@.actors < u64::MAX && ctx.wf() && ctx@ == hosted::<M>(
                    old(self)@,
                    true,
                ),
                Lookup::Exhausted => !old(self)@.system_registry.contains_key(service)
                    && old(self)@.actors >= u64::MAX,
            },
    {
        match self.sysreg.query(service) {
            Some(addr) => Lookup::Cached(addr),
            None => match self.host(true) {
                Some(ctx) => {
                    let addr = ctx.sync_address();
                    let _ = self.sysreg.learn(service, addr);
                    Lookup::Started(ctx)
                },
                None => Lookup::Exhausted,
            },
        }
    }

    /// Records, in this arbiter's copy of the process-wide registry, the
    /// address that the system arbiter answered for `service`, and returns
    /// the address to use. What the copy holds already is kept.
    pub fn learn_system_service(&mut self, service: ServiceId, addr: SyncAddress) -> (r:
        SyncAddress)
        requires
            old(self).wf(),
        ensures
            final(self).wf(),
            r@ == resolve(old(self)@.system_registry, service, addr@),
            final(self)@ == (ArbiterState {
                system_registry: after(old(self)@.system_registry, service, addr@),
                ..old(self)@
            }),
    {
        self.sysreg.learn(service, addr)
    }

    /// Handles a request to run a computation on this arbiter's thread:
    /// runs it and relays its item or its error as the reply. The record
    /// of the arbiter is not held meanwhile, so the computation may use it.
    pub fn handle_execute<I, E, F: FnOnce() -> Result<I, E>>(msg: Execute<F>) -> (r: Response<
        I,
        E,
    >)
        requires
            call_requires(msg.0, ()),
        ensures
            match r {
                Response::Reply(item) => call_ensures(msg.0, (), Ok::<I, E>(item)),
                Response::Error(error) => call_ensures(msg.0, (), Err::<I, E>(error)),
                Response::Empty => false,
            },
    {
        let Execute(run) = msg;
        let outcome = run();
        Response::relay(outcome)
    }
}

/// Whether `seed` is what the arbiter in state `parent` hands to the
/// thread of a new arbiter with identifier `id`, asked for under `name`.
pub open spec fn seeded(
    parent: ArbiterState,
    id: ArbiterId,
    name: Option<String>,
    seed: Seed,
) -> bool {
    &&& seed.id == id
    &&& seed.name@ == thread_name(
        id@,
        match name {
            Some(n) => Some(n@),
            None => None,
        },
    )
    &&& Some(seed.system) == parent.system
    &&& Some(seed.system_name@) == parent.system_name
    &&& seed.system_arbiter == parent.system_arbiter
    &&& seed.system_registry@ == parent.system_registry
}

/// The state of the record of a system arbiter that has just been built:
/// alone on its thread, with empty registries, and without the system.
pub open spec fn root_state(
    id: ArbiterId,
    name: Seq<char>,
    handle: Handle,
    system_arbiter: SyncAddress,
) -> ArbiterState {
    ArbiterState {
        id,
        sys: true,
        name,
        handle,
        armed: false,
        registry: Services::empty(),
        system: None,
        system_name: None,
        system_arbiter,
        system_registry: Services::empty(),
        actors: 1,
    }
}

/// The state of an arbiter after `service` was looked up in its own
/// registry.
pub open spec fn after_service(host: ArbiterState, service: ServiceId) -> ArbiterState {
    if !host.registry.contains_key(service) && host.actors < u64::MAX {
        ArbiterState {
            registry: host.registry.insert(
                service,
                ActorRef { arbiter: host.id, slot: host.actors as u64 },
            ),
            actors: host.actors + 1,
            ..host
        }
    } else {
        host
    }
}

/// The state of the system arbiter after `service` was looked up in the
/// process-wide registry.
pub open spec fn after_system_service(host: ArbiterState, service: ServiceId) -> ArbiterState {
    if !host.system_registry.contains_key(service) && host.actors < u64::MAX {
        ArbiterState {
            system_registry: host.system_registry.insert(
                service,
                ActorRef { arbiter: host.id, slot: host.actors as u64 },
            ),
            actors: host.actors + 1,
            ..host
        }
    } else {
        host
    }
}

/// The state of the context of an actor that the arbiter in state `host`
/// starts next: it sits in the next free slot of that arbiter and is new.
pub open spec fn hosted<M>(host: ArbiterState, service: bool) -> ContextState<M> {
    ContextState {
        actor: ActorRef { arbiter: host.id, slot: host.actors as u64 },
        service,
        phase: Phase::Created,
        mailbox: MailboxState::<M>::fresh(),
        streams: 0,
        continuations: 0,
        hooks: Seq::empty(),
    }
}

/// An actor started on request lives on the arbiter that was asked: from
/// that arbiter's own thread its messages are enqueued directly, and from
/// every other thread they are routed to that arbiter.
pub proof fn lemma_started_actor_lives_on_host<M>(host: ArbiterState, sender: ArbiterId)
    ensures
        hosted::<M>(host, false).actor.arbiter == host.id,
        sender == host.id ==> route_of(hosted::<M>(host, false).actor, sender) == Route::Local,
        sender != host.id ==> route_of(hosted::<M>(host, false).actor, sender) == Route::Remote(
            host.id,
        ),
{
}

/// A stop request leaves the system arbiter exactly as it was, and takes
/// from every other arbiter the means to end its loop a second time.
pub proof fn lemma_stop_request(s: ArbiterState)
    ensures
        s.sys ==> s.after_stop() == s,
        !s.sys ==> !s.after_stop().armed,
        s.after_stop().after_stop() == s.after_stop(),
{
}

} // verus!
