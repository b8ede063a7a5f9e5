//! Addresses: handles that grant "may send a message to this actor".
//!
//! An actor is identified by the arbiter that hosts it and by its slot on
//! that arbiter. [`Address`] is the handle for use on the hosting arbiter's
//! own thread; [`SyncAddress`] may be held and used on any thread.

use vstd::prelude::*;
use std::marker::PhantomData;
use std::rc::Rc;
use crate::ident::ArbiterId;

verus! {

/// The identity of one actor instance.
#[derive(Clone, Copy, PartialEq, Eq, Structural, Debug)]
pub struct ActorRef {
    /// The arbiter that hosts the actor.
    pub arbiter: ArbiterId,
    /// The actor's slot on that arbiter.
    pub slot: u64,
}

/// How a message for an actor travels from the thread that sends it.
#[derive(Clone, Copy, PartialEq, Eq, Structural, Debug)]
pub enum Route {
    /// The sender is on the hosting arbiter's thread: enqueue directly.
    Local,
    /// The actor lives elsewhere: hand the message to that arbiter's ingress.
    Remote(ArbiterId),
}

/// A same-thread handle to an actor. It is valid only on the thread of the
/// arbiter that hosts the actor, and the compiler keeps it there: an
/// `Address` can neither be sent to nor shared with another thread.
#[derive(Clone, Copy, PartialEq, Eq, Debug)]
pub struct Address {
    target: ActorRef,
    here: PhantomData<Rc<()>>,
}

/// A handle to an actor that may be used from any thread.
#[derive(Clone, Copy, PartialEq, Eq, Structural, Debug)]
pub struct SyncAddress {
    target: ActorRef,
}

impl View for Address {
    type V = ActorRef;

    closed spec fn view(&self) -> ActorRef {
        self.target
    }
}

impl View for SyncAddress {
    type V = ActorRef;

    closed spec fn view(&self) -> ActorRef {
        self.target
    }
}

impl Address {
    /// The address of the actor in `slot` of `arbiter`.
    pub fn new(arbiter: ArbiterId, slot: u64) -> (a: Address)
        ensures
            a@ == (ActorRef { arbiter, slot }),
    {
        Address { target: ActorRef { arbiter, slot }, here: PhantomData }
    }

    /// The actor this address names.
    pub fn target(&self) -> (t: ActorRef)
        ensures
            t == self@,
    {
        self.target
    }

    /// Whether this address may be used on the thread of arbiter `current`.
    pub fn usable_on(&self, current: &ArbiterId) -> (b: bool)
        ensures
            b == (self@.arbiter == *current),
    {
        self.target.arbiter.same(current)
    }

    /// The cross-thread handle to the same actor.
    pub fn sync(&self) -> (s: SyncAddress)
        ensures
            s@ == self@,
    {
        SyncAddress { target: self.target }
    }
}

impl SyncAddress {
    /// The cross-thread address of the actor in `slot` of `arbiter`.
    pub fn new(arbiter: ArbiterId, slot: u64) -> (a: SyncAddress)
        ensures
            a@ == (ActorRef { arbiter, slot }),
    {
        SyncAddress { target: ActorRef { arbiter, slot } }
    }

    /// The actor this address names.
    pub fn target(&self) -> (t: ActorRef)
        ensures
            t == self@,
    {
        self.target
    }

    /// The same-thread handle to the actor, which exists only on the thread
    /// of the arbiter that hosts it.
    pub fn local(&self, current: &ArbiterId) -> (a: Option<Address>)
        ensures
            a is Some <==> self@.arbiter == *current,
            a is Some ==> a->0@ == self@,
    {
        if self.target.arbiter.same(current) {
            Some(Address { target: self.target, here: PhantomData })
        } else {
            None
        }
    }

    /// How a message sent through this address from the thread of arbiter
    /// `current` reaches the actor.
    pub fn route(&self, current: &ArbiterId) -> (r: Route)
        ensures
            r == route_of(self@, *current),
    {
        if self.target.arbiter.same(current) {
            Route::Local
        } else {
            Route::Remote(self.target.arbiter)
        }
    }

    /// Whether two addresses name the same actor.
    pub fn same(&self, other: &SyncAddress) -> (b: bool)
        ensures
            b == (self@ == other@),
            b == (*self == *other),
    {
        self.target.arbiter.same(&other.target.arbiter) && self.target.slot == other.target.slot
    }
}

/// The route from the thread of `current` to the actor `target`.
pub open spec fn route_of(target: ActorRef, current: ArbiterId) -> Route {
    if target.arbiter == current {
        Route::Local
    } else {
        Route::Remote(target.arbiter)
    }
}

/// Two same-thread addresses of one actor are the same address.
pub proof fn lemma_address_by_target(a: Address, b: Address)
    requires
        a@ == b@,
    ensures
        a == b,
{
}

/// Two cross-thread addresses of one actor are the same address.
pub proof fn lemma_sync_address_by_target(a: SyncAddress, b: SyncAddress)
    requires
        a@ == b@,
    ensures
        a == b,
{
}

/// Whichever thread a message is sent from, it is handled by the arbiter
/// that hosts the actor: a local route is taken only on that arbiter's own
/// thread, and every remote route leads to it.
pub proof fn lemma_route_reaches_host(target: ActorRef, current: ArbiterId)
    ensures
        route_of(target, current) is Local <==> current == target.arbiter,
        route_of(target, current) matches Route::Remote(host) ==> host == target.arbiter,
{
}

} // verus!
