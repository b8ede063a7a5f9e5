//! Registries of singleton services: get-or-create tables from a service's
//! identity to the address of its one instance.
//!
//! [`Registry`] holds the singletons of one arbiter; [`SystemRegistry`]
//! holds the process-wide ones. Neither does any locking: a registry is
//! owned by one thread, and the process-wide table is consulted under
//! whatever guard its owner puts around it. Each lookup is one step, and
//! the singleton guarantee holds for every order in which lookups from
//! different callers are applied.

use vstd::prelude::*;
use crate::address::{ActorRef, Address, SyncAddress};
use crate::assoc::{
    assoc_map, has_key, keys_unique, lemma_assoc_domain, lemma_assoc_push, lemma_assoc_value,
    lemma_push_keeps_unique,
};

verus! {

/// The identity of a kind of service. There is at most one instance of each
/// kind in a registry's scope.
#[derive(Clone, Copy, PartialEq, Eq, Structural, Debug)]
pub struct ServiceId(pub u64);

/// The contents of a registry: the address of the instance of each service
/// that has been started.
pub type Services = Map<ServiceId, ActorRef>;

/// The address that a lookup of `service` in `m` returns, where `fresh` is
/// the address of the instance that is started if there is none yet.
pub open spec fn resolve(m: Services, service: ServiceId, fresh: ActorRef) -> ActorRef {
    if m.contains_key(service) {
        m[service]
    } else {
        fresh
    }
}

/// The contents after a lookup of `service` in `m`.
pub open spec fn after(m: Services, service: ServiceId, fresh: ActorRef) -> Services {
    if m.contains_key(service) {
        m
    } else {
        m.insert(service, fresh)
    }
}

/// The contents after the lookups `reqs` are applied to `m` in order. Each
/// lookup names the service and the address a start would yield.
pub open spec fn after_all(m: Services, reqs: Seq<(ServiceId, ActorRef)>) -> Services
    decreases reqs.len(),
{
    if reqs.len() == 0 {
        m
    } else {
        after(after_all(m, reqs.drop_last()), reqs.last().0, reqs.last().1)
    }
}

/// The address that lookup number `i` of `reqs` returns.
pub open spec fn answer(m: Services, reqs: Seq<(ServiceId, ActorRef)>, i: int) -> ActorRef {
    resolve(after_all(m, reqs.take(i)), reqs[i].0, reqs[i].1)
}

/// Whether lookup number `i` of `reqs` starts a new instance.
pub open spec fn constructs(m: Services, reqs: Seq<(ServiceId, ActorRef)>, i: int) -> bool {
    !after_all(m, reqs.take(i)).contains_key(reqs[i].0)
}

/// Whether every entry of `copy` is an entry of `authority`.
pub open spec fn agrees(copy: Services, authority: Services) -> bool {
    forall|service: ServiceId| #[trigger]
        copy.contains_key(service) ==> authority.contains_key(service) && copy[service]
            == authority[service]
}

fn find(entries: &Vec<(ServiceId, ActorRef)>, service: ServiceId) -> (r: Option<ActorRef>)
    requires
        keys_unique(entries@),
    ensures
        r is Some <==> assoc_map(entries@).contains_key(service),
        r is Some ==> r->0 == assoc_map(entries@)[service],
{
    let mut i: usize = 0;
    while i < entries.len()
        invariant
            i <= entries.len(),
            keys_unique(entries@),
            forall|j: int| 0 <= j < i ==> (#[trigger] entries@[j]).0 != service,
        decreases entries.len() - i,
    {
        if entries[i].0 == service {
            proof {
                lemma_assoc_value(entries@, i as int);
            }
            return Some(entries[i].1);
        }
        i = i + 1;
    }
    proof {
        lemma_assoc_domain(entries@, service);
    }
    None
}

fn record(entries: &mut Vec<(ServiceId, ActorRef)>, service: ServiceId, target: ActorRef)
    requires
        keys_unique(old(entries)@),
        !assoc_map(old(entries)@).contains_key(service),
    ensures
        keys_unique(final(entries)@),
        assoc_map(final(entries)@) == assoc_map(old(entries)@).insert(service, target),
{
    proof {
        lemma_assoc_domain(entries@, service);
        lemma_push_keeps_unique(entries@, service, target);
        lemma_assoc_push(entries@, service, target);
    }
    entries.push((service, target));
}

/// The singleton services of one arbiter.
pub struct Registry {
    entries: Vec<(ServiceId, ActorRef)>,
}

impl View for Registry {
    type V = Services;

    closed spec fn view(&self) -> Services {
        assoc_map(self.entries@)
    }
}

impl Registry {
    /// Whether the registry satisfies its invariant.
    pub closed spec fn wf(&self) -> bool {
        keys_unique(self.entries@)
    }

    /// An empty registry.
    pub fn new() -> (r: Registry)
        ensures
            r.wf(),
            r@ == Services::empty(),
    {
        Registry { entries: Vec::new() }
    }

    /// The address of the instance of `service`, if one has been started.
    pub fn query(&self, service: ServiceId) -> (r: Option<Address>)
        requires
            self.wf(),
        ensures
            r is Some <==> self@.contains_key(service),
            r is Some ==> r->0@ == self@[service],
    {
        match find(&self.entries, service) {
            Some(target) => Some(Address::new(target.arbiter, target.slot)),
            None => None,
        }
    }

    /// The address of the one instance of `service`. If there is none yet,
    /// `start` is called to construct and start one, and its address is
    /// cached; otherwise the cached address is returned and `start` is not
    /// called.
    pub fn get<F: FnOnce() -> Address>(&mut self, service: ServiceId, start: F) -> (r: Address)
        requires
            old(self).wf(),
            !old(self)@.contains_key(service) ==> call_requires(start, ()),
        ensures
            final(self).wf(),
            r@ == resolve(old(self)@, service, r@),
            final(self)@ == after(old(self)@, service, r@),
            !old(self)@.contains_key(service) ==> call_ensures(start, (), r),
    {
        match find(&self.entries, service) {
            Some(target) => Address::new(target.arbiter, target.slot),
            None => {
                let started = start();
                record(&mut self.entries, service, started.target());
                started
            },
        }
    }

    /// The number of services that have been started.
    pub fn len(&self) -> (n: usize)
        requires
            self.wf(),
        ensures
            n == self@.dom().len(),
            self@.dom().finite(),
    {
        proof {
            lemma_entries_count(self.entries@);
        }
        self.entries.len()
    }
}

/// The process-wide singleton services.
pub struct SystemRegistry {
    entries: Vec<(ServiceId, ActorRef)>,
}

impl View for SystemRegistry {
    type V = Services;

    closed spec fn view(&self) -> Services {
        assoc_map(self.entries@)
    }
}

impl SystemRegistry {
    /// Whether the registry satisfies its invariant.
    pub closed spec fn wf(&self) -> bool {
        keys_unique(self.entries@)
    }

    /// An empty registry.
    pub fn new() -> (r: SystemRegistry)
        ensures
            r.wf(),
            r@ == Services::empty(),
    {
        SystemRegistry { entries: Vec::new() }
    }

    /// The address of the instance of `service`, if one has been started.
    pub fn query(&self, service: ServiceId) -> (r: Option<SyncAddress>)
        requires
            self.wf(),
        ensures
            r is Some <==> self@.contains_key(service),
            r is Some ==> r->0@ == self@[service],
    {
        match find(&self.entries, service) {
            Some(target) => Some(SyncAddress::new(target.arbiter, target.slot)),
            None => None,
        }
    }

    /// The address of the one instance of `service`. If there is none yet,
    /// `start` is called to construct and start one, and its address is
    /// cached; otherwise the cached address is returned and `start` is not
    /// called.
    pub fn get<F: FnOnce() -> SyncAddress>(&mut self, service: ServiceId, start: F) -> (r:
        SyncAddress)
        requires
            old(self).wf(),
            !old(self)@.contains_key(service) ==> call_requires(start, ()),
        ensures
            final(self).wf(),
            r@ == resolve(old(self)@, service, r@),
            final(self)@ == after(old(self)@, service, r@),
            !old(self)@.contains_key(service) ==> call_ensures(start, (), r),
    {
        match find(&self.entries, service) {
            Some(target) => SyncAddress::new(target.arbiter, target.slot),
            None => {
                let started = start();
                record(&mut self.entries, service, started.target());
                started
            },
        }
    }

    /// Records in this copy what the authoritative registry answered for
    /// `service`. An entry that is already there stays; the address to use
    /// is returned.
    pub fn learn(&mut self, service: ServiceId, addr: SyncAddress) -> (r: SyncAddress)
        requires
            old(self).wf(),
        ensures
            final(self).wf(),
            r@ == resolve(old(self)@, service, addr@),
            final(self)@ == after(old(self)@, service, addr@),
    {
        match find(&self.entries, service) {
            Some(target) => SyncAddress::new(target.arbiter, target.slot),
            None => {
                record(&mut self.entries, service, addr.target());
                addr
            },
        }
    }

    /// A copy of the registry as it stands, to hand to another thread.
    pub fn copy(&self) -> (r: SystemRegistry)
        requires
            self.wf(),
        ensures
            r.wf(),
            r@ == self@,
    {
        let mut entries: Vec<(ServiceId, ActorRef)> = Vec::new();
        let mut i: usize = 0;
        while i < self.entries.len()
            invariant
                i <= self.entries.len(),
                entries@ == self.entries@.take(i as int),
            decreases self.entries.len() - i,
        {
            entries.push(self.entries[i]);
            i = i + 1;
        }
        assert(entries@ == self.entries@);
        SystemRegistry { entries }
    }

    /// The number of services that have been started.
    pub fn len(&self) -> (n: usize)
        requires
            self.wf(),
        ensures
            n == self@.dom().len(),
            self@.dom().finite(),
    {
        proof {
            lemma_entries_count(self.entries@);
        }
        self.entries.len()
    }
}

proof fn lemma_entries_count(s: Seq<(ServiceId, ActorRef)>)
    requires
        keys_unique(s),
    ensures
        assoc_map(s).dom().finite(),
        assoc_map(s).dom().len() == s.len(),
    decreases s.len(),
{
    if s.len() > 0 {
        let front = s.drop_last();
        assert(keys_unique(front)) by {
            assert forall|a: int, b: int| 0 <= a < b < front.len() implies front[a].0
                != front[b].0 by {
                assert(s[a].0 != s[b].0);
            }
        }
        lemma_entries_count(front);
        lemma_assoc_domain(front, s.last().0);
        if has_key(front, s.last().0) {
            let j = choose|j: int| 0 <= j < front.len() && (#[trigger] front[j]).0 == s.last().0;
            assert(s[j].0 != s[s.len() - 1].0);
        }
    }
}

/// A lookup never changes what is already cached.
pub proof fn lemma_cached_forever(
    m: Services,
    reqs: Seq<(ServiceId, ActorRef)>,
    service: ServiceId,
)
    requires
        m.contains_key(service),
    ensures
        after_all(m, reqs).contains_key(service),
        after_all(m, reqs)[service] == m[service],
    decreases reqs.len(),
{
    if reqs.len() > 0 {
        lemma_cached_forever(m, reqs.drop_last(), service);
    }
}

/// Applying lookups one batch after another is applying them all in order.
pub proof fn lemma_after_all_concat(
    m: Services,
    a: Seq<(ServiceId, ActorRef)>,
    b: Seq<(ServiceId, ActorRef)>,
)
    ensures
        after_all(m, a + b) == after_all(after_all(m, a), b),
    decreases b.len(),
{
    if b.len() == 0 {
        assert(a + b =~= a);
    } else {
        lemma_after_all_concat(m, a, b.drop_last());
        assert((a + b).drop_last() =~= a + b.drop_last());
        assert((a + b).last() == b.last());
    }
}

/// The singleton guarantee. Take any registry and any sequence of lookups,
/// in whatever order the lookups of different callers were applied. Two
/// lookups of the same service return the same address, and the later one
/// starts nothing: at most one instance of a service is ever constructed.
pub proof fn lemma_singleton(m: Services, reqs: Seq<(ServiceId, ActorRef)>, i: int, j: int)
    requires
        0 <= i < j < reqs.len(),
        reqs[i].0 == reqs[j].0,
    ensures
        answer(m, reqs, j) == answer(m, reqs, i),
        !constructs(m, reqs, j),
{
    let service = reqs[i].0;
    let upto = reqs.take(i + 1);
    let between = reqs.subrange(i + 1, j);
    assert(upto.drop_last() =~= reqs.take(i));
    assert(upto.last() == reqs[i]);
    let cached = after_all(m, upto);
    assert(cached.contains_key(service) && cached[service] == answer(m, reqs, i));
    assert(reqs.take(j) =~= upto + between);
    lemma_after_all_concat(m, upto, between);
    lemma_cached_forever(cached, between, service);
}

/// The first lookup of a service that is not cached starts exactly the
/// instance whose address every later lookup returns.
pub proof fn lemma_first_lookup_constructs(
    m: Services,
    reqs: Seq<(ServiceId, ActorRef)>,
    i: int,
)
    requires
        0 <= i < reqs.len(),
        !m.contains_key(reqs[i].0),
        forall|k: int| 0 <= k < i ==> (#[trigger] reqs[k]).0 != reqs[i].0,
    ensures
        constructs(m, reqs, i),
        answer(m, reqs, i) == reqs[i].1,
    decreases i,
{
    lemma_untouched(m, reqs.take(i), reqs[i].0);
}

proof fn lemma_untouched(m: Services, reqs: Seq<(ServiceId, ActorRef)>, service: ServiceId)
    requires
        !m.contains_key(service),
        forall|k: int| 0 <= k < reqs.len() ==> (#[trigger] reqs[k]).0 != service,
    ensures
        !after_all(m, reqs).contains_key(service),
    decreases reqs.len(),
{
    if reqs.len() > 0 {
        lemma_untouched(m, reqs.drop_last(), service);
        assert(reqs[reqs.len() - 1].0 != service);
    }
}

/// Copies that agree with the authoritative registry agree with each other:
/// callers that look a service up in different copies get the same address.
pub proof fn lemma_copies_converge(
    a: Services,
    b: Services,
    authority: Services,
    service: ServiceId,
)
    requires
        agrees(a, authority),
        agrees(b, authority),
        a.contains_key(service),
        b.contains_key(service),
    ensures
        a[service] == b[service],
        a[service] == authority[service],
{
}

/// A copy that learns what the authoritative registry answered still agrees
/// with it, whatever the authority has looked up in the meantime.
pub proof fn lemma_learning_keeps_agreement(
    copy: Services,
    authority: Services,
    service: ServiceId,
)
    requires
        agrees(copy, authority),
        authority.contains_key(service),
    ensures
        agrees(after(copy, service, authority[service]), authority),
{
}

/// A lookup in the authoritative registry keeps every copy in agreement.
pub proof fn lemma_lookup_keeps_agreement(
    copy: Services,
    authority: Services,
    service: ServiceId,
    fresh: ActorRef,
)
    requires
        agrees(copy, authority),
    ensures
        agrees(copy, after(authority, service, fresh)),
{
}

} // verus!
