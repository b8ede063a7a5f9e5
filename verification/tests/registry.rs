use actix::address::{Address, SyncAddress};
use actix::ident::ArbiterId;
use actix::registry::{Registry, ServiceId, SystemRegistry};
use std::cell::Cell;
use std::sync::Mutex;

fn host() -> ArbiterId {
    ArbiterId::from_u128(0x77)
}

#[test]
fn empty_registry_knows_nothing() {
    let reg = Registry::new();
    assert_eq!(reg.len(), 0);
    assert_eq!(reg.query(ServiceId(1)), None);
    let sys = SystemRegistry::new();
    assert_eq!(sys.len(), 0);
    assert_eq!(sys.query(ServiceId(1)), None);
}

#[test]
fn first_lookup_starts_the_service() {
    let mut reg = Registry::new();
    let started = Cell::new(0);
    let addr = reg.get(ServiceId(1), || {
        started.set(started.get() + 1);
        Address::new(host(), 5)
    });
    assert_eq!(addr, Address::new(host(), 5));
    assert_eq!(started.get(), 1);
    assert_eq!(reg.query(ServiceId(1)), Some(Address::new(host(), 5)));
    assert_eq!(reg.len(), 1);
}

#[test]
fn later_lookups_return_the_cached_address() {
    let mut reg = Registry::new();
    let started = Cell::new(0u64);
    let mut make = || {
        reg.get(ServiceId(1), || {
            started.set(started.get() + 1);
            Address::new(host(), 5 + started.get())
        })
    };
    let first = make();
    let second = make();
    let third = make();
    assert_eq!(first, Address::new(host(), 6));
    assert_eq!(second, first);
    assert_eq!(third, first);
    assert_eq!(started.get(), 1);
}

#[test]
fn services_are_kept_apart() {
    let mut reg = SystemRegistry::new();
    let a = reg.get(ServiceId(1), || SyncAddress::new(host(), 1));
    let b = reg.get(ServiceId(2), || SyncAddress::new(host(), 2));
    assert_ne!(a, b);
    assert_eq!(reg.query(ServiceId(1)), Some(a));
    assert_eq!(reg.query(ServiceId(2)), Some(b));
    assert_eq!(reg.query(ServiceId(3)), None);
    assert_eq!(reg.len(), 2);
}

#[test]
fn singleton_among_many_callers() {
    let shared = Mutex::new((SystemRegistry::new(), 0u64));
    let mut answers = vec![];
    for _caller in 0..8 {
        let mut guard = shared.lock().unwrap();
        let (reg, started) = &mut *guard;
        answers.push(reg.get(ServiceId(9), || {
            *started += 1;
            SyncAddress::new(host(), 100 + *started)
        }));
    }
    let guard = shared.lock().unwrap();
    assert_eq!(guard.1, 1);
    assert_eq!(guard.0.len(), 1);
    for a in &answers {
        assert_eq!(*a, SyncAddress::new(host(), 101));
    }
}

#[test]
fn singleton_for_every_order_of_lookups() {
    let orders: [[u64; 6]; 4] =
        [[1, 1, 2, 2, 1, 2], [2, 1, 2, 1, 1, 2], [1, 2, 1, 2, 2, 1], [2, 2, 2, 1, 1, 1]];
    for order in orders {
        let mut reg = SystemRegistry::new();
        let mut started = [0u32; 3];
        let mut first: [Option<SyncAddress>; 3] = [None; 3];
        let mut slot = 0u64;
        for s in order {
            slot += 1;
            let fresh = SyncAddress::new(host(), slot);
            let count = Cell::new(0u32);
            let addr = reg.get(ServiceId(s), || {
                count.set(1);
                fresh
            });
            started[s as usize] += count.get();
            match first[s as usize] {
                Some(known) => assert_eq!(addr, known),
                None => {
                    assert_eq!(addr, fresh);
                    first[s as usize] = Some(addr);
                }
            }
        }
        assert_eq!(started, [0, 1, 1]);
    }
}

#[test]
fn copy_holds_what_the_registry_held() {
    let mut reg = SystemRegistry::new();
    let a = reg.get(ServiceId(1), || SyncAddress::new(host(), 1));
    let copy = reg.copy();
    reg.get(ServiceId(2), || SyncAddress::new(host(), 2));
    assert_eq!(copy.len(), 1);
    assert_eq!(copy.query(ServiceId(1)), Some(a));
    assert_eq!(copy.query(ServiceId(2)), None);
    assert_eq!(reg.len(), 2);
}

#[test]
fn learn_keeps_what_is_known() {
    let mut copy = SystemRegistry::new();
    let first = SyncAddress::new(host(), 1);
    let other = SyncAddress::new(host(), 2);
    assert_eq!(copy.learn(ServiceId(4), first), first);
    assert_eq!(copy.learn(ServiceId(4), other), first);
    assert_eq!(copy.query(ServiceId(4)), Some(first));
    assert_eq!(copy.len(), 1);
}

#[test]
fn copies_converge_on_the_authority() {
    let mut authority = SystemRegistry::new();
    let mut left = authority.copy();
    let mut right = authority.copy();
    let addr = authority.get(ServiceId(3), || SyncAddress::new(host(), 30));
    let again = authority.get(ServiceId(3), || SyncAddress::new(host(), 31));
    assert_eq!(left.learn(ServiceId(3), addr), right.learn(ServiceId(3), again));
    assert_eq!(left.query(ServiceId(3)), authority.query(ServiceId(3)));
    assert_eq!(right.query(ServiceId(3)), authority.query(ServiceId(3)));
}
