use actix::address::{ActorRef, Address, Route, SyncAddress};
use actix::ident::ArbiterId;

#[test]
fn address_names_its_actor() {
    let host = ArbiterId::from_u128(1);
    let a = Address::new(host, 3);
    assert_eq!(a.target(), ActorRef { arbiter: host, slot: 3 });
    assert_eq!(a.sync().target(), a.target());
}

#[test]
fn address_is_usable_only_on_its_host() {
    let host = ArbiterId::from_u128(1);
    let other = ArbiterId::from_u128(2);
    let a = Address::new(host, 3);
    assert!(a.usable_on(&host));
    assert!(!a.usable_on(&other));
}

#[test]
fn sync_address_is_local_only_on_its_host() {
    let host = ArbiterId::from_u128(1);
    let other = ArbiterId::from_u128(2);
    let s = SyncAddress::new(host, 3);
    assert_eq!(s.local(&host), Some(Address::new(host, 3)));
    assert_eq!(s.local(&other), None);
}

#[test]
fn route_is_local_on_the_host_and_remote_elsewhere() {
    let host = ArbiterId::from_u128(1);
    let other = ArbiterId::from_u128(2);
    let s = SyncAddress::new(host, 3);
    assert_eq!(s.route(&host), Route::Local);
    assert_eq!(s.route(&other), Route::Remote(host));
}

#[test]
fn same_tells_actors_apart() {
    let host = ArbiterId::from_u128(1);
    let s = SyncAddress::new(host, 3);
    assert!(s.same(&SyncAddress::new(host, 3)));
    assert!(!s.same(&SyncAddress::new(host, 4)));
    assert!(!s.same(&SyncAddress::new(ArbiterId::from_u128(2), 3)));
}
