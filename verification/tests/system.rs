use actix::address::SyncAddress;
use actix::handles::LoopEnd;
use actix::ident::ArbiterId;
use actix::msgs::{RegisterArbiter, StopArbiter, SystemExit, UnregisterArbiter};
use actix::address::Address;
use actix::context::Phase;
use actix::system::{System, SystemMessage};
use tokio_core::reactor::Core;
use futures::sync::oneshot::{channel, Receiver};
use futures::Future;

fn arb(n: u128) -> SyncAddress {
    SyncAddress::new(ArbiterId::from_u128(n), 0)
}

fn system() -> (System, Receiver<i32>) {
    let (tx, rx) = channel();
    (System::new("main".to_string(), arb(1), tx), rx)
}

fn key(n: u128) -> String {
    ArbiterId::from_u128(n).simple()
}

#[test]
fn new_system_has_no_arbiters() {
    let (sys, _rx) = system();
    assert_eq!(sys.name(), "main");
    assert_eq!(sys.system_arbiter(), arb(1));
    assert_eq!(sys.len(), 0);
    assert_eq!(sys.lookup(&key(1)), None);
}

#[test]
fn register_then_lookup() {
    let (mut sys, _rx) = system();
    sys.register(RegisterArbiter(key(2), arb(2)));
    sys.register(RegisterArbiter(key(3), arb(3)));
    assert_eq!(sys.len(), 2);
    assert_eq!(sys.lookup(&key(2)), Some(arb(2)));
    assert_eq!(sys.lookup(&key(3)), Some(arb(3)));
    assert_eq!(sys.lookup(&key(4)), None);
}

#[test]
fn last_registration_wins() {
    let (mut sys, _rx) = system();
    sys.register(RegisterArbiter(key(2), arb(2)));
    sys.register(RegisterArbiter(key(3), arb(3)));
    sys.register(RegisterArbiter(key(2), arb(20)));
    assert_eq!(sys.len(), 2);
    assert_eq!(sys.lookup(&key(2)), Some(arb(20)));
    assert_eq!(sys.lookup(&key(3)), Some(arb(3)));
}

#[test]
fn registering_the_same_twice_changes_nothing() {
    let (mut sys, _rx) = system();
    sys.register(RegisterArbiter(key(2), arb(2)));
    sys.register(RegisterArbiter(key(2), arb(2)));
    assert_eq!(sys.len(), 1);
    assert_eq!(sys.lookup(&key(2)), Some(arb(2)));
}

#[test]
fn unregister_is_idempotent() {
    let (mut sys, _rx) = system();
    sys.register(RegisterArbiter(key(2), arb(2)));
    sys.register(RegisterArbiter(key(3), arb(3)));
    sys.unregister(UnregisterArbiter(key(2)));
    assert_eq!(sys.len(), 1);
    assert_eq!(sys.lookup(&key(2)), None);
    sys.unregister(UnregisterArbiter(key(2)));
    sys.unregister(UnregisterArbiter(key(9)));
    assert_eq!(sys.len(), 1);
    assert_eq!(sys.lookup(&key(3)), Some(arb(3)));
}

#[test]
fn shutdown_completeness() {
    let (mut sys, rx) = system();
    sys.register(RegisterArbiter(key(1), arb(1)));
    sys.register(RegisterArbiter(key(2), arb(2)));
    sys.register(RegisterArbiter(key(3), arb(3)));
    sys.register(RegisterArbiter(key(4), arb(4)));
    let shutdown = sys.handle_exit(SystemExit(0));
    assert_eq!(
        shutdown.stops,
        vec![(arb(2), StopArbiter(0)), (arb(3), StopArbiter(0)), (arb(4), StopArbiter(0))]
    );
    assert_eq!(shutdown.code, 0);
    let handed = shutdown.system_loop.unwrap();
    assert_eq!(handed.code(), 0);
    assert!(handed.taken());
    assert_eq!(handed.end(), LoopEnd::Signalled(0));
    assert_eq!(rx.wait(), Ok(0));
}

#[test]
fn shutdown_carries_the_exit_code() {
    let (mut sys, rx) = system();
    sys.register(RegisterArbiter(key(2), arb(2)));
    let shutdown = sys.handle_exit(SystemExit(17));
    assert_eq!(shutdown.stops, vec![(arb(2), StopArbiter(17))]);
    assert_eq!(shutdown.code, 17);
    assert_eq!(shutdown.system_loop.unwrap().code(), 17);
    assert_eq!(shutdown.system_loop.unwrap().end(), LoopEnd::Signalled(17));
    assert_eq!(rx.wait(), Ok(17));
}

#[test]
fn broadcast_follows_the_order_of_registration() {
    let (mut sys, _rx) = system();
    for n in [5u128, 3, 4, 2] {
        sys.register(RegisterArbiter(key(n), arb(n)));
    }
    sys.register(RegisterArbiter(key(3), arb(30)));
    sys.unregister(UnregisterArbiter(key(4)));
    assert_eq!(
        sys.broadcast(-1),
        vec![(arb(5), StopArbiter(-1)), (arb(30), StopArbiter(-1)), (arb(2), StopArbiter(-1))]
    );
}

#[test]
fn shutdown_with_no_arbiters_only_ends_the_system_loop() {
    let (mut sys, rx) = system();
    let shutdown = sys.handle_exit(SystemExit(2));
    assert_eq!(shutdown.stops, vec![]);
    assert_eq!(shutdown.system_loop.unwrap().end(), LoopEnd::Signalled(2));
    assert_eq!(rx.wait(), Ok(2));
}

#[test]
fn second_shutdown_finds_the_loop_ended() {
    let (mut sys, rx) = system();
    sys.register(RegisterArbiter(key(2), arb(2)));
    sys.handle_exit(SystemExit(0));
    let again = sys.handle_exit(SystemExit(5));
    assert_eq!(again.stops, vec![(arb(2), StopArbiter(5))]);
    assert_eq!(again.system_loop, None);
    assert_eq!(again.code, 5);
    assert_eq!(rx.wait(), Ok(0));
}

#[test]
fn shutdown_when_nobody_waits_for_the_code() {
    let (mut sys, rx) = system();
    drop(rx);
    let shutdown = sys.handle_exit(SystemExit(0));
    let handed = shutdown.system_loop.unwrap();
    assert_eq!(handed.end(), LoopEnd::Gone);
    assert!(!handed.taken());
    assert_eq!(handed.code(), 0);
    assert_eq!(shutdown.code, 0);
}

#[test]
fn shutdown_leaves_the_table_to_the_arbiters() {
    let (mut sys, _rx) = system();
    sys.register(RegisterArbiter(key(2), arb(2)));
    sys.handle_exit(SystemExit(0));
    assert_eq!(sys.len(), 1);
    sys.unregister(UnregisterArbiter(key(2)));
    assert_eq!(sys.len(), 0);
}

#[test]
fn boot_makes_the_calling_thread_the_system_arbiter() {
    let core = Core::new().unwrap();
    let (tx, rx) = channel();
    let mut boot = System::boot("main".to_string(), core.handle(), tx);
    let id = boot.arbiter.id();
    assert!(boot.arbiter.is_system());
    assert_eq!(boot.arbiter.name(), "main");
    assert_eq!(boot.arbiter.arbiter(), Address::new(id, 0));
    assert_eq!(boot.arbiter.system_arbiter(), SyncAddress::new(id, 0));
    assert!(boot.arbiter.has_system());
    assert_eq!(boot.arbiter.system(), SyncAddress::new(id, 1));
    assert_eq!(boot.arbiter.system_name(), "main");
    assert_eq!(boot.context.sync_address(), boot.arbiter.system());
    assert_eq!(boot.context.phase(), Phase::Created);
    assert_eq!(boot.system.name(), "main");
    assert_eq!(boot.system.system_arbiter(), boot.arbiter.system_arbiter());
    assert_eq!(boot.system.len(), 0);
    assert_eq!(boot.arbiter.handle().id(), core.id());
    let shutdown = boot.system.handle_exit(SystemExit(4));
    assert_eq!(shutdown.code, 4);
    assert_eq!(System::exit_code(rx.wait().ok()), 4);
}

#[test]
fn exit_code_is_the_code_the_loop_ended_with() {
    assert_eq!(System::exit_code(Some(0)), 0);
    assert_eq!(System::exit_code(Some(-3)), -3);
    assert_eq!(System::exit_code(Some(i32::MAX)), i32::MAX);
}

#[test]
fn exit_code_is_one_when_the_loop_ended_without_a_code() {
    assert_eq!(System::exit_code(None), 1);
    let (tx, rx) = channel::<i32>();
    drop(tx);
    assert_eq!(System::exit_code(rx.wait().ok()), 1);
}

#[test]
fn system_handles_its_messages() {
    let (mut sys, rx) = system();
    assert!(sys.handle(SystemMessage::Register(RegisterArbiter(key(2), arb(2)))).is_none());
    assert!(sys.handle(SystemMessage::Register(RegisterArbiter(key(3), arb(3)))).is_none());
    assert!(sys.handle(SystemMessage::Unregister(UnregisterArbiter(key(2)))).is_none());
    assert_eq!(sys.len(), 1);
    let shutdown = sys.handle(SystemMessage::Exit(SystemExit(0))).unwrap();
    assert_eq!(shutdown.stops, vec![(arb(3), StopArbiter(0))]);
    assert_eq!(shutdown.code, 0);
    assert_eq!(System::exit_code(rx.wait().ok()), 0);
}

#[test]
fn only_system_exit_ends_the_system_arbiter() {
    let core = Core::new().unwrap();
    let (tx, mut rx) = channel();
    let mut boot = System::boot("main".to_string(), core.handle(), tx);
    boot.arbiter.handle_stop(StopArbiter(0));
    assert_eq!(rx.try_recv(), Ok(None));
    boot.system.handle_exit(SystemExit(0));
    assert_eq!(rx.try_recv(), Ok(Some(0)));
}

#[test]
fn exit_code_travels_from_the_request_to_the_process() {
    for code in [0, 1, -7, 130, i32::MIN, i32::MAX] {
        let (mut sys, rx) = system();
        sys.register(RegisterArbiter(key(2), arb(2)));
        let shutdown = sys.handle_exit(SystemExit(code));
        assert_eq!(shutdown.system_loop.unwrap().code(), code);
        assert_eq!(shutdown.stops, vec![(arb(2), StopArbiter(code))]);
        assert_eq!(System::exit_code(rx.wait().ok()), code);
    }
}
