use actix::address::{Address, SyncAddress};
use actix::context::Context;
use actix::ident::ArbiterId;
use actix::mailbox::Origin;
use actix::msgs::SystemExit;
use actix::registry::ServiceId;
use actix::signal::{
    DefaultSignalsHandler, ProcessSignals, Signal, SignalType, Subscribe, Watch, PROCESS_SIGNALS,
};
use std::cell::RefCell;

fn sub(n: u64) -> SyncAddress {
    SyncAddress::new(ArbiterId::from_u128(0xab), n)
}

#[test]
fn default_service_has_no_subscribers() {
    let ps = ProcessSignals::default();
    assert_eq!(ps.len(), 0);
    assert_eq!(*ps.subscribers(), vec![]);
}

#[test]
fn subscribers_are_kept_in_order() {
    let mut ps = ProcessSignals::default();
    ps.subscribe(Subscribe(sub(3)));
    ps.subscribe(Subscribe(sub(1)));
    ps.subscribe(Subscribe(sub(2)));
    assert_eq!(*ps.subscribers(), vec![sub(3), sub(1), sub(2)]);
}

#[test]
fn subscriber_pruning() {
    let mut ps = ProcessSignals::default();
    ps.subscribe(Subscribe(sub(1)));
    ps.subscribe(Subscribe(sub(2)));
    ps.subscribe(Subscribe(sub(3)));
    let closed = sub(2);
    let received = RefCell::new(vec![]);
    let send = |to: &SyncAddress, msg: Signal| {
        if *to == closed {
            false
        } else {
            received.borrow_mut().push((*to, msg));
            true
        }
    };
    let delivered = ps.handle(SignalType::Int, &send);
    assert_eq!(delivered, vec![true, false, true]);
    assert_eq!(delivered.iter().filter(|ok| **ok).count(), 2);
    assert_eq!(
        *received.borrow(),
        vec![(sub(1), Signal(SignalType::Int)), (sub(3), Signal(SignalType::Int))]
    );
    assert_eq!(*ps.subscribers(), vec![sub(1), sub(3)]);

    received.borrow_mut().clear();
    let delivered = ps.handle(SignalType::Hup, &send);
    assert_eq!(delivered, vec![true, true]);
    assert_eq!(
        *received.borrow(),
        vec![(sub(1), Signal(SignalType::Hup)), (sub(3), Signal(SignalType::Hup))]
    );
    assert_eq!(ps.len(), 2);
}

#[test]
fn fan_out_to_nobody() {
    let mut ps = ProcessSignals::default();
    let delivered = ps.handle(SignalType::Term, |_: &SyncAddress, _: Signal| true);
    assert_eq!(delivered, vec![]);
    assert_eq!(ps.len(), 0);
}

#[test]
fn fan_out_drops_everyone_when_every_send_fails() {
    let mut ps = ProcessSignals::default();
    ps.subscribe(Subscribe(sub(1)));
    ps.subscribe(Subscribe(sub(2)));
    let delivered = ps.handle(SignalType::Quit, |_: &SyncAddress, _: Signal| false);
    assert_eq!(delivered, vec![false, false]);
    assert_eq!(ps.len(), 0);
}

#[test]
fn a_subscriber_that_subscribed_twice_is_sent_to_twice() {
    let mut ps = ProcessSignals::default();
    ps.subscribe(Subscribe(sub(1)));
    ps.subscribe(Subscribe(sub(1)));
    let count = RefCell::new(0);
    let delivered = ps.handle(SignalType::Child, |_: &SyncAddress, _: Signal| {
        *count.borrow_mut() += 1;
        true
    });
    assert_eq!(delivered, vec![true, true]);
    assert_eq!(*count.borrow(), 2);
    assert_eq!(ps.len(), 2);
}

#[test]
fn service_attaches_one_stream_per_kind() {
    let mut ps = ProcessSignals::default();
    let mut ctx: Context<SignalType> =
        Context::new(Address::new(ArbiterId::from_u128(0xab), 1), true);
    let watches = ps.service_started(&mut ctx);
    assert_eq!(
        watches,
        vec![
            Watch { kind: SignalType::Int, channel: Origin::Stream(0) },
            Watch { kind: SignalType::Hup, channel: Origin::Stream(1) },
            Watch { kind: SignalType::Term, channel: Origin::Stream(2) },
            Watch { kind: SignalType::Quit, channel: Origin::Stream(3) },
            Watch { kind: SignalType::Child, channel: Origin::Stream(4) },
        ]
    );
    assert_eq!(ctx.add_stream(), Some(Origin::Stream(5)));
    assert_eq!(ps.len(), 0);
}

#[test]
fn service_streams_follow_those_already_attached() {
    let mut ps = ProcessSignals::default();
    let mut ctx: Context<SignalType> =
        Context::new(Address::new(ArbiterId::from_u128(0xab), 1), true);
    ctx.add_stream();
    ctx.add_stream();
    let watches = ps.service_started(&mut ctx);
    assert_eq!(watches.len(), 5);
    assert_eq!(watches[0], Watch { kind: SignalType::Int, channel: Origin::Stream(2) });
    assert_eq!(watches[4], Watch { kind: SignalType::Child, channel: Origin::Stream(6) });
}

#[test]
fn signal_service_has_a_fixed_identity() {
    assert_eq!(ProcessSignals::service_id(), ServiceId(PROCESS_SIGNALS));
    assert_eq!(PROCESS_SIGNALS, 1);
}

#[test]
fn default_handler_subscribes_with_its_own_address() {
    let handler = DefaultSignalsHandler::default();
    let ctx: Context<Signal> = Context::new(Address::new(ArbiterId::from_u128(0xab), 7), false);
    let (service, subscribe) = handler.started(&ctx);
    assert_eq!(service, ProcessSignals::service_id());
    assert_eq!(subscribe, Subscribe(sub(7)));
}

#[test]
fn default_handler_exits_on_int_term_quit() {
    let handler = DefaultSignalsHandler::default();
    assert_eq!(handler.handle(Signal(SignalType::Int)), Some(SystemExit(0)));
    assert_eq!(handler.handle(Signal(SignalType::Term)), Some(SystemExit(0)));
    assert_eq!(handler.handle(Signal(SignalType::Quit)), Some(SystemExit(0)));
}

#[test]
fn default_handler_ignores_hup_and_child() {
    let handler = DefaultSignalsHandler::default();
    assert_eq!(handler.handle(Signal(SignalType::Hup)), None);
    assert_eq!(handler.handle(Signal(SignalType::Child)), None);
}
