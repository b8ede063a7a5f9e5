use actix::address::{ActorRef, Address};
use actix::context::{Context, Hook, Phase};
use actix::ident::ArbiterId;
use actix::mailbox::{Envelope, Origin, SendError};

fn fresh(service: bool) -> Context<u32> {
    Context::new(Address::new(ArbiterId::from_u128(0x11), 4), service)
}

#[test]
fn new_context_is_created_and_knows_its_address() {
    let ctx = fresh(false);
    assert_eq!(ctx.phase(), Phase::Created);
    let me = ActorRef { arbiter: ArbiterId::from_u128(0x11), slot: 4 };
    assert_eq!(ctx.address().target(), me);
    assert_eq!(ctx.sync_address().target(), me);
}

#[test]
fn ordinary_actor_runs_started_once() {
    let mut ctx = fresh(false);
    assert_eq!(ctx.start(), vec![Hook::Started]);
    assert_eq!(ctx.phase(), Phase::Running);
    assert_eq!(ctx.start(), vec![]);
    assert_eq!(ctx.phase(), Phase::Running);
}

#[test]
fn service_runs_its_service_hook_first() {
    let mut ctx = fresh(true);
    assert_eq!(ctx.start(), vec![Hook::ServiceStarted, Hook::Started]);
    assert_eq!(ctx.start(), vec![]);
}

#[test]
fn no_message_is_delivered_before_the_actor_starts() {
    let mut ctx = fresh(false);
    assert_eq!(ctx.send(Origin::Outside, 1), Ok(()));
    assert_eq!(ctx.next(), None);
    ctx.start();
    assert_eq!(ctx.next(), Some(Envelope { sender: Origin::Outside, msg: 1 }));
}

#[test]
fn one_message_at_a_time() {
    let mut ctx = fresh(false);
    ctx.start();
    ctx.send(Origin::Outside, 1).unwrap();
    ctx.send(Origin::Outside, 2).unwrap();
    assert_eq!(ctx.next().unwrap().msg, 1);
    assert_eq!(ctx.next(), None);
    ctx.complete();
    assert_eq!(ctx.next().unwrap().msg, 2);
    ctx.complete();
    assert_eq!(ctx.next(), None);
}

#[test]
fn stopping_a_running_actor_runs_stopped_once() {
    let mut ctx = fresh(false);
    ctx.start();
    ctx.send(Origin::Outside, 1).unwrap();
    ctx.send(Origin::Outside, 2).unwrap();
    assert_eq!(ctx.next().unwrap().msg, 1);
    let stopping = ctx.stop();
    assert_eq!(stopping.hook, Some(Hook::Stopped));
    assert_eq!(stopping.undelivered, vec![Envelope { sender: Origin::Outside, msg: 2 }]);
    assert_eq!(ctx.phase(), Phase::Stopped);
    let again = ctx.stop();
    assert_eq!(again.hook, None);
    assert_eq!(again.undelivered, vec![]);
}

#[test]
fn stopping_an_actor_that_never_started_runs_no_hook() {
    let mut ctx = fresh(true);
    ctx.send(Origin::Outside, 8).unwrap();
    let stopping = ctx.stop();
    assert_eq!(stopping.hook, None);
    assert_eq!(stopping.undelivered.len(), 1);
    assert_eq!(ctx.start(), vec![]);
    assert_eq!(ctx.phase(), Phase::Stopped);
}

#[test]
fn a_stopped_actor_accepts_and_delivers_nothing() {
    let mut ctx = fresh(false);
    ctx.start();
    ctx.stop();
    assert_eq!(ctx.send(Origin::Outside, 3), Err(SendError::Closed(3)));
    assert_eq!(ctx.next(), None);
}

#[test]
fn streams_and_continuations_get_consecutive_channels() {
    let mut ctx = fresh(false);
    assert_eq!(ctx.add_stream(), Some(Origin::Stream(0)));
    assert_eq!(ctx.add_stream(), Some(Origin::Stream(1)));
    assert_eq!(ctx.spawn(), Some(Origin::Continuation(0)));
    assert_eq!(ctx.add_stream(), Some(Origin::Stream(2)));
    assert_eq!(ctx.spawn(), Some(Origin::Continuation(1)));
}

#[test]
fn a_stream_is_one_more_sender() {
    let mut ctx = fresh(false);
    ctx.start();
    let a = ctx.add_stream().unwrap();
    let b = ctx.add_stream().unwrap();
    ctx.send(a, 1).unwrap();
    ctx.send(b, 10).unwrap();
    ctx.send(a, 2).unwrap();
    let mut from_a = vec![];
    while let Some(e) = ctx.next() {
        if e.sender == a {
            from_a.push(e.msg);
        }
        ctx.complete();
    }
    assert_eq!(from_a, vec![1, 2]);
}
