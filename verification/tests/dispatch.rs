//! End-to-end exercises of the dispatch core: a counting actor, driven by a
//! hand-rolled run loop, as the runtime around the library would drive it.

use actor_dispatch::actor::{Actor, Context, Disconnected, Handler, Message};
use actor_dispatch::address::{address_pair, AddressEnvelope, Mailbox, WeakAddress};
use actor_dispatch::envelope::{MessageEnvelope, NonReturningEnvelope, ReturningEnvelope};

struct Counter {
    count: u32,
}

impl Actor for Counter {}

struct Ping;

impl Message for Ping {
    type Reply = u32;
}

impl Handler<Ping> for Counter {
    // The declared semantics of handling a Ping; never called at runtime.
    fn handle_spec(self, _m: Ping) -> (Counter, u32) {
        let next = self.count + 1;
        (Counter { count: next }, next)
    }

    fn handle(&mut self, _m: Ping, _ctx: &mut Context<Counter>) -> u32 {
        self.count += 1;
        self.count
    }
}

/// A second message type for the same actor: many message types flow through
/// the one erased mailbox queue.
struct Step(u32);

impl Message for Step {
    type Reply = u32;
}

impl Handler<Step> for Counter {
    // The declared semantics of handling a Step; never called at runtime.
    fn handle_spec(self, m: Step) -> (Counter, u32) {
        let next = self.count + m.0;
        (Counter { count: next }, next)
    }

    fn handle(&mut self, m: Step, _ctx: &mut Context<Counter>) -> u32 {
        self.count += m.0;
        self.count
    }
}

fn drain(mailbox: &mut Mailbox<Counter>, actor: &mut Counter) {
    let mut ctx = Context::new();
    while mailbox.deliver_next(actor, &mut ctx) {}
}

#[test]
fn send_resolves_to_handler_value() {
    let (addr, mut mailbox) = address_pair::<Counter>();
    let mut actor = Counter { count: 0 };

    let mut r1 = addr.send(Ping);
    let mut r2 = addr.send(Ping);
    let mut r3 = addr.send(Ping);
    drain(&mut mailbox, &mut actor);

    assert_eq!(r1.try_recv(), Ok(Some(1)));
    assert_eq!(r2.try_recv(), Ok(Some(2)));
    assert_eq!(r3.try_recv(), Ok(Some(3)));
    assert_eq!(actor.count, 3);
}

#[test]
fn do_send_advances_state_before_later_send() {
    let (addr, mut mailbox) = address_pair::<Counter>();
    let mut actor = Counter { count: 0 };

    let mut r1 = addr.send(Ping);
    let mut r2 = addr.send(Ping);
    assert_eq!(addr.do_send(Ping), Ok(()));
    let mut r4 = addr.send(Ping);
    drain(&mut mailbox, &mut actor);

    assert_eq!(r1.try_recv(), Ok(Some(1)));
    assert_eq!(r2.try_recv(), Ok(Some(2)));
    // The fire-and-forget handling ran third, unobserved, so the next reply
    // is 4.
    assert_eq!(r4.try_recv(), Ok(Some(4)));
    assert_eq!(actor.count, 4);
}

#[test]
fn mixed_message_types_share_one_mailbox() {
    let (addr, mut mailbox) = address_pair::<Counter>();
    let mut actor = Counter { count: 0 };

    let mut r1 = addr.send(Ping);
    let mut r2 = addr.send(Step(10));
    let mut r3 = addr.send(Ping);
    drain(&mut mailbox, &mut actor);

    assert_eq!(r1.try_recv(), Ok(Some(1)));
    assert_eq!(r2.try_recv(), Ok(Some(11)));
    assert_eq!(r3.try_recv(), Ok(Some(12)));
}

#[test]
fn send_and_do_send_have_identical_state_effects() {
    let (addr_a, mut mailbox_a) = address_pair::<Counter>();
    let (addr_b, mut mailbox_b) = address_pair::<Counter>();
    let mut with_reply = Counter { count: 0 };
    let mut fire_and_forget = Counter { count: 0 };

    let mut reply = addr_a.send(Ping);
    drain(&mut mailbox_a, &mut with_reply);
    assert_eq!(addr_b.do_send(Ping), Ok(()));
    drain(&mut mailbox_b, &mut fire_and_forget);

    assert_eq!(with_reply.count, fire_and_forget.count);
    assert_eq!(reply.try_recv(), Ok(Some(1)));
}

#[test]
fn stopping_actor_resolves_pending_send_to_disconnected() {
    let (addr, mailbox) = address_pair::<Counter>();

    let mut pending = addr.send(Ping);
    // The actor stops before the reply is awaited: the queued envelope is
    // dropped with the mailbox, and the reply resolves instead of hanging.
    drop(mailbox);

    assert_eq!(pending.try_recv(), Err(Disconnected));
}

#[test]
fn send_after_stop_resolves_to_disconnected() {
    let (addr, mailbox) = address_pair::<Counter>();
    drop(mailbox);

    assert!(!AddressEnvelope::<Ping>::is_connected(&addr));
    let mut pending = addr.send(Ping);
    assert_eq!(pending.try_recv(), Err(Disconnected));
}

#[test]
fn do_send_after_stop_returns_disconnected() {
    let (addr, mailbox) = address_pair::<Counter>();
    drop(mailbox);

    assert_eq!(addr.do_send(Ping), Err(Disconnected));
}

#[test]
fn dropped_reply_receiver_is_absorbed_silently() {
    let (addr, mut mailbox) = address_pair::<Counter>();
    let mut actor = Counter { count: 0 };

    let abandoned = addr.send(Ping);
    drop(abandoned);
    // Handling the envelope later finds no listener; the reply is discarded
    // without a panic and the state still advanced.
    drain(&mut mailbox, &mut actor);
    assert_eq!(actor.count, 1);

    let mut next = addr.send(Ping);
    drain(&mut mailbox, &mut actor);
    assert_eq!(next.try_recv(), Ok(Some(2)));
}

#[test]
fn weak_address_delivers_while_strong_owner_lives() {
    let (addr, mut mailbox) = address_pair::<Counter>();
    let mut actor = Counter { count: 0 };
    let weak: WeakAddress<Counter> = addr.downgrade();

    assert!(AddressEnvelope::<Ping>::is_connected(&weak));
    assert_eq!(weak.do_send(Ping), Ok(()));
    let mut reply = weak.send(Ping);
    drain(&mut mailbox, &mut actor);
    assert_eq!(reply.try_recv(), Ok(Some(2)));
}

#[test]
fn weak_address_observes_loss_of_strong_owners() {
    let (addr, mut mailbox) = address_pair::<Counter>();
    let mut actor = Counter { count: 0 };
    let weak = addr.downgrade();

    assert!(AddressEnvelope::<Ping>::is_connected(&weak));
    drop(addr);
    // The weak handle is still held, the mailbox still exists, yet the
    // capability reports unreachable: no strong owner remains.
    assert!(!AddressEnvelope::<Ping>::is_connected(&weak));
    assert_eq!(weak.do_send(Ping), Err(Disconnected));
    let mut lost = weak.send(Ping);
    assert_eq!(lost.try_recv(), Err(Disconnected));
    drain(&mut mailbox, &mut actor);
    assert_eq!(actor.count, 0);
}

#[test]
fn weak_address_stays_connected_while_any_clone_lives() {
    let (addr, mut mailbox) = address_pair::<Counter>();
    let mut actor = Counter { count: 0 };
    let second = addr.clone();
    let weak = addr.downgrade();

    drop(addr);
    // One strong owner remains: the capability is still reachable.
    assert!(AddressEnvelope::<Ping>::is_connected(&weak));
    assert_eq!(weak.do_send(Ping), Ok(()));
    drain(&mut mailbox, &mut actor);
    assert_eq!(actor.count, 1);

    drop(second);
    assert!(!AddressEnvelope::<Ping>::is_connected(&weak));
}

#[test]
fn reply_is_pending_until_envelope_is_handled() {
    let (addr, mut mailbox) = address_pair::<Counter>();
    let mut actor = Counter { count: 0 };

    let mut reply = addr.send(Ping);
    // The envelope is still queued: polling neither blocks nor fails.
    assert_eq!(reply.try_recv(), Ok(None));
    drain(&mut mailbox, &mut actor);
    assert_eq!(reply.try_recv(), Ok(Some(1)));
}

#[test]
fn raw_receiver_can_be_awaited_by_the_harness() {
    let (addr, mut mailbox) = address_pair::<Counter>();
    let mut actor = Counter { count: 0 };

    let reply = addr.send(Ping);
    drain(&mut mailbox, &mut actor);
    // Blocking on the reply is the harness's business, on an executor of its
    // own choosing, outside the library.
    let raw = reply.into_receiver();
    assert_eq!(futures::executor::block_on(raw), Ok(1));
}

#[test]
fn mailbox_observes_strong_owners() {
    let (addr, mailbox) = address_pair::<Counter>();
    assert!(mailbox.has_strong_owners());
    drop(addr);
    assert!(!mailbox.has_strong_owners());
}

#[test]
fn non_returning_envelope_runs_handler_and_discards_reply() {
    let mut actor = Counter { count: 0 };
    let mut ctx = Context::new();
    let envelope = NonReturningEnvelope::<Counter, Ping>::new(Ping);
    envelope.handle(&mut actor, &mut ctx);
    assert_eq!(actor.count, 1);
}

#[test]
fn returning_envelope_routes_reply_to_receiver() {
    let mut actor = Counter { count: 6 };
    let mut ctx = Context::new();
    let (envelope, mut reply) = ReturningEnvelope::<Counter, Ping>::new(Ping);
    envelope.handle(&mut actor, &mut ctx);
    assert_eq!(reply.try_recv(), Ok(Some(7)));
    assert_eq!(actor.count, 7);
}
