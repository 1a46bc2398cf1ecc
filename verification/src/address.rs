//! Addresses: handles referring to an actor's mailbox endpoint.
//!
//! A strong [`Address`] participates in keeping the actor reachable; a
//! [`WeakAddress`] does not extend its lifetime and observes the actor
//! becoming unreachable.  Both erase the concrete actor type behind the
//! per-message [`AddressEnvelope`] capability.  The mailbox itself — an
//! unbounded, per-producer-FIFO queue of erased envelopes — is `futures`'
//! mpsc channel, consumed only through its boundary contract: enqueue
//! succeeds or reports the endpoint closed.

use vstd::prelude::*;

use crate::actor::{Actor, Context, Disconnected, Handler, Message};
use crate::envelope::{ErasedEnvelope, NonReturningEnvelope, ReplyReceiver, ReturningEnvelope};
use futures::channel::mpsc::TryRecvError;
use futures::channel::mpsc::TrySendError;
use futures::channel::mpsc::UnboundedReceiver;
use futures::channel::mpsc::UnboundedSender;
use std::sync::Arc;

verus! {

/// The producer half of the mailbox queue, `futures`' unbounded mpsc.
#[verifier::external_type_specification]
#[verifier::external_body]
#[verifier::reject_recursive_types(T)]
pub struct ExUnboundedSender<T>(UnboundedSender<T>);

/// The consumer half of the mailbox queue, `futures`' unbounded mpsc.
#[verifier::external_type_specification]
#[verifier::external_body]
#[verifier::reject_recursive_types(T)]
pub struct ExUnboundedReceiver<T>(UnboundedReceiver<T>);

/// `futures`' error for an enqueue on a closed mailbox; it carries the
/// rejected item back.
#[verifier::external_type_specification]
#[verifier::external_body]
#[verifier::reject_recursive_types(T)]
pub struct ExTrySendError<T>(TrySendError<T>);

/// `futures`' error for a dequeue that found the mailbox empty or closed.
#[verifier::external_type_specification]
#[verifier::external_body]
pub struct ExTryRecvError(TryRecvError);

/// Relies on `futures::channel::mpsc::unbounded`: creates the two connected
/// halves of a fresh unbounded channel.
pub assume_specification<T>[ futures::channel::mpsc::unbounded ]() -> (r: (
    UnboundedSender<T>,
    UnboundedReceiver<T>,
));

/// Relies on `futures::channel::mpsc::UnboundedSender::unbounded_send`:
/// enqueues the message, or fails — returning it back inside the error —
/// exactly when the channel is closed (receiver dropped or closed).
pub assume_specification<T>[ UnboundedSender::<T>::unbounded_send ](
    this: &UnboundedSender<T>,
    msg: T,
) -> (r: Result<(), TrySendError<T>>);

/// Relies on `futures::channel::mpsc::UnboundedSender::is_closed`: reports,
/// without blocking or side effect, whether the channel is closed.
pub assume_specification<T>[ UnboundedSender::<T>::is_closed ](
    this: &UnboundedSender<T>,
) -> (r: bool);

/// Relies on `futures::channel::mpsc::UnboundedSender`'s `Clone`: the clone
/// is a producer handle for the same channel.
pub assume_specification<T>[ <UnboundedSender<T> as Clone>::clone ](
    this: &UnboundedSender<T>,
) -> (r: UnboundedSender<T>);

/// Relies on `futures::channel::mpsc::UnboundedReceiver::try_recv`: dequeues
/// the next message without blocking, or fails when the queue is empty or
/// closed.
pub assume_specification<T>[ UnboundedReceiver::<T>::try_recv ](
    this: &mut UnboundedReceiver<T>,
) -> (r: Result<T, TryRecvError>);

/// A non-owning liveness token paired with the strong owners of an actor's
/// endpoint.  Verus cannot declare `std::sync::Weak` (it carries an allocator
/// parameter), so the weak reference is held inside this opaque struct.
#[verifier::external_body]
pub struct LivenessToken {
    observer: std::sync::Weak<()>,
}

/// Relies on `std::sync::Arc::downgrade`: the token observes the same
/// allocation as `owner` without keeping it alive.
#[verifier::external_body]
fn observe_owner(owner: &Arc<()>) -> (t: LivenessToken) {
    LivenessToken { observer: Arc::downgrade(owner) }
}

/// Relies on `std::sync::Weak::upgrade`: it returns `Some` while the strong
/// count of the observed allocation is nonzero at the instant of the call,
/// and `None` once it dropped to zero.
#[verifier::external_body]
fn token_alive(t: &LivenessToken) -> (r: bool) {
    t.observer.upgrade().is_some()
}

/// How an enqueue outcome is surfaced to the sender: success is passed
/// through, and a rejected envelope (the mailbox is closed) becomes
/// [`Disconnected`] — if and only if the mailbox refused it.
pub fn interpret_enqueue<T>(raw: Result<(), TrySendError<T>>) -> (r: Result<(), Disconnected>)
    ensures
        raw is Ok <==> r is Ok,
        raw is Err ==> r == Result::<(), Disconnected>::Err(Disconnected),
{
    match raw {
        Ok(u) => Ok(u),
        Err(_) => Err(Disconnected),
    }
}

/// The capability "this handle can deliver messages of type `M`", with the
/// concrete actor type erased.  Implemented once for the strong backing and
/// once for the weak one; the two behave identically except for lifetime
/// participation, and downgrading exists only on the strong type, so that
/// downgrading an already-weak capability is unrepresentable.
pub trait AddressEnvelope<M: Message>: Sized {
    /// True iff the actor's mailbox endpoint is still reachable.  No
    /// blocking, no side effect.
    fn is_connected(&self) -> bool;

    /// Fire and forget: wrap `message` in a non-returning envelope and
    /// enqueue it.  Exactly one enqueue, no waiting for the handler;
    /// `Disconnected` iff the mailbox refused the envelope.
    fn do_send(&self, message: M) -> Result<(), Disconnected>;

    /// Send with reply: wrap `message` in a returning envelope, enqueue it,
    /// and hand back the receiver that resolves to the handler's reply — or
    /// to `Disconnected` if the actor stops before replying.  Returns
    /// immediately; polling or awaiting the receiver is the caller's
    /// suspension point.
    fn send(&self, message: M) -> ReplyReceiver<M::Reply>;
}

/// A strong handle: while it exists, the actor's endpoint has a strong owner
/// and the mailbox queue stays open for it.  Cloning yields one more strong
/// owner of the same endpoint.
#[verifier::reject_recursive_types(A)]
pub struct Address<A: Actor> {
    sender: UnboundedSender<ErasedEnvelope<A>>,
    owner: Arc<()>,
}

/// A weak handle: it can deliver messages while the actor lives, but does not
/// keep it alive, and reports the endpoint unreachable once no strong owner
/// remains — even though the handle itself is still held.
#[verifier::reject_recursive_types(A)]
pub struct WeakAddress<A: Actor> {
    sender: UnboundedSender<ErasedEnvelope<A>>,
    liveness: LivenessToken,
}

/// The dequeueing end of an actor's mailbox, for the run loop that drives the
/// actor: it takes envelopes out one at a time and must apply each to
/// completion before taking the next.
#[verifier::reject_recursive_types(A)]
pub struct Mailbox<A: Actor> {
    receiver: UnboundedReceiver<ErasedEnvelope<A>>,
    liveness: LivenessToken,
}

/// Creates a connected pair of endpoints for one actor: the strong address
/// callers send through, and the mailbox its run loop drains.  Dropping the
/// mailbox stops the actor: every later send observes `Disconnected`.
pub fn address_pair<A: Actor>() -> (r: (Address<A>, Mailbox<A>)) {
    let (tx, rx) = futures::channel::mpsc::unbounded();
    let owner = Arc::new(());
    let liveness = observe_owner(&owner);
    (Address { sender: tx, owner }, Mailbox { receiver: rx, liveness })
}

/// Relies on `std::sync::Arc`'s `Clone`: one more strong owner of the same
/// allocation.
#[verifier::external_body]
fn clone_owner(owner: &Arc<()>) -> (r: Arc<()>) {
    owner.clone()
}

impl<A: Actor> Clone for Address<A> {
    /// One more strong owner of the same endpoint: the actor stays reachable
    /// while either handle lives.
    fn clone(&self) -> (r: Address<A>) {
        Address { sender: self.sender.clone(), owner: clone_owner(&self.owner) }
    }
}

impl<A: Actor> Address<A> {
    /// A non-owning capability to the same endpoint.  Only the strong type
    /// offers this: downgrading an already-weak capability cannot be written.
    pub fn downgrade(&self) -> WeakAddress<A> {
        WeakAddress {
            sender: self.sender.clone(),
            liveness: observe_owner(&self.owner),
        }
    }
}

impl<A: Handler<M>, M: Message> AddressEnvelope<M> for Address<A> {
    fn is_connected(&self) -> bool {
        !self.sender.is_closed()
    }

    fn do_send(&self, message: M) -> Result<(), Disconnected> {
        let envelope = NonReturningEnvelope::<A, M>::new(message);
        let raw = self.sender.unbounded_send(ErasedEnvelope::erase(envelope));
        interpret_enqueue(raw)
    }

    fn send(&self, message: M) -> ReplyReceiver<M::Reply> {
        let (envelope, reply) = ReturningEnvelope::<A, M>::new(message);
        // A refused enqueue drops the envelope, and with it the sending half
        // of the reply pair: the receiver then resolves to Disconnected, the
        // asynchronous surface of the same failure.
        let _ = self.sender.unbounded_send(ErasedEnvelope::erase(envelope));
        reply
    }
}

impl<A: Handler<M>, M: Message> AddressEnvelope<M> for WeakAddress<A> {
    fn is_connected(&self) -> bool {
        token_alive(&self.liveness) && !self.sender.is_closed()
    }

    fn do_send(&self, message: M) -> Result<(), Disconnected> {
        if !token_alive(&self.liveness) {
            // No strong owner remains: the actor is vanishing, and a weak
            // handle must not feed its mailbox any more.
            return Err(Disconnected);
        }
        let envelope = NonReturningEnvelope::<A, M>::new(message);
        let raw = self.sender.unbounded_send(ErasedEnvelope::erase(envelope));
        interpret_enqueue(raw)
    }

    fn send(&self, message: M) -> ReplyReceiver<M::Reply> {
        let (envelope, reply) = ReturningEnvelope::<A, M>::new(message);
        if token_alive(&self.liveness) {
            let _ = self.sender.unbounded_send(ErasedEnvelope::erase(envelope));
        }
        // Otherwise the envelope is dropped here and the receiver resolves
        // to Disconnected.
        reply
    }
}

impl<A: Actor> Mailbox<A> {
    /// The run-loop boundary: the next queued envelope, or `None` when the
    /// queue is currently empty.  Envelopes come out in per-producer FIFO
    /// order, a guarantee of the underlying channel.
    fn next_envelope(&mut self) -> Option<ErasedEnvelope<A>> {
        match self.receiver.try_recv() {
            Ok(envelope) => Some(envelope),
            Err(_) => None,
        }
    }

    /// True while at least one strong address to this actor remains; a run
    /// loop may use it to decide to stop once the actor is unreachable.
    pub fn has_strong_owners(&self) -> bool {
        token_alive(&self.liveness)
    }

    /// Drive one queued envelope, if any, to completion against the actor's
    /// state: the per-actor serialization point.  Returns whether an envelope
    /// was handled; an idle call leaves the actor untouched.
    pub fn deliver_next(&mut self, act: &mut A, ctx: &mut Context<A>) -> (r: bool)
        ensures
            !r ==> *final(act) == *old(act),
    {
        match self.next_envelope() {
            Some(envelope) => {
                envelope.apply(act, ctx);
                true
            },
            None => false,
        }
    }
}

} // verus!
