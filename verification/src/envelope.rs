//! Message envelopes: the type-erasure point of the dispatch core.
//!
//! A concrete envelope owns exactly one message occurrence and, for the
//! returning variant, the sending half of a one-shot reply channel.  Handling
//! an envelope consumes it, so a message can be applied to its actor at most
//! once; the contract of [`MessageEnvelope::handle`] pins the successor state
//! to exactly one application of the actor's handler.

use vstd::prelude::*;

use crate::actor::{Actor, Context, Disconnected, Handler, Message};
use futures::channel::oneshot::Canceled;
use futures::channel::oneshot::Receiver;
use futures::channel::oneshot::Sender;

verus! {

/// The sending half of the one-shot reply channel, `futures`' `oneshot`.
#[verifier::external_type_specification]
#[verifier::external_body]
#[verifier::reject_recursive_types(T)]
pub struct ExSender<T>(Sender<T>);

/// The receiving half of the one-shot reply channel, `futures`' `oneshot`.
#[verifier::external_type_specification]
#[verifier::external_body]
#[verifier::reject_recursive_types(T)]
pub struct ExReceiver<T>(Receiver<T>);

/// `futures`' error for a one-shot pair whose sending half was dropped
/// without a value.
#[verifier::external_type_specification]
#[verifier::external_body]
pub struct ExCanceled(Canceled);

/// Relies on `futures::channel::oneshot::channel`: creates the two halves of
/// a fresh single-producer, single-consumer one-shot pair.
pub assume_specification<T>[ futures::channel::oneshot::channel ]() -> (r: (
    Sender<T>,
    Receiver<T>,
));

/// Relies on `futures::channel::oneshot::Sender::send`: hands the value to
/// the paired receiver.  At most one value is ever sent, as the call consumes
/// the sender; if the receiving half was already dropped the value comes back
/// as `Err` and is discarded here, silently — a missing listener is never an
/// error for this side.
#[verifier::external_body]
fn forward_reply<T>(tx: Sender<T>, val: T) {
    let _ = tx.send(val);
}

/// Relies on `futures::channel::oneshot::Receiver::try_recv`: without
/// blocking and without panicking, yields the value if the paired sender has
/// sent one, nothing if the pair is still pending, or `Canceled` if the
/// sender was dropped without sending.
#[verifier::external_body]
fn poll_reply<T>(rx: &mut Receiver<T>) -> (r: Result<Option<T>, Canceled>) {
    rx.try_recv()
}

/// The caller's half of a send-with-reply: resolves to the value the handler
/// produced, or to [`Disconnected`] if the envelope was dropped (actor
/// stopped) before a reply was sent.
#[verifier::reject_recursive_types(T)]
pub struct ReplyReceiver<T> {
    rx: Receiver<T>,
}

impl<T> ReplyReceiver<T> {
    /// Poll for the reply, never blocking and never panicking: `Ok(Some(v))`
    /// once the handler's value has arrived, `Ok(None)` while the envelope is
    /// still in flight, `Err(Disconnected)` once the actor stopped without
    /// replying.  Resolution of the underlying one-shot pair is the trusted
    /// part; [`interpret_reply`] states exactly how each outcome is surfaced
    /// to the caller.
    pub fn try_recv(&mut self) -> Result<Option<T>, Disconnected> {
        let raw = poll_reply(&mut self.rx);
        interpret_reply(raw)
    }

    /// Give up the dispatch layer's interpretation and take the raw one-shot
    /// receiver, for a harness that wants to await it on an executor of its
    /// own choosing, outside this library.
    pub fn into_receiver(self) -> Receiver<T> {
        self.rx
    }
}

/// How a one-shot outcome is surfaced to the sender's caller: anything the
/// pair produced (a value, or a still-pending marker) is passed through
/// untouched, and a canceled pair (the actor stopped before replying) becomes
/// [`Disconnected`] — never a panic and never a silent success.
pub fn interpret_reply<T>(raw: Result<T, Canceled>) -> (r: Result<T, Disconnected>)
    ensures
        raw is Ok ==> r is Ok && r->Ok_0 == raw->Ok_0,
        raw is Err ==> r == Result::<T, Disconnected>::Err(Disconnected),
{
    match raw {
        Ok(v) => Ok(v),
        Err(_) => Err(Disconnected),
    }
}

/// A carrier of exactly one message occurrence for an actor of type
/// `Self::Actor`.  The message and reply types are fixed by the concrete
/// implementation and do not appear in the trait: this is the erasure point.
///
/// Handling consumes the envelope, so it can happen at most once, and the
/// contract guarantees that the actor's successor state is exactly
/// `spec_effect` — for both variants, one application of the actor's handler.
pub trait MessageEnvelope: Sized {
    /// The type of actor this envelope carries a message for.
    type Actor: Actor;

    /// The successor state that handling this envelope leaves the actor in.
    spec fn spec_effect(self, a: Self::Actor) -> Self::Actor;

    /// Apply the carried message to the actor.  The run loop must drive this
    /// call before taking the next envelope for the same actor.
    fn handle(self, act: &mut Self::Actor, ctx: &mut Context<Self::Actor>)
        ensures
            *final(act) == self.spec_effect(*old(act)),
    ;
}

/// An envelope that routes the handler's reply back through a one-shot
/// channel to the caller that constructed it.
pub struct ReturningEnvelope<A: Actor, M: Message> {
    message: M,
    result_sender: Sender<M::Reply>,
    _actor: core::marker::PhantomData<A>,
}

impl<A: Actor, M: Message> ReturningEnvelope<A, M> {
    /// The message occurrence this envelope carries.
    pub closed spec fn msg(self) -> M {
        self.message
    }

    /// Wrap `message` together with the sending half of a fresh one-shot
    /// pair; the paired [`ReplyReceiver`] is handed back so the caller keeps
    /// a way to await the result.
    pub fn new(message: M) -> (r: (ReturningEnvelope<A, M>, ReplyReceiver<M::Reply>))
        ensures
            r.0.msg() == message,
    {
        let (tx, rx) = futures::channel::oneshot::channel();
        let envelope = ReturningEnvelope {
            message,
            result_sender: tx,
            _actor: core::marker::PhantomData,
        };
        (envelope, ReplyReceiver { rx })
    }
}

impl<A: Handler<M>, M: Message> MessageEnvelope for ReturningEnvelope<A, M> {
    type Actor = A;

    open spec fn spec_effect(self, a: A) -> A {
        a.handle_spec(self.msg()).0
    }

    fn handle(self, act: &mut A, ctx: &mut Context<A>) {
        let ReturningEnvelope { message, result_sender, _actor } = self;
        let r = act.handle(message, ctx);
        // The receiving half may already be gone: the caller lost interest
        // (fire-and-forget, timeout).  That is the expected case, absorbed
        // inside forward_reply, never an error for this side.
        forward_reply(result_sender, r);
    }
}

/// An envelope that owns only the message; the handler still runs to
/// completion, but its reply is discarded entirely.
pub struct NonReturningEnvelope<A: Actor, M: Message> {
    message: M,
    _actor: core::marker::PhantomData<A>,
}

impl<A: Actor, M: Message> NonReturningEnvelope<A, M> {
    /// The message occurrence this envelope carries.
    pub closed spec fn msg(self) -> M {
        self.message
    }

    /// Wrap `message` alone, for a fire-and-forget send.
    pub fn new(message: M) -> (r: NonReturningEnvelope<A, M>)
        ensures
            r.msg() == message,
    {
        NonReturningEnvelope { message, _actor: core::marker::PhantomData }
    }
}

impl<A: Handler<M>, M: Message> MessageEnvelope for NonReturningEnvelope<A, M> {
    type Actor = A;

    open spec fn spec_effect(self, a: A) -> A {
        a.handle_spec(self.msg()).0
    }

    fn handle(self, act: &mut A, ctx: &mut Context<A>) {
        let NonReturningEnvelope { message, _actor } = self;
        let _ = act.handle(message, ctx);
    }
}

/// Law: handling an envelope applies the actor's handler to the carried
/// message exactly once — the successor state is precisely the first
/// component of `handle_spec`, with no skipped and no double application.
pub proof fn lemma_handle_is_one_application<A: Handler<M>, M: Message>(
    a: A,
    r: ReturningEnvelope<A, M>,
    n: NonReturningEnvelope<A, M>,
)
    ensures
        r.spec_effect(a) == a.handle_spec(r.msg()).0,
        n.spec_effect(a) == a.handle_spec(n.msg()).0,
{
}

/// Law: a returning and a non-returning envelope built from the same message
/// have identical effects on the actor's state; they differ only in whether
/// the reply is observable.
pub proof fn lemma_variants_agree_on_state<A: Handler<M>, M: Message>(
    a: A,
    r: ReturningEnvelope<A, M>,
    n: NonReturningEnvelope<A, M>,
)
    requires
        r.msg() == n.msg(),
    ensures
        r.spec_effect(a) == n.spec_effect(a),
{
}

/// A boxed envelope with its message and reply types fully erased, ready for
/// one homogeneous mailbox queue per actor.
///
/// Verus does not support trait objects, so the box is held inside an opaque
/// struct and dispatch through it is unverified plumbing with no contract of
/// its own; every verified guarantee lives on the concrete envelopes it is
/// built from.
#[verifier::external_body]
#[verifier::reject_recursive_types(A)]
pub(crate) struct ErasedEnvelope<A: Actor> {
    run: Box<dyn FnOnce(&mut A, &mut Context<A>)>,
}

impl<A: Actor> ErasedEnvelope<A> {
    /// Relies on `Box::new` of a closure whose body only calls the concrete
    /// envelope's verified `handle`; the box erases the envelope's type.
    #[verifier::external_body]
    pub(crate) fn erase<E: MessageEnvelope<Actor = A> + 'static>(env: E) -> (r: ErasedEnvelope<A>) {
        ErasedEnvelope { run: Box::new(move |act: &mut A, ctx: &mut Context<A>| env.handle(act, ctx)) }
    }

    /// The run-loop boundary: apply the erased envelope to the actor.  The
    /// call consumes the envelope, so it runs at most once; what it does to
    /// the actor is stated on the concrete envelope it was erased from.
    #[verifier::external_body]
    pub(crate) fn apply(self, act: &mut A, ctx: &mut Context<A>) {
        (self.run)(act, ctx)
    }
}

} // verus!
