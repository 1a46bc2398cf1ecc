//! The capability contracts: what it means to be an actor, a message, and a
//! handler of a message, plus the one error kind of the dispatch layer.

use vstd::prelude::*;

verus! {

/// Marker capability: a type whose state is owned and mutated by exactly one
/// run loop at a time.  Actors are only ever reached through addresses, so the
/// type must be free of borrowed data.
pub trait Actor: Sized + 'static {
}

/// A message an actor may receive.  `Reply` is the type a handler produces
/// when it consumes a value of this message type.
pub trait Message: Sized + 'static {
    type Reply;
}

/// The execution context a run loop supplies while an envelope is being
/// handled.  Its shape is opaque to the dispatch layer; it only ties the
/// handling call to the actor type it runs for.
pub struct Context<A: Actor> {
    _actor: core::marker::PhantomData<A>,
}

impl<A: Actor> Context<A> {
    pub fn new() -> (c: Context<A>) {
        Context { _actor: core::marker::PhantomData }
    }
}

/// The single error of this layer: the target actor's mailbox endpoint is no
/// longer reachable (the actor stopped, or no strong owner keeps it alive).
/// Callers must treat it as a normal, expected outcome of actor lifecycle.
#[derive(Clone, Copy, Debug, PartialEq, Eq, Structural)]
pub struct Disconnected;

/// The capability "actor type `Self` can process messages of type `M`".
///
/// `handle_spec` is the author's statement of what handling does: from an
/// actor state and a message it gives the successor state and the reply.  The
/// executable `handle` must realise exactly that function; the dispatch layer
/// builds on this to guarantee that an envelope applies the handler exactly
/// once.
pub trait Handler<M: Message>: Actor {
    /// The successor state and the reply that handling `m` in state `self`
    /// produces.
    spec fn handle_spec(self, m: M) -> (Self, M::Reply);

    /// Consume one message occurrence, mutating the actor state and producing
    /// the reply, exactly as `handle_spec` says.
    fn handle(&mut self, m: M, ctx: &mut Context<Self>) -> (r: M::Reply)
        ensures
            (*final(self), r) == old(self).handle_spec(m),
    ;
}

} // verus!
