//! The message-dispatch core of an actor runtime.
//!
//! Heterogeneous, statically typed messages sent to an actor are reduced to a
//! single uniform representation (an envelope) that can be queued and later
//! applied to the actor's typed state, while a typed reply is routed back to
//! the caller through a one-shot channel.  Addresses erase the concrete actor
//! type behind a per-message "can receive" capability, in a strong (lifetime
//! participating) and a weak (non-owning) flavour.

pub mod actor;
pub mod address;
pub mod envelope;
