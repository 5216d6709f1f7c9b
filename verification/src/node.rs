//! The contract between the runtime and the state machine that it hosts.
use vstd::prelude::*;
use crate::error::Failure;
use crate::init::Init;
use crate::message::{Event, Message};

verus! {

/// A node's logic: how it is built from the handshake, and how it reacts to
/// one event. `S` is whatever the embedding program hands to the node when
/// it starts, `P` the payloads it speaks, `I` what can be injected into it.
///
/// The runtime promises a handler that its steps never overlap and that it
/// sees every event of one feed in the order of that feed. It asks nothing
/// of the handler: whatever a step returns and whatever it leaves in the
/// outbox, the runtime carries on from there.
pub trait Node<S, P, I>: Sized {
    /// Builds the node from the data of the init request.
    fn from_init(seed: S, init: Init) -> Result<Self, Failure>;

    /// Reacts to one event. Messages to send are pushed onto `outbox`; they
    /// go out in that order once the step has returned.
    fn step(&mut self, event: Event<P, I>, outbox: &mut Vec<Message<P>>) -> Result<(), Failure>;
}

} // verus!
