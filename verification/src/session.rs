//! A listener's session: what to do with each thing that waiting on the
//! channel can yield.
//!
//! The caller subscribes, waits, and hands each outcome of the wait to
//! `session_step`; it forwards, goes on waiting, or ends the session as the
//! step says.

use crate::event::Event;
use vstd::prelude::*;

verus! {

/// What a wait on the channel yielded.
#[derive(Debug, PartialEq, Eq)]
pub enum Delivery {
    /// The next event.
    Event(Event),
    /// The listener fell behind and this many events were dropped unseen.
    Lagged(u64),
    /// The channel has shut down.
    Closed,
    /// The listener went away, or the process is shutting down.
    Cancelled,
}

/// What the session does next.
#[derive(Debug, PartialEq, Eq)]
pub enum SessionStep {
    /// Pass the event on to the listener, unchanged, under its sequence id.
    Forward(Event),
    /// Pass nothing on and wait again.
    Continue,
    /// End the session and give up the subscription.
    Stop,
}

/// The step that follows a delivery. An event is forwarded as it is. A lag is
/// passed over in silence: nothing is forwarded and the session goes on. The
/// session ends when the channel has shut down or the listener is gone.
pub open spec fn step_after(delivery: Delivery) -> SessionStep {
    match delivery {
        Delivery::Event(event) => SessionStep::Forward(event),
        Delivery::Lagged(_) => SessionStep::Continue,
        Delivery::Closed => SessionStep::Stop,
        Delivery::Cancelled => SessionStep::Stop,
    }
}

/// Decides the session's next step.
pub fn session_step(delivery: Delivery) -> (step: SessionStep)
    ensures
        step == step_after(delivery),
{
    match delivery {
        Delivery::Event(event) => SessionStep::Forward(event),
        Delivery::Lagged(_) => SessionStep::Continue,
        Delivery::Closed => SessionStep::Stop,
        Delivery::Cancelled => SessionStep::Stop,
    }
}

impl SessionStep {
    /// The sequence id under which the step passes an event on, if it does.
    pub open spec fn spec_forwarded_id(self) -> Option<u64> {
        match self {
            SessionStep::Forward(event) => Some(event.sequence_id),
            _ => None,
        }
    }

    pub fn forwarded_id(&self) -> (id: Option<u64>)
        ensures
            id == self.spec_forwarded_id(),
    {
        match self {
            SessionStep::Forward(event) => Some(event.sequence_id),
            _ => None,
        }
    }
}

} // verus!
