//! The broadcast channel that fans events out to listeners.
//!
//! The channel is tokio's, reached through rocket. What it holds changes
//! under the hands of other tasks, so the contracts here claim nothing of its
//! contents. They speak of places in its stream of values: where the channel
//! stores next, which only a send can move, and where a receiver reads next.
//! What the library itself hands to the channel is recorded in the history of
//! the shared state.

use crate::event::Event;
use rocket::tokio::sync::broadcast::{Receiver, Sender};
use vstd::prelude::*;

verus! {

/// Declares `tokio::sync::broadcast::Sender`, the sending end of a channel,
/// as a type that may stand in fields and signatures. Nothing inside it is
/// visible to the proofs.
#[verifier::external_type_specification]
#[verifier::external_body]
#[verifier::reject_recursive_types(T)]
pub struct ExSender<T>(Sender<T>);

/// Declares `tokio::sync::broadcast::Receiver`, one listener's end of a
/// channel, as a type that may stand in signatures. Nothing inside it is
/// visible to the proofs.
#[verifier::external_type_specification]
#[verifier::external_body]
#[verifier::reject_recursive_types(T)]
pub struct ExReceiver<T>(Receiver<T>);

/// The place in the channel's stream of values at which the channel behind
/// `queue` stores the next value that it takes in. The channel numbers the
/// values that it takes in by 0, 1, 2, ... and starts again at 0 after the
/// last `u64`; a value sent while nobody is subscribed is not taken in and
/// gets no number.
pub uninterp spec fn channel_position(queue: Sender<Event>) -> u64;

/// The place in the channel's stream of values from which `receiver` reads
/// next. It reads the values from there on, in their order, and none from
/// before.
pub uninterp spec fn receiver_cursor(receiver: Receiver<Event>) -> u64;

/// The place that follows `position` in a channel's stream.
pub open spec fn position_after(position: u64) -> u64 {
    if position == u64::MAX {
        0
    } else {
        (position + 1) as u64
    }
}

/// Calls `tokio::sync::broadcast::channel`, which makes a channel that keeps
/// at least the last `capacity` values for each receiver, and returns its
/// sender with a first receiver. Both ends start at place 0 of the stream.
/// The outside function panics on a capacity of zero or above half of
/// `usize::MAX`; the precondition leaves both out.
#[verifier::external_body]
pub(crate) fn open_channel(capacity: usize) -> (ends: (Sender<Event>, Receiver<Event>))
    requires
        0 < capacity <= usize::MAX / 2,
    ensures
        channel_position(ends.0) == 0,
        receiver_cursor(ends.1) == 0,
{
    rocket::tokio::sync::broadcast::channel(capacity)
}

/// Calls `Sender::send`, which does not wait for any receiver: it stores
/// `event` at the channel's position for the receivers that are subscribed at
/// this moment and moves the position on by one, or drops the event and
/// leaves the position where there is none. Either outcome is fine for the
/// simulation, so the outside result is let go. The sender is taken by
/// `&mut` because the call moves the position.
#[verifier::external_body]
pub(crate) fn publish(queue: &mut Sender<Event>, event: Event)
    ensures
        channel_position(*final(queue)) == channel_position(*old(queue))
            || channel_position(*final(queue)) == position_after(channel_position(*old(queue))),
{
    let _ = queue.send(event);
}

/// Calls `Sender::subscribe`, which returns a new receiver whose cursor is
/// the channel's position at this moment: it sees the values sent after this
/// call and none sent before it. The outside function panics only when the
/// channel already has a quarter of `usize::MAX` receivers, more than fit in
/// memory.
#[verifier::external_body]
pub(crate) fn new_receiver(queue: &Sender<Event>) -> (receiver: Receiver<Event>)
    ensures
        receiver_cursor(receiver) == channel_position(*queue),
{
    queue.subscribe()
}

} // verus!
