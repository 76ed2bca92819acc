//! Handing the events of one wake on to the consumer, over a channel.

use crate::event::WatchEvent;
use crate::watch_loop::{after_publish, LoopState};
use vstd::prelude::*;

verus! {

/// The sending side of a channel of crossbeam-channel. Nothing of what it
/// holds is visible here.
#[verifier::external_type_specification]
#[verifier::external_body]
#[verifier::reject_recursive_types(T)]
pub struct ExSender<T>(crossbeam_channel::Sender<T>);

/// What became of the events of one wake.
#[derive(Debug, Clone, Copy, PartialEq, Eq, Structural)]
pub struct Published {
    /// How many events were handed to the channel.
    pub offered: usize,
    /// How many of them the channel took.
    pub delivered: usize,
    /// The state of the loop afterwards.
    pub next: LoopState,
}

/// `Sender::send` of crossbeam-channel, telling whether the channel took the
/// event. Whether it does depends on the receiving side, so nothing is
/// claimed of the answer. On a bounded channel that is full the call waits
/// for the consumer.
#[verifier::external_body]
fn send_event(sender: &crossbeam_channel::Sender<WatchEvent>, event: WatchEvent) -> (taken: bool) {
    sender.send(event).is_ok()
}

/// Hands every event to the channel, in the order of the list, and goes on
/// with the next one whether or not the channel took it: a consumer that has
/// gone away loses events and does not end the watch.
pub fn publish(
    sender: &crossbeam_channel::Sender<WatchEvent>,
    events: &Vec<WatchEvent>,
    state: LoopState,
) -> (out: Published)
    ensures
        out.offered == events@.len(),
        out.delivered <= events@.len(),
        out.next == state,
{
    let mut delivered: usize = 0;
    let mut next = state;
    let mut i: usize = 0;
    while i < events.len()
        invariant
            i <= events@.len(),
            delivered <= i,
            next == state,
        decreases events@.len() - i,
    {
        let event = WatchEvent { path: events[i].path.clone(), kind: events[i].kind };
        assert(event@ == events@[i as int]@);
        let taken = send_event(sender, event);
        if taken {
            delivered += 1;
        }
        next = after_publish(next, taken);
        i += 1;
    }
    Published { offered: i, delivered, next }
}

} // verus!
