//! The decisions of the watch loop.
//!
//! The loop itself blocks in the operating system's notification call and so
//! runs outside this library. Between two calls it asks here what to do:
//! [`before_wait`] before it blocks, [`on_wake`] with what the call came back
//! with, and [`after_publish`] once it has handed the events on.

use crate::decode::{chain_of, decode_notifications, events_of};
use crate::error::WatchError;
use crate::event::{event_views, EventView, WatchEvent};
use vstd::prelude::*;

verus! {

/// The error code with which the blocking call returns when it was cancelled
/// on purpose. It ends the loop and is no failure.
pub const OPERATION_ABORTED: u32 = 995;

/// Where the loop stands.
#[derive(Debug, Clone, Copy, PartialEq, Eq, Structural)]
pub enum LoopState {
    /// Blocked in the notification call, or about to block again.
    Watching,
    /// Leaving: the directory handle is released and the task returns.
    Stopping,
}

/// What the blocking call came back with.
#[derive(Debug, Clone, Copy, PartialEq, Eq, Structural)]
pub enum Wake {
    /// The call succeeded and filled this many bytes of the buffer.
    Filled(u32),
    /// The call failed with this error code.
    Failed(u32),
}

/// What the loop does after one wake.
#[derive(Debug, Clone)]
pub struct Step {
    /// The events to publish, in this order.
    pub events: Vec<WatchEvent>,
    /// The state after this wake.
    pub next: LoopState,
    /// What to report, once, on the diagnostic channel: the failure that
    /// ends the loop, or that part of the buffer was skipped.
    pub report: Option<WatchError>,
}

/// The state that follows a wake.
pub open spec fn state_after(wake: Wake) -> LoopState {
    match wake {
        Wake::Filled(_) => LoopState::Watching,
        Wake::Failed(_) => LoopState::Stopping,
    }
}

/// What a wake has the loop report: the code of a failed call, unless the
/// call was cancelled on purpose, or the anomaly of a buffer with a record
/// that does not fit.
pub open spec fn report_after(buf: Seq<u8>, wake: Wake) -> Option<WatchError> {
    match wake {
        Wake::Filled(bytes) => if chain_of(buf, bytes as int).truncated {
            Some(WatchError::DecodeAnomaly)
        } else {
            None
        },
        Wake::Failed(code) => if code == OPERATION_ABORTED {
            None
        } else {
            Some(WatchError::FatalWatchError(code))
        },
    }
}

/// The events that a wake has the loop publish: those of the filled part of
/// the buffer, and none after a failed call.
pub open spec fn events_after(root: Seq<char>, buf: Seq<u8>, wake: Wake) -> Seq<EventView> {
    match wake {
        Wake::Filled(bytes) => events_of(root, chain_of(buf, bytes as int).records),
        Wake::Failed(_) => Seq::empty(),
    }
}

/// The state in which the loop goes on after it has looked at the stop
/// signal.
pub open spec fn state_before_wait(state: LoopState, stop_requested: bool) -> LoopState {
    if stop_requested {
        LoopState::Stopping
    } else {
        state
    }
}

/// Decides, before the loop blocks, whether it goes on: it leaves once a stop
/// was requested or it is already leaving, and watches otherwise.
pub fn before_wait(state: LoopState, stop_requested: bool) -> (next: LoopState)
    ensures
        next == state_before_wait(state, stop_requested),
{
    if stop_requested {
        LoopState::Stopping
    } else {
        state
    }
}

/// Decides what follows one return of the blocking call under `root`, `buf`
/// being the buffer that the call wrote to.
///
/// A call that filled bytes has its records decoded and published, and the
/// loop watches on; with zero bytes nothing is published. A record that does
/// not fit costs the rest of that buffer and nothing more. A failed call ends
/// the loop: silently where the call was cancelled on purpose, with the error
/// code to report otherwise. A stop that was requested while the call was
/// blocked does not keep this wake's events back: it is seen by the next
/// [`before_wait`].
pub fn on_wake(root: &str, buf: &[u8], wake: Wake) -> (step: Step)
    ensures
        event_views(step.events@) == events_after(root@, buf@, wake),
        step.events@.len() == events_after(root@, buf@, wake).len(),
        step.next == state_after(wake),
        step.report == report_after(buf@, wake),
{
    match wake {
        Wake::Filled(bytes) => {
            let decoded = decode_notifications(root, buf, bytes as usize);
            let report: Option<WatchError> = if decoded.anomaly {
                Some(WatchError::DecodeAnomaly)
            } else {
                None
            };
            Step { events: decoded.events, next: LoopState::Watching, report }
        },
        Wake::Failed(code) => {
            let events: Vec<WatchEvent> = Vec::new();
            assert(event_views(events@) =~= Seq::<EventView>::empty());
            let report: Option<WatchError> = if code == OPERATION_ABORTED {
                None
            } else {
                Some(WatchError::FatalWatchError(code))
            };
            Step { events, next: LoopState::Stopping, report }
        },
    }
}

/// Decides what follows the handing on of one event, `delivered` telling
/// whether a consumer took it. A consumer that has gone away does not end the
/// watch: the event is lost and the state stays as it is.
pub fn after_publish(state: LoopState, delivered: bool) -> (next: LoopState)
    ensures
        next == state,
{
    state
}

/// A wake with zero bytes publishes nothing, reports nothing and keeps the
/// loop watching.
pub proof fn law_empty_wake_is_silent(root: Seq<char>, buf: Seq<u8>)
    ensures
        events_after(root, buf, Wake::Filled(0)).len() == 0,
        state_after(Wake::Filled(0)) == LoopState::Watching,
        report_after(buf, Wake::Filled(0)).is_none(),
{
}

/// A request to stop ends the loop at the next look, whatever state it was
/// in and whatever the last wake brought; and a loop that is leaving does not
/// come back.
pub proof fn law_stop_request_ends_the_loop(state: LoopState, wake: Wake, stop_requested: bool)
    ensures
        state_before_wait(state, true) == LoopState::Stopping,
        state_before_wait(state_after(wake), true) == LoopState::Stopping,
        state_before_wait(LoopState::Stopping, stop_requested) == LoopState::Stopping,
        state_before_wait(state, false) == state,
{
}

/// A call that was cancelled on purpose ends the loop with nothing published
/// and nothing reported. Any other failure ends it too, and its code is what
/// is reported.
pub proof fn law_failure_ends_the_loop(root: Seq<char>, buf: Seq<u8>, code: u32)
    ensures
        state_after(Wake::Failed(code)) == LoopState::Stopping,
        events_after(root, buf, Wake::Failed(code)).len() == 0,
        code == OPERATION_ABORTED ==> report_after(buf, Wake::Failed(code)).is_none(),
        code != OPERATION_ABORTED ==> report_after(buf, Wake::Failed(code)) == Some(
            WatchError::FatalWatchError(code),
        ),
{
}

} // verus!
