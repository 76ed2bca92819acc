//! The event model: one change to one path.

use vstd::prelude::*;

verus! {

/// What happened to a path under the watched directory.
#[derive(Debug, Clone, Copy, PartialEq, Eq, Structural)]
pub enum WatchEventKind {
    Create,
    Remove,
    Modify,
    Rename,
}

/// One change, as delivered to the consumer.
#[derive(Debug, Clone)]
pub struct WatchEvent {
    pub path: String,
    pub kind: WatchEventKind,
}

/// The mathematical value of a [`WatchEvent`].
pub struct EventView {
    pub path: Seq<char>,
    pub kind: WatchEventKind,
}

impl View for WatchEvent {
    type V = EventView;

    open spec fn view(&self) -> EventView {
        EventView { path: self.path@, kind: self.kind }
    }
}

/// The values of a list of events, in order.
pub open spec fn event_views(events: Seq<WatchEvent>) -> Seq<EventView> {
    Seq::new(events.len(), |i: int| events[i]@)
}

impl WatchEvent {
    /// An event of `kind` on `path`.
    pub fn new(path: String, kind: WatchEventKind) -> (ev: WatchEvent)
        ensures
            ev@ == (EventView { path: path@, kind }),
    {
        WatchEvent { path, kind }
    }
}

} // verus!
