//! What can go wrong with a watch.

use vstd::prelude::*;

verus! {

/// Why a watch cannot start, has skipped part of a buffer, or has ended.
#[derive(Debug, Clone, Copy, PartialEq, Eq, Structural)]
pub enum WatchError {
    /// The directory could not be opened for change notification; the code
    /// is the operating system's. The watch does not start.
    OpenError(u32),
    /// A record of a notification buffer failed the bound check. The rest of
    /// that buffer is skipped and the watch goes on.
    DecodeAnomaly,
    /// The blocking call failed for a reason other than a cancellation; the
    /// code is the operating system's. The watch has ended.
    FatalWatchError(u32),
}

impl WatchError {
    /// Whether the watch is over after this error.
    pub open spec fn ends_watch(self) -> bool {
        !(self is DecodeAnomaly)
    }

    /// Tells whether the watch is over after this error: it is unless the
    /// error is an anomaly in one buffer.
    pub fn is_fatal(&self) -> (b: bool)
        ensures
            b == self.ends_watch(),
    {
        match self {
            WatchError::DecodeAnomaly => false,
            _ => true,
        }
    }
}

} // verus!
