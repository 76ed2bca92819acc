//! The lifecycle of one watch session: what starting, stopping and discarding
//! it have the owner of the background task do.
//!
//! The task, the stop signal that it shares with its owner and the directory
//! handle live outside this library. The session recorded here says what the
//! owner has to do with them and when there is nothing left to do.

use crate::error::WatchError;
use vstd::prelude::*;

verus! {

/// What a request to stop has the owner do.
#[derive(Debug, Clone, Copy, PartialEq, Eq, Structural)]
pub struct StopPlan {
    /// Set the shared stop signal and force the blocking call to return.
    pub signal: bool,
    /// Wait until the background task has ended.
    pub join: bool,
}

/// One watch of one directory. It has one owner and is not copied: whoever
/// holds it answers for the background task.
#[derive(Debug)]
pub struct WatchSession {
    pub target_directory: String,
    pub recursive: bool,
    stop_requested: bool,
    worker_live: bool,
}

/// The mathematical value of a [`WatchSession`].
pub struct SessionView {
    pub target_directory: Seq<char>,
    pub recursive: bool,
    pub stop_requested: bool,
    pub worker_live: bool,
}

/// The session after a request to stop: the request is recorded and no
/// background task is left.
pub open spec fn stopped(s: SessionView) -> SessionView {
    SessionView { stop_requested: true, worker_live: false, ..s }
}

/// What a request to stop asks of the owner: to signal and to join where a
/// background task is live, nothing otherwise.
pub open spec fn stop_plan(s: SessionView) -> StopPlan {
    StopPlan { signal: s.worker_live, join: s.worker_live }
}

impl View for WatchSession {
    type V = SessionView;

    closed spec fn view(&self) -> SessionView {
        SessionView {
            target_directory: self.target_directory@,
            recursive: self.recursive,
            stop_requested: self.stop_requested,
            worker_live: self.worker_live,
        }
    }
}

impl WatchSession {
    /// Starts a session on `target_directory`, `open_error` being the code
    /// with which opening the directory failed, if it did.
    ///
    /// Where the directory was opened the session is live: one background
    /// task is to be spawned for it and no stop is requested. Where it was
    /// not, there is no session and nothing is to be spawned.
    pub fn start(target_directory: String, recursive: bool, open_error: Option<u32>) -> (r: Result<
        WatchSession,
        WatchError,
    >)
        ensures
            open_error.is_none() ==> r.is_ok() && r.unwrap()@ == (SessionView {
                target_directory: target_directory@,
                recursive,
                stop_requested: false,
                worker_live: true,
            }),
            open_error.is_some() ==> r == Err::<WatchSession, WatchError>(
                WatchError::OpenError(open_error.unwrap()),
            ),
    {
        match open_error {
            Some(code) => Err(WatchError::OpenError(code)),
            None => Ok(
                WatchSession { target_directory, recursive, stop_requested: false, worker_live: true },
            ),
        }
    }

    /// Requests the stop and says what is left for the owner to do. The
    /// first request on a live session has it signal and join; any later one
    /// changes nothing and asks for nothing. An owner that is discarded
    /// makes this same request, so that no task outlives its session.
    pub fn stop(&mut self) -> (plan: StopPlan)
        ensures
            final(self)@ == stopped(old(self)@),
            plan == stop_plan(old(self)@),
    {
        let plan = StopPlan { signal: self.worker_live, join: self.worker_live };
        self.stop_requested = true;
        self.worker_live = false;
        plan
    }

    /// Whether a stop was requested.
    pub fn is_stop_requested(&self) -> (b: bool)
        ensures
            b == self@.stop_requested,
    {
        self.stop_requested
    }

    /// Whether the background task is still to be joined.
    pub fn is_live(&self) -> (b: bool)
        ensures
            b == self@.worker_live,
    {
        self.worker_live
    }
}

/// A second request to stop changes nothing and asks for nothing; nor does
/// the request that is made when a stopped session is discarded.
pub proof fn law_stop_is_idempotent(s: SessionView)
    ensures
        stopped(stopped(s)) == stopped(s),
        stop_plan(stopped(s)) == (StopPlan { signal: false, join: false }),
{
}

/// Whatever happened before, a session that was asked to stop has its
/// request recorded and no background task left, and watches the same
/// directory in the same way.
pub proof fn law_stop_leaves_no_task(s: SessionView)
    ensures
        stopped(s).stop_requested,
        !stopped(s).worker_live,
        stopped(s).target_directory == s.target_directory,
        stopped(s).recursive == s.recursive,
{
}

} // verus!
