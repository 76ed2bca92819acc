use win_watcher::decode::{
    ACTION_ADDED, ACTION_MODIFIED, ACTION_REMOVED, ACTION_RENAMED_NEW_NAME,
    ACTION_RENAMED_OLD_NAME,
};
use win_watcher::event::WatchEventKind;
use win_watcher::error::WatchError;
use win_watcher::session::{StopPlan, WatchSession};
use win_watcher::watch_loop::{
    after_publish, before_wait, on_wake, LoopState, Wake, OPERATION_ABORTED,
};
use windows_sys::Win32::Foundation::ERROR_OPERATION_ABORTED;
use windows_sys::Win32::Storage::FileSystem::{
    FILE_ACTION_ADDED, FILE_ACTION_MODIFIED, FILE_ACTION_REMOVED, FILE_ACTION_RENAMED_NEW_NAME,
    FILE_ACTION_RENAMED_OLD_NAME,
};

fn one_record(next: u32, action: u32, name: &str) -> Vec<u8> {
    let mut out: Vec<u8> = Vec::new();
    out.extend_from_slice(&next.to_le_bytes());
    out.extend_from_slice(&action.to_le_bytes());
    out.extend_from_slice(&((name.encode_utf16().count() * 2) as u32).to_le_bytes());
    for u in name.encode_utf16() {
        out.extend_from_slice(&u.to_le_bytes());
    }
    out
}

#[test]
fn a_filled_wake_publishes_and_watches_on() {
    let mut buf = one_record(0, ACTION_ADDED, "test.txt");
    let filled = buf.len() as u32;
    buf.resize(8192, 0);
    let step = on_wake("C:\\root", &buf, Wake::Filled(filled));
    assert_eq!(step.next, LoopState::Watching);
    assert_eq!(step.report, None);
    assert_eq!(step.events.len(), 1);
    assert_eq!(step.events[0].path, "C:\\root\\test.txt");
    assert_eq!(step.events[0].kind, WatchEventKind::Create);
}

#[test]
fn a_wake_with_zero_bytes_publishes_nothing() {
    let buf = vec![0u8; 8192];
    let step = on_wake("C:\\root", &buf, Wake::Filled(0));
    assert_eq!(step.next, LoopState::Watching);
    assert_eq!(step.report, None);
    assert!(step.events.is_empty());
}

#[test]
fn an_anomalous_wake_is_skipped_and_the_loop_goes_on() {
    let mut buf = one_record(20, ACTION_ADDED, "a.b");
    buf.resize(20, 0);
    buf.extend_from_slice(&one_record(9000, ACTION_REMOVED, "c.d"));
    let filled = buf.len() as u32;
    let step = on_wake("r", &buf, Wake::Filled(filled));
    assert_eq!(step.next, LoopState::Watching);
    assert_eq!(step.report, Some(WatchError::DecodeAnomaly));
    assert_eq!(step.events.len(), 1);
    assert_eq!(step.events[0].path, "r\\a.b");
}

#[test]
fn a_cancelled_call_ends_the_loop_silently() {
    let buf = one_record(0, ACTION_ADDED, "test.txt");
    let step = on_wake("C:\\root", &buf, Wake::Failed(OPERATION_ABORTED));
    assert_eq!(OPERATION_ABORTED, 995);
    assert_eq!(step.next, LoopState::Stopping);
    assert_eq!(step.report, None);
    assert!(step.events.is_empty());
}

#[test]
fn a_failed_call_ends_the_loop_and_is_reported() {
    let buf = one_record(0, ACTION_ADDED, "test.txt");
    let step = on_wake("C:\\root", &buf, Wake::Failed(5));
    assert_eq!(step.next, LoopState::Stopping);
    assert_eq!(step.report, Some(WatchError::FatalWatchError(5)));
    assert!(step.events.is_empty());
}

#[test]
fn the_stop_signal_is_seen_before_each_wait() {
    assert_eq!(before_wait(LoopState::Watching, false), LoopState::Watching);
    assert_eq!(before_wait(LoopState::Watching, true), LoopState::Stopping);
    assert_eq!(before_wait(LoopState::Stopping, false), LoopState::Stopping);
    assert_eq!(before_wait(LoopState::Stopping, true), LoopState::Stopping);
}

#[test]
fn a_consumer_that_has_gone_does_not_end_the_watch() {
    assert_eq!(after_publish(LoopState::Watching, false), LoopState::Watching);
    assert_eq!(after_publish(LoopState::Watching, true), LoopState::Watching);
    assert_eq!(after_publish(LoopState::Stopping, false), LoopState::Stopping);
}

#[test]
fn start_on_an_opened_directory_gives_a_live_session() {
    let s = WatchSession::start("C:\\root".to_string(), true, None).unwrap();
    assert_eq!(s.target_directory, "C:\\root");
    assert!(s.recursive);
    assert!(s.is_live());
    assert!(!s.is_stop_requested());
}

#[test]
fn start_on_a_missing_path_is_an_open_error() {
    let r = WatchSession::start("C:\\nowhere".to_string(), false, Some(2));
    assert_eq!(r.err(), Some(WatchError::OpenError(2)));
}

#[test]
fn the_first_stop_signals_and_joins() {
    let mut s = WatchSession::start("C:\\root".to_string(), false, None).unwrap();
    let plan = s.stop();
    assert_eq!(plan, StopPlan { signal: true, join: true });
    assert!(s.is_stop_requested());
    assert!(!s.is_live());
    assert_eq!(s.target_directory, "C:\\root");
    assert!(!s.recursive);
}

#[test]
fn a_second_stop_does_nothing() {
    let mut s = WatchSession::start("C:\\root".to_string(), false, None).unwrap();
    s.stop();
    let plan = s.stop();
    assert_eq!(plan, StopPlan { signal: false, join: false });
    assert!(s.is_stop_requested());
    assert!(!s.is_live());
}

#[test]
fn stopping_again_and_again_stays_stopped() {
    let mut s = WatchSession::start("C:\\root".to_string(), true, None).unwrap();
    assert_eq!(s.stop(), StopPlan { signal: true, join: true });
    for _ in 0..3 {
        assert_eq!(s.stop(), StopPlan { signal: false, join: false });
        assert!(s.is_stop_requested());
        assert!(!s.is_live());
    }
}

#[test]
fn only_an_anomaly_lets_the_watch_go_on() {
    assert!(WatchError::OpenError(3).is_fatal());
    assert!(WatchError::FatalWatchError(6).is_fatal());
    assert!(!WatchError::DecodeAnomaly.is_fatal());
}

#[test]
fn the_codes_are_those_of_the_operating_system() {
    assert_eq!(ACTION_ADDED, FILE_ACTION_ADDED);
    assert_eq!(ACTION_REMOVED, FILE_ACTION_REMOVED);
    assert_eq!(ACTION_MODIFIED, FILE_ACTION_MODIFIED);
    assert_eq!(ACTION_RENAMED_OLD_NAME, FILE_ACTION_RENAMED_OLD_NAME);
    assert_eq!(ACTION_RENAMED_NEW_NAME, FILE_ACTION_RENAMED_NEW_NAME);
    assert_eq!(OPERATION_ABORTED, ERROR_OPERATION_ABORTED);
}
