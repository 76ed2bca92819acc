use crossbeam_channel::{bounded, unbounded};
use win_watcher::decode::{decode_notifications, ACTION_ADDED, ACTION_REMOVED};
use win_watcher::event::{WatchEvent, WatchEventKind};
use win_watcher::publish::publish;
use win_watcher::watch_loop::{on_wake, LoopState, Wake};

fn event(path: &str, kind: WatchEventKind) -> WatchEvent {
    WatchEvent::new(path.to_string(), kind)
}

#[test]
fn events_reach_the_consumer_in_order() {
    let (tx, rx) = unbounded();
    let events = vec![
        event("r\\a", WatchEventKind::Create),
        event("r\\b", WatchEventKind::Rename),
        event("r\\c", WatchEventKind::Remove),
    ];
    let out = publish(&tx, &events, LoopState::Watching);
    assert_eq!(out.offered, 3);
    assert_eq!(out.delivered, 3);
    assert_eq!(out.next, LoopState::Watching);
    let got: Vec<(String, WatchEventKind)> = rx.try_iter().map(|e| (e.path, e.kind)).collect();
    assert_eq!(
        got,
        vec![
            ("r\\a".to_string(), WatchEventKind::Create),
            ("r\\b".to_string(), WatchEventKind::Rename),
            ("r\\c".to_string(), WatchEventKind::Remove),
        ]
    );
}

#[test]
fn publishing_nothing_sends_nothing() {
    let (tx, rx) = unbounded::<WatchEvent>();
    let out = publish(&tx, &Vec::new(), LoopState::Watching);
    assert_eq!((out.offered, out.delivered), (0, 0));
    assert!(rx.try_recv().is_err());
}

#[test]
fn a_consumer_that_has_gone_loses_the_events_and_nothing_else() {
    let (tx, rx) = bounded::<WatchEvent>(4);
    drop(rx);
    let events = vec![event("r\\a", WatchEventKind::Create), event("r\\b", WatchEventKind::Modify)];
    let out = publish(&tx, &events, LoopState::Watching);
    assert_eq!(out.offered, 2);
    assert_eq!(out.delivered, 0);
    assert_eq!(out.next, LoopState::Watching);
}

#[test]
fn a_created_file_is_seen_as_one_create_event() {
    let mut buf: Vec<u8> = Vec::new();
    buf.extend_from_slice(&0u32.to_le_bytes());
    buf.extend_from_slice(&ACTION_ADDED.to_le_bytes());
    buf.extend_from_slice(&16u32.to_le_bytes());
    for u in "test.txt".encode_utf16() {
        buf.extend_from_slice(&u.to_le_bytes());
    }
    let filled = buf.len() as u32;
    buf.resize(8192, 0);
    let (tx, rx) = unbounded();
    let step = on_wake("C:\\watched", &buf, Wake::Filled(filled));
    let out = publish(&tx, &step.events, step.next);
    assert_eq!(out.delivered, 1);
    let got = rx.try_recv().unwrap();
    assert_eq!(got.path, "C:\\watched\\test.txt");
    assert_eq!(got.kind, WatchEventKind::Create);
    assert!(rx.try_recv().is_err());
}

#[test]
fn nothing_is_published_after_a_cancelled_call() {
    let (tx, rx) = unbounded();
    let step = on_wake("C:\\watched", &[0u8; 64], Wake::Failed(995));
    let out = publish(&tx, &step.events, step.next);
    assert_eq!(out.offered, 0);
    assert_eq!(out.next, LoopState::Stopping);
    assert!(rx.try_recv().is_err());
}

#[test]
fn events_of_two_wakes_keep_their_order() {
    let (tx, rx) = unbounded();
    let mut first: Vec<u8> = Vec::new();
    first.extend_from_slice(&0u32.to_le_bytes());
    first.extend_from_slice(&ACTION_ADDED.to_le_bytes());
    first.extend_from_slice(&2u32.to_le_bytes());
    first.extend_from_slice(&[0x61, 0]);
    let mut second = first.clone();
    second[4..8].copy_from_slice(&ACTION_REMOVED.to_le_bytes());
    second[12] = 0x62;
    let a = decode_notifications("r", &first, first.len());
    let b = decode_notifications("r", &second, second.len());
    publish(&tx, &a.events, LoopState::Watching);
    publish(&tx, &b.events, LoopState::Watching);
    let got: Vec<(String, WatchEventKind)> = rx.try_iter().map(|e| (e.path, e.kind)).collect();
    assert_eq!(
        got,
        vec![
            ("r\\a".to_string(), WatchEventKind::Create),
            ("r\\b".to_string(), WatchEventKind::Remove),
        ]
    );
}
