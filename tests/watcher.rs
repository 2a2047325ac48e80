use live_reload::{
    encode_message, now_ms, FsEventKind, HmrMessage, RawFsEvent, UpdateKind, Watcher,
};
use tokio::sync::broadcast;

fn create(path: &str) -> RawFsEvent {
    RawFsEvent { kind: FsEventKind::Create, paths: vec![path.to_string()] }
}

#[test]
fn created_stylesheet_reaches_client_after_window() {
    let mut w = Watcher::new(200);
    assert_eq!(w.deadline(), None);
    assert!(w.handle_event(create("assets/app.css"), 1000).is_none());
    assert_eq!(w.deadline(), Some(1200));
    assert!(w.handle_tick(1199).is_none());
    let recs = w.handle_tick(1200).expect("published once the window ends");
    assert_eq!(recs.len(), 1);
    assert_eq!(recs[0].kind, UpdateKind::Style);
    assert_eq!(recs[0].path, "assets/app.css");
    assert!(recs[0].timestamp >= 1000);
    assert_eq!(
        encode_message(&HmrMessage::Update(recs)).unwrap(),
        r#"{"type":"update","updates":[{"type":"css-update","path":"assets/app.css","timestamp":1200}]}"#
    );
    assert_eq!(w.deadline(), None);
}

#[test]
fn unrecognised_burst_publishes_nothing() {
    let mut w = Watcher::new(200);
    assert!(w.handle_event(create("notes.md"), 0).is_none());
    assert!(w.handle_event(RawFsEvent { kind: FsEventKind::Other, paths: vec!["a.js".to_string()] }, 50).is_none());
    assert!(w.handle_tick(250).is_none());
    assert_eq!(w.deadline(), None);
}

#[test]
fn late_event_publishes_previous_burst() {
    let mut w = Watcher::new(200);
    assert!(w.handle_event(create("a.js"), 0).is_none());
    assert!(w.handle_event(create("b.js"), 100).is_none());
    let recs = w.handle_event(create("c.css"), 500).expect("earlier burst");
    let paths: Vec<&str> = recs.iter().map(|r| r.path.as_str()).collect();
    assert_eq!(paths, vec!["a.js", "b.js"]);
    assert!(recs.iter().all(|r| r.timestamp == 500));
    let rest = w.handle_tick(700).unwrap();
    assert_eq!(rest[0].path, "c.css");
}

#[test]
fn clock_is_after_epoch() {
    assert!(now_ms() > 1_600_000_000_000);
}

#[test]
fn late_subscriber_misses_earlier_batch() {
    let (tx, mut early) = broadcast::channel::<u32>(4);
    tx.send(1).unwrap();
    let mut late = tx.subscribe();
    tx.send(2).unwrap();
    assert_eq!(early.try_recv().unwrap(), 1);
    assert_eq!(early.try_recv().unwrap(), 2);
    assert_eq!(late.try_recv().unwrap(), 2);
    assert!(late.try_recv().is_err());
}

#[test]
fn lagging_subscriber_does_not_hold_back_others() {
    let (tx, mut slow) = broadcast::channel::<u32>(2);
    let mut fast = tx.subscribe();
    for i in 0..5 {
        tx.send(i).unwrap();
        assert_eq!(fast.try_recv().unwrap(), i);
    }
    assert!(matches!(slow.try_recv(), Err(broadcast::error::TryRecvError::Lagged(3))));
    assert_eq!(slow.try_recv().unwrap(), 3);
}
