use live_reload::{Debouncer, DEFAULT_WINDOW_MS};

#[test]
fn burst_within_window_is_one_batch() {
    let mut d: Debouncer<u32> = Debouncer::new(200);
    assert!(d.is_idle());
    assert_eq!(d.deadline(), None);
    assert!(d.push(1, 1000).is_none());
    assert!(d.push(2, 1150).is_none());
    assert!(d.poll(1300).is_none());
    assert!(d.push(3, 1340).is_none());
    assert_eq!(d.deadline(), Some(1540));
    assert!(d.poll(1539).is_none());
    let b = d.poll(1540).expect("the burst is flushed once its window ends");
    assert_eq!(b.events, vec![1, 2, 3]);
    assert_eq!(b.closed_ms, 1540);
    assert!(d.is_idle());
    assert!(d.poll(5000).is_none());
}

#[test]
fn two_bursts_are_two_batches() {
    let mut d: Debouncer<u32> = Debouncer::new(200);
    assert!(d.push(1, 0).is_none());
    assert!(d.push(2, 100).is_none());
    let first = d.push(3, 400).expect("a late event flushes the earlier burst");
    assert_eq!(first.events, vec![1, 2]);
    assert_eq!(first.closed_ms, 400);
    assert!(d.push(4, 450).is_none());
    let second = d.poll(650).expect("second burst");
    assert_eq!(second.events, vec![3, 4]);
}

#[test]
fn ticks_between_bursts_flush_each_once() {
    let mut d: Debouncer<&str> = Debouncer::new(DEFAULT_WINDOW_MS);
    d.push("a", 10);
    assert_eq!(d.poll(210).unwrap().events, vec!["a"]);
    assert!(d.poll(211).is_none());
    d.push("b", 500);
    assert_eq!(d.poll(700).unwrap().events, vec!["b"]);
}

#[test]
fn default_window_and_saturating_deadline() {
    assert_eq!(DEFAULT_WINDOW_MS, 200);
    let mut d: Debouncer<u8> = Debouncer::new(200);
    assert_eq!(d.window_ms(), 200);
    d.push(0, u64::MAX - 5);
    assert_eq!(d.deadline(), Some(u64::MAX));
    assert!(d.poll(u64::MAX).is_none());
}

#[test]
fn clock_going_back_does_not_flush() {
    let mut d: Debouncer<u8> = Debouncer::new(200);
    d.push(1, 1000);
    assert!(d.poll(10).is_none());
    assert!(d.push(2, 10).is_none());
    assert_eq!(d.poll(210).unwrap().events, vec![1, 2]);
}
