//! Debouncing of filesystem events into bursts. The debouncer of
//! notify-debouncer-full runs its own thread and owns the OS watcher, so it
//! cannot be driven from here, and it times each path on its own; this one
//! is a plain state machine with one sliding window per burst, fed by the
//! caller with timed events and clock checks.

use vstd::prelude::*;

verus! {

/// The quiet window used when none is configured.
pub const DEFAULT_WINDOW_MS: u64 = 200;

/// One flushed burst: its events in arrival order and the time it was closed.
#[derive(Debug)]
pub struct DebouncedBatch<T> {
    pub events: Vec<T>,
    pub closed_ms: u64,
}

/// A sliding-window debouncer. Each event opens a window or slides the open
/// one to end `window_ms` after it; once a window ends with no further event,
/// everything gathered since it opened is flushed as one batch.
pub struct Debouncer<T> {
    window_ms: u64,
    pending: Vec<T>,
    last_ms: u64,
}

/// Whether the open window has ended at `now`. A state is the pair of the
/// events gathered for the open burst (empty when no window is open) and the
/// time of the latest event.
pub open spec fn due<T>(s: (Seq<T>, u64), w: u64, now: u64) -> bool {
    s.0.len() > 0 && now as int >= s.1 as int + w as int
}

/// The transition on an event arriving at `now`. An event that comes after
/// the open window has ended first flushes that window's burst.
pub open spec fn on_event<T>(s: (Seq<T>, u64), w: u64, ev: T, now: u64) -> (
    (Seq<T>, u64),
    Option<Seq<T>>,
) {
    if due(s, w, now) {
        ((seq![ev], now), Some(s.0))
    } else {
        ((s.0.push(ev), now), None)
    }
}

/// The transition on the clock reaching `now` with no new event.
pub open spec fn on_tick<T>(s: (Seq<T>, u64), w: u64, now: u64) -> ((Seq<T>, u64), Option<Seq<T>>) {
    if due(s, w, now) {
        ((seq![], s.1), Some(s.0))
    } else {
        (s, None)
    }
}

/// The state after a sequence of timed events, and the batches flushed on the way.
pub open spec fn feed<T>(s: (Seq<T>, u64), w: u64, evs: Seq<(T, u64)>) -> (
    (Seq<T>, u64),
    Seq<Seq<T>>,
)
    decreases evs.len(),
{
    if evs.len() == 0 {
        (s, seq![])
    } else {
        let prev = feed(s, w, evs.drop_last());
        let next = on_event(prev.0, w, evs.last().0, evs.last().1);
        match next.1 {
            Some(b) => (next.0, prev.1.push(b)),
            None => (next.0, prev.1),
        }
    }
}

/// A burst: each event arrives no earlier than the one before it and before
/// that one's quiet window has ended.
pub open spec fn is_burst<T>(evs: Seq<(T, u64)>, w: u64) -> bool {
    forall|k: int|
        0 < k < evs.len() ==> evs[k - 1].1 <= #[trigger] evs[k].1 && (evs[k].1 as int) < evs[k
            - 1].1 as int + w as int
}

pub open spec fn items<T>(evs: Seq<(T, u64)>) -> Seq<T> {
    evs.map_values(|e: (T, u64)| e.0)
}

pub open spec fn idle<T>() -> (Seq<T>, u64) {
    (seq![], 0)
}

proof fn lemma_feed_concat<T>(s: (Seq<T>, u64), w: u64, a: Seq<(T, u64)>, b: Seq<(T, u64)>)
    ensures
        feed(s, w, a + b) == ({
            let first = feed(s, w, a);
            let second = feed(first.0, w, b);
            (second.0, first.1 + second.1)
        }),
    decreases b.len(),
{
    if b.len() == 0 {
        assert(a + b =~= a);
        assert(feed(s, w, a).1 + seq![] =~= feed(s, w, a).1);
    } else {
        lemma_feed_concat(s, w, a, b.drop_last());
        assert((a + b).drop_last() =~= a + b.drop_last());
        assert((a + b).last() == b.last());
        let first = feed(s, w, a);
        let mid = feed(first.0, w, b.drop_last());
        let next = on_event(mid.0, w, b.last().0, b.last().1);
        match next.1 {
            Some(x) => assert(first.1 + mid.1.push(x) =~= (first.1 + mid.1).push(x)),
            None => {},
        }
    }
}

proof fn lemma_feed_burst<T>(s: (Seq<T>, u64), w: u64, evs: Seq<(T, u64)>)
    requires
        evs.len() > 0,
        is_burst(evs, w),
        s.0.len() == 0 || evs[0].1 as int >= s.1 as int + w as int,
    ensures
        feed(s, w, evs) == ((items(evs), evs.last().1), if s.0.len() == 0 {
            Seq::<Seq<T>>::empty()
        } else {
            seq![s.0]
        }),
    decreases evs.len(),
{
    if evs.len() == 1 {
        assert(evs.drop_last() =~= Seq::<(T, u64)>::empty());
        assert(feed(s, w, evs.drop_last()) == (s, Seq::<Seq<T>>::empty()));
        assert(evs.last() == evs[0]);
        assert(s.0.len() == 0 ==> s.0.push(evs[0].0) =~= seq![evs[0].0]);
        assert(items(evs) =~= seq![evs[0].0]);
        assert(Seq::<Seq<T>>::empty().push(s.0) =~= seq![s.0]);
    } else {
        let d = evs.drop_last();
        assert forall|k: int| 0 < k < d.len() implies d[k - 1].1 <= #[trigger] d[k].1 && (
        d[k].1 as int) < d[k - 1].1 as int + w as int by {
            assert(evs[k] == d[k]);
        }
        lemma_feed_burst(s, w, d);
        assert(evs[evs.len() - 1] == evs.last());
        assert(d.last() == evs[evs.len() - 2]);
        assert(feed(s, w, d).0.0.len() > 0);
        assert(items(evs) =~= items(d).push(evs.last().0));
    }
}

/// A burst of events, each within the quiet window of the one before, is
/// gathered whole and flushed as exactly one batch, holding every event of
/// the burst in order, and never before the window after its last event ends.
pub proof fn lemma_burst_is_one_batch<T>(w: u64, evs: Seq<(T, u64)>, now: u64)
    requires
        evs.len() > 0,
        is_burst(evs, w),
    ensures
        feed(idle(), w, evs).1.len() == 0,
        feed(idle(), w, evs).0 == (items(evs), evs.last().1),
        on_tick(feed(idle(), w, evs).0, w, now).1 == if now as int >= evs.last().1 as int
            + w as int {
            Some(items(evs))
        } else {
            None::<Seq<T>>
        },
{
    lemma_feed_burst(idle(), w, evs);
}

/// Two bursts whose gap is longer than the quiet window give two distinct
/// batches: the first burst is flushed whole when the second begins, and the
/// second is flushed whole once its own window ends.
pub proof fn lemma_two_bursts_two_batches<T>(
    w: u64,
    first: Seq<(T, u64)>,
    second: Seq<(T, u64)>,
    now: u64,
)
    requires
        first.len() > 0,
        second.len() > 0,
        is_burst(first, w),
        is_burst(second, w),
        second[0].1 as int > first.last().1 as int + w as int,
        now as int >= second.last().1 as int + w as int,
    ensures
        feed(idle(), w, first + second) == ((items(second), second.last().1), seq![items(first)]),
        on_tick(feed(idle(), w, first + second).0, w, now).1 == Some(items(second)),
{
    lemma_feed_concat(idle(), w, first, second);
    lemma_feed_burst(idle(), w, first);
    let mid = feed(idle(), w, first).0;
    lemma_feed_burst(mid, w, second);
    assert(Seq::<Seq<T>>::empty() + seq![items(first)] =~= seq![items(first)]);
}

/// The state after a sequence of timed inputs, each an event (`Some`) or a
/// clock check (`None`), and the batches flushed on the way.
pub open spec fn run<T>(s: (Seq<T>, u64), w: u64, inputs: Seq<(Option<T>, u64)>) -> (
    (Seq<T>, u64),
    Seq<Seq<T>>,
)
    decreases inputs.len(),
{
    if inputs.len() == 0 {
        (s, seq![])
    } else {
        let prev = run(s, w, inputs.drop_last());
        let now = inputs.last().1;
        let next = match inputs.last().0 {
            Some(e) => on_event(prev.0, w, e, now),
            None => on_tick(prev.0, w, now),
        };
        match next.1 {
            Some(b) => (next.0, prev.1.push(b)),
            None => (next.0, prev.1),
        }
    }
}

/// The events of a sequence of timed inputs, in order.
pub open spec fn events_of<T>(inputs: Seq<(Option<T>, u64)>) -> Seq<T>
    decreases inputs.len(),
{
    if inputs.len() == 0 {
        seq![]
    } else {
        match inputs.last().0 {
            Some(e) => events_of(inputs.drop_last()).push(e),
            None => events_of(inputs.drop_last()),
        }
    }
}

/// Batches laid end to end.
pub open spec fn flatten_batches<T>(bs: Seq<Seq<T>>) -> Seq<T>
    decreases bs.len(),
{
    if bs.len() == 0 {
        seq![]
    } else {
        flatten_batches(bs.drop_last()) + bs.last()
    }
}

/// No event is lost or repeated: whatever events and clock checks come in,
/// the batches flushed so far, laid end to end, followed by the open burst,
/// are exactly the events in arrival order; and no batch is empty.
pub proof fn lemma_events_conserved<T>(w: u64, inputs: Seq<(Option<T>, u64)>)
    ensures
        flatten_batches(run(idle(), w, inputs).1) + run(idle(), w, inputs).0.0 == events_of(
            inputs,
        ),
        forall|i: int|
            0 <= i < run(idle(), w, inputs).1.len() ==> (#[trigger] run(idle(), w, inputs).1[i]).len()
                > 0,
    decreases inputs.len(),
{
    if inputs.len() == 0 {
        assert(flatten_batches(Seq::<Seq<T>>::empty()) + Seq::<T>::empty() =~= Seq::<T>::empty());
    } else {
        let d = inputs.drop_last();
        lemma_events_conserved(w, d);
        let prev = run(idle(), w, d);
        let now = inputs.last().1;
        let next = match inputs.last().0 {
            Some(e) => on_event(prev.0, w, e, now),
            None => on_tick(prev.0, w, now),
        };
        match next.1 {
            Some(b) => {
                assert(prev.1.push(b).drop_last() =~= prev.1);
                assert(flatten_batches(prev.1.push(b)) == flatten_batches(prev.1) + b);
                match inputs.last().0 {
                    Some(e) => {
                        assert(flatten_batches(prev.1) + b + next.0.0 =~= (flatten_batches(prev.1)
                            + prev.0.0).push(e));
                    },
                    None => {
                        assert(flatten_batches(prev.1) + b + next.0.0 =~= flatten_batches(prev.1)
                            + prev.0.0);
                    },
                }
                assert forall|i: int| 0 <= i < prev.1.push(b).len() implies (#[trigger] prev.1.push(
                    b,
                )[i]).len() > 0 by {
                    if i < prev.1.len() {
                        assert(prev.1.push(b)[i] == prev.1[i]);
                    }
                }
            },
            None => {
                match inputs.last().0 {
                    Some(e) => {
                        assert(flatten_batches(prev.1) + next.0.0 =~= (flatten_batches(prev.1)
                            + prev.0.0).push(e));
                    },
                    None => {},
                }
            },
        }
    }
}

impl<T> View for Debouncer<T> {
    type V = (Seq<T>, u64);

    closed spec fn view(&self) -> (Seq<T>, u64) {
        (self.pending@, self.last_ms)
    }
}

impl<T> Debouncer<T> {
    pub closed spec fn window(&self) -> u64 {
        self.window_ms
    }

    /// A debouncer with the given quiet window and no open burst.
    pub fn new(window_ms: u64) -> (r: Self)
        ensures
            r.window() == window_ms,
            r@ == idle::<T>(),
    {
        Debouncer { window_ms, pending: Vec::new(), last_ms: 0 }
    }

    pub fn window_ms(&self) -> (r: u64)
        ensures
            r == self.window(),
    {
        self.window_ms
    }

    /// Whether no burst is open.
    pub fn is_idle(&self) -> (r: bool)
        ensures
            r == (self@.0.len() == 0),
    {
        self.pending.len() == 0
    }

    fn is_due(&self, now_ms: u64) -> (r: bool)
        ensures
            r == due(self@, self.window(), now_ms),
    {
        self.pending.len() > 0 && now_ms >= self.last_ms && now_ms - self.last_ms >= self.window_ms
    }

    fn flush(&mut self, now_ms: u64) -> (r: DebouncedBatch<T>)
        ensures
            r.events@ == old(self)@.0,
            r.closed_ms == now_ms,
            final(self)@ == (Seq::<T>::empty(), old(self)@.1),
            final(self).window() == old(self).window(),
    {
        let mut events: Vec<T> = Vec::new();
        std::mem::swap(&mut events, &mut self.pending);
        DebouncedBatch { events, closed_ms: now_ms }
    }

    /// Takes in an event that arrived at `now_ms`. Returns the previous burst
    /// when its window had already ended, so that the two are never merged.
    pub fn push(&mut self, event: T, now_ms: u64) -> (r: Option<DebouncedBatch<T>>)
        ensures
            final(self).window() == old(self).window(),
            final(self)@ == on_event(old(self)@, old(self).window(), event, now_ms).0,
            match r {
                Some(b) => on_event(old(self)@, old(self).window(), event, now_ms).1 == Some(
                    b.events@,
                ) && b.closed_ms == now_ms,
                None => on_event(old(self)@, old(self).window(), event, now_ms).1.is_none(),
            },
    {
        let mut out: Option<DebouncedBatch<T>> = None;
        if self.is_due(now_ms) {
            out = Some(self.flush(now_ms));
        }
        self.pending.push(event);
        self.last_ms = now_ms;
        proof {
            if out.is_some() {
                assert(self.pending@ =~= seq![event]);
            }
        }
        out
    }

    /// Checks the clock: flushes the open burst once its window has ended.
    pub fn poll(&mut self, now_ms: u64) -> (r: Option<DebouncedBatch<T>>)
        ensures
            final(self).window() == old(self).window(),
            final(self)@ == on_tick(old(self)@, old(self).window(), now_ms).0,
            match r {
                Some(b) => on_tick(old(self)@, old(self).window(), now_ms).1 == Some(b.events@)
                    && b.closed_ms == now_ms,
                None => on_tick(old(self)@, old(self).window(), now_ms).1.is_none(),
            },
    {
        if self.is_due(now_ms) {
            Some(self.flush(now_ms))
        } else {
            None
        }
    }

    /// When the open window ends, saturated to the largest time; `None` when
    /// no burst is open.
    pub fn deadline(&self) -> (r: Option<u64>)
        ensures
            self@.0.len() == 0 ==> r.is_none(),
            self@.0.len() > 0 ==> r == Some(
                if self@.1 as int + self.window() as int > u64::MAX as int {
                    u64::MAX
                } else {
                    (self@.1 + self.window()) as u64
                },
            ),
    {
        if self.pending.len() == 0 {
            None
        } else {
            Some(self.last_ms.saturating_add(self.window_ms))
        }
    }
}

} // verus!
