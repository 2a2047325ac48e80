use vstd::prelude::*;
use crate::classify::{
    batch_records, classify_batch, kind_for_path, passes, path_records, FsEventKind, RawFsEvent,
    UpdateKind, UpdateRecord,
};
use crate::debounce::{idle, on_event, on_tick, Debouncer};
use crate::wire::{json_quoted, record_json, records_view, update_json};

verus! {

/// What is published for a flushed burst classified at `ts`: its records,
/// or nothing when no path of it is recognised or nothing was flushed.
pub open spec fn publication(flushed: Option<Seq<RawFsEvent>>, ts: u64) -> Option<
    Seq<(UpdateKind, Seq<char>, u64)>,
> {
    match flushed {
        Some(es) => {
            let rs = batch_records(es.map_values(|e: RawFsEvent| e@), ts);
            if rs.len() > 0 {
                Some(rs)
            } else {
                None
            }
        },
        None => None,
    }
}

pub open spec fn publishes(r: Option<Vec<UpdateRecord>>, p: Option<Seq<(UpdateKind, Seq<char>, u64)>>) -> bool {
    match r {
        Some(v) => p == Some(records_view(v@)),
        None => p.is_none(),
    }
}

/// One change to a recognised file, seen at `t0` by an idle watcher, is
/// published by nothing until its window ends; a clock check at `t`, once
/// the window has ended, publishes exactly one record for it, stamped `t`
/// (no earlier than `t0`), whose wire text is a single update.
pub proof fn lemma_single_change_published(w: u64, ev: RawFsEvent, t0: u64, t: u64)
    requires
        passes(ev.kind),
        ev.paths@.len() == 1,
        kind_for_path(ev.paths@[0]@).is_some(),
        t as int >= t0 as int + w as int,
    ensures
        ({
            let p = ev.paths@[0]@;
            let k = kind_for_path(p).unwrap();
            let first = on_event(idle(), w, ev, t0);
            let second = on_tick(first.0, w, t);
            &&& publication(first.1, t0).is_none()
            &&& publication(second.1, t) == Some(seq![(k, p, t)])
            &&& t >= t0
            &&& update_json(seq![(k, p, t)]) == "{\"type\":\"update\",\"updates\":["@ + record_json(
                k,
                json_quoted(p),
                t,
            ) + "]}"@
        }),
{
    let p = ev.paths@[0]@;
    let k = kind_for_path(p).unwrap();
    let first = on_event(idle(), w, ev, t0);
    assert(first.0.0 =~= seq![ev]);
    let es = seq![ev].map_values(|e: RawFsEvent| e@);
    assert(es =~= seq![ev@]);
    let paths = ev@.1;
    assert(paths =~= seq![p]);
    assert(paths.drop_last() =~= Seq::<Seq<char>>::empty());
    assert(paths.last() == p);
    assert(path_records(paths.drop_last(), t) == Seq::<(UpdateKind, Seq<char>, u64)>::empty());
    assert(path_records(paths, t) =~= seq![(k, p, t)]);
    assert(es.drop_last() =~= Seq::<(FsEventKind, Seq<Seq<char>>)>::empty());
    assert(es.last() == ev@);
    assert(batch_records(es.drop_last(), t) == Seq::<(UpdateKind, Seq<char>, u64)>::empty());
    assert(batch_records(es, t) =~= seq![(k, p, t)]);
    let recs = seq![(k, p, t)];
    assert(recs.drop_last() =~= Seq::<(UpdateKind, Seq<char>, u64)>::empty());
}

/// The producer side of the pipeline: raw events go in, debounced and
/// classified batches ready for the hub come out.
pub struct Watcher {
    debouncer: Debouncer<RawFsEvent>,
}

impl View for Watcher {
    type V = (Seq<RawFsEvent>, u64);

    closed spec fn view(&self) -> (Seq<RawFsEvent>, u64) {
        self.debouncer@
    }
}

impl Watcher {
    pub closed spec fn window(&self) -> u64 {
        self.debouncer.window()
    }

    pub fn window_ms(&self) -> (r: u64)
        ensures
            r == self.window(),
    {
        self.debouncer.window_ms()
    }

    /// A watcher with the given quiet window and no open burst.
    pub fn new(window_ms: u64) -> (r: Self)
        ensures
            r.window() == window_ms,
            r@ == (Seq::<RawFsEvent>::empty(), 0u64),
    {
        Watcher { debouncer: Debouncer::new(window_ms) }
    }

    /// When the open burst's window ends, if one is open.
    pub fn deadline(&self) -> (r: Option<u64>)
        ensures
            self@.0.len() == 0 ==> r.is_none(),
            self@.0.len() > 0 ==> r == Some(
                if self@.1 as int + self.window() as int > u64::MAX as int {
                    u64::MAX
                } else {
                    (self@.1 + self.window()) as u64
                },
            ),
    {
        self.debouncer.deadline()
    }

    fn classify_flushed(
        flushed: Option<crate::debounce::DebouncedBatch<RawFsEvent>>,
        now_ms: u64,
    ) -> (r: Option<Vec<UpdateRecord>>)
        ensures
            publishes(
                r,
                publication(
                    match flushed {
                        Some(b) => Some(b.events@),
                        None => None,
                    },
                    now_ms,
                ),
            ),
    {
        match flushed {
            Some(b) => {
                let recs = classify_batch(&b.events, now_ms);
                if recs.len() > 0 {
                    Some(recs)
                } else {
                    None
                }
            },
            None => None,
        }
    }

    /// Takes in a raw event seen at `now_ms`. Returns the records to publish
    /// when this event found an earlier burst already over.
    pub fn handle_event(&mut self, event: RawFsEvent, now_ms: u64) -> (r: Option<Vec<UpdateRecord>>)
        ensures
            final(self).window() == old(self).window(),
            final(self)@ == on_event(old(self)@, old(self).window(), event, now_ms).0,
            publishes(r, publication(on_event(old(self)@, old(self).window(), event, now_ms).1, now_ms)),
    {
        let flushed = self.debouncer.push(event, now_ms);
        Self::classify_flushed(flushed, now_ms)
    }

    /// Checks the clock at `now_ms`. Returns the records to publish when the
    /// open burst's window has ended.
    pub fn handle_tick(&mut self, now_ms: u64) -> (r: Option<Vec<UpdateRecord>>)
        ensures
            final(self).window() == old(self).window(),
            final(self)@ == on_tick(old(self)@, old(self).window(), now_ms).0,
            publishes(r, publication(on_tick(old(self)@, old(self).window(), now_ms).1, now_ms)),
    {
        let flushed = self.debouncer.poll(now_ms);
        Self::classify_flushed(flushed, now_ms)
    }
}

} // verus!
