use vstd::prelude::*;

verus! {

/// What happened to the affected paths of a raw filesystem event.
#[derive(Clone, Copy, Debug, PartialEq, Eq, Structural)]
pub enum FsEventKind {
    Create,
    Modify,
    Remove,
    Other,
}

/// One raw filesystem event: its kind and the paths it affects, in order.
#[derive(Clone, Debug)]
pub struct RawFsEvent {
    pub kind: FsEventKind,
    pub paths: Vec<String>,
}

/// The semantic kind of an update sent to clients.
#[derive(Clone, Copy, Debug, PartialEq, Eq, Structural)]
pub enum UpdateKind {
    Script,
    Style,
}

/// One classified change: its kind, the path, and the classification time in
/// milliseconds since the epoch.
#[derive(Clone, Debug)]
pub struct UpdateRecord {
    pub kind: UpdateKind,
    pub path: String,
    pub timestamp: u64,
}

impl View for RawFsEvent {
    type V = (FsEventKind, Seq<Seq<char>>);

    open spec fn view(&self) -> (FsEventKind, Seq<Seq<char>>) {
        (self.kind, self.paths@.map_values(|p: String| p@))
    }
}

impl View for UpdateRecord {
    type V = (UpdateKind, Seq<char>, u64);

    open spec fn view(&self) -> (UpdateKind, Seq<char>, u64) {
        (self.kind, self.path@, self.timestamp)
    }
}

/// The extension of a path, as `std::path::Path::extension` reports it.
pub uninterp spec fn extension_of(p: Seq<char>) -> Option<Seq<char>>;

/// Relies on `std::path::Path::extension`: the extension of the path's final
/// component, if it has one. A `&str` path is valid UTF-8, so is its extension.
#[verifier::external_body]
fn path_extension(p: &str) -> (r: Option<String>)
    ensures
        match r {
            Some(e) => extension_of(p@) == Some(e@),
            None => extension_of(p@).is_none(),
        },
{
    std::path::Path::new(p).extension().and_then(|e| e.to_str()).map(|e| e.to_string())
}

pub open spec fn css_ext() -> Seq<char> {
    seq!['c', 's', 's']
}

/// The recognised extensions: markup, stylesheet, script and data files.
pub open spec fn allowed_ext(e: Seq<char>) -> bool {
    ||| e == seq!['h', 't', 'm', 'l']
    ||| e == css_ext()
    ||| e == seq!['j', 's']
    ||| e == seq!['t', 's']
    ||| e == seq!['j', 's', 'o', 'n']
}

/// The update kind for an extension, if it is recognised: stylesheets are
/// styles, every other recognised extension is a script.
pub open spec fn kind_for_ext(e: Option<Seq<char>>) -> Option<UpdateKind> {
    match e {
        Some(x) => if !allowed_ext(x) {
            None
        } else if x == css_ext() {
            Some(UpdateKind::Style)
        } else {
            Some(UpdateKind::Script)
        },
        None => None,
    }
}

/// The update kind of a path, decided by its extension alone.
pub open spec fn kind_for_path(p: Seq<char>) -> Option<UpdateKind> {
    kind_for_ext(extension_of(p))
}

/// Event kinds that reach clients. Modification is treated as creation:
/// an edited file needs a reload as much as a new one does.
pub open spec fn passes(k: FsEventKind) -> bool {
    k != FsEventKind::Other
}

/// The records of one event's paths, in order: one per path with a
/// recognised extension. Duplicate paths are kept.
pub open spec fn path_records(paths: Seq<Seq<char>>, ts: u64) -> Seq<(UpdateKind, Seq<char>, u64)>
    decreases paths.len(),
{
    if paths.len() == 0 {
        seq![]
    } else {
        let rest = path_records(paths.drop_last(), ts);
        match kind_for_path(paths.last()) {
            Some(k) => rest.push((k, paths.last(), ts)),
            None => rest,
        }
    }
}

/// The records of a batch of events, in order, all stamped with `ts`.
pub open spec fn batch_records(evs: Seq<(FsEventKind, Seq<Seq<char>>)>, ts: u64) -> Seq<
    (UpdateKind, Seq<char>, u64),
>
    decreases evs.len(),
{
    if evs.len() == 0 {
        seq![]
    } else {
        let rest = batch_records(evs.drop_last(), ts);
        if passes(evs.last().0) {
            rest + path_records(evs.last().1, ts)
        } else {
            rest
        }
    }
}

/// Classification depends on the extension alone: paths with the same
/// extension get the same kind; a stylesheet is a style, every other
/// recognised extension is a script, and anything else gives no record.
pub proof fn lemma_kind_by_extension(p: Seq<char>, q: Seq<char>)
    ensures
        extension_of(p) == extension_of(q) ==> kind_for_path(p) == kind_for_path(q),
        extension_of(p) == Some(css_ext()) ==> kind_for_path(p) == Some(UpdateKind::Style),
        extension_of(p) == Some(seq!['j', 's']) ==> kind_for_path(p) == Some(UpdateKind::Script),
        extension_of(p) == Some(seq!['t', 's']) ==> kind_for_path(p) == Some(UpdateKind::Script),
        extension_of(p) == Some(seq!['h', 't', 'm', 'l']) ==> kind_for_path(p) == Some(
            UpdateKind::Script,
        ),
        extension_of(p) == Some(seq!['j', 's', 'o', 'n']) ==> kind_for_path(p) == Some(
            UpdateKind::Script,
        ),
        kind_for_path(p).is_none() <==> (extension_of(p).is_none() || !allowed_ext(
            extension_of(p).unwrap(),
        )),
{
    assert(seq!['j', 's'] != css_ext());
    assert(seq!['t', 's'] != css_ext());
    assert(seq!['h', 't', 'm', 'l'] != css_ext());
    assert(seq!['j', 's', 'o', 'n'] != css_ext());
}

fn str_eq(a: &str, b: &str) -> (r: bool)
    ensures
        r == (a@ == b@),
{
    let n = a.unicode_len();
    if n != b.unicode_len() {
        return false;
    }
    let mut i: usize = 0;
    while i < n
        invariant
            n == a@.len(),
            n == b@.len(),
            i <= n,
            a@.take(i as int) == b@.take(i as int),
        decreases n - i,
    {
        if a.get_char(i) != b.get_char(i) {
            return false;
        }
        assert(a@.take(i + 1) == a@.take(i as int).push(a@[i as int]));
        assert(b@.take(i + 1) == b@.take(i as int).push(b@[i as int]));
        i = i + 1;
    }
    assert(a@ == a@.take(n as int));
    assert(b@ == b@.take(n as int));
    true
}

/// Whether `ext` is one of the recognised extensions.
pub fn is_allowed_extension(ext: &str) -> (r: bool)
    ensures
        r == allowed_ext(ext@),
{
    proof {
        reveal_strlit("html");
        reveal_strlit("css");
        reveal_strlit("js");
        reveal_strlit("ts");
        reveal_strlit("json");
        assert("html"@ =~= seq!['h', 't', 'm', 'l']);
        assert("css"@ =~= css_ext());
        assert("js"@ =~= seq!['j', 's']);
        assert("ts"@ =~= seq!['t', 's']);
        assert("json"@ =~= seq!['j', 's', 'o', 'n']);
    }
    str_eq(ext, "html") || str_eq(ext, "css") || str_eq(ext, "js") || str_eq(ext, "ts")
        || str_eq(ext, "json")
}

/// The update kind for an extension as the path library reported it.
pub fn kind_of_extension(ext: Option<&str>) -> (r: Option<UpdateKind>)
    ensures
        r == kind_for_ext(
            match ext {
                Some(e) => Some(e@),
                None => None,
            },
        ),
{
    match ext {
        Some(e) => {
            if !is_allowed_extension(e) {
                None
            } else {
                proof {
                    reveal_strlit("css");
                    assert("css"@ =~= css_ext());
                }
                if str_eq(e, "css") {
                    Some(UpdateKind::Style)
                } else {
                    Some(UpdateKind::Script)
                }
            }
        },
        None => None,
    }
}

/// The update kind of a path, or `None` when its extension is not recognised.
pub fn classify_path(p: &str) -> (r: Option<UpdateKind>)
    ensures
        r == kind_for_path(p@),
{
    let ext = path_extension(p);
    match ext {
        Some(e) => kind_of_extension(Some(e.as_str())),
        None => kind_of_extension(None),
    }
}

/// Whether an event of this kind is passed on to clients.
pub fn event_passes(k: FsEventKind) -> (r: bool)
    ensures
        r == passes(k),
{
    match k {
        FsEventKind::Other => false,
        _ => true,
    }
}

/// Whether at least one of the event's paths has a recognised extension.
pub fn filter_valid_ft(event: &RawFsEvent) -> (r: bool)
    ensures
        r == exists|i: int|
            0 <= i < event.paths@.len() && kind_for_path(#[trigger] event.paths@[i]@).is_some(),
{
    let n = event.paths.len();
    let mut i: usize = 0;
    while i < n
        invariant
            n == event.paths@.len(),
            i <= n,
            forall|j: int| 0 <= j < i ==> kind_for_path(#[trigger] event.paths@[j]@).is_none(),
        decreases n - i,
    {
        if classify_path(event.paths[i].as_str()).is_some() {
            return true;
        }
        i = i + 1;
    }
    false
}

/// Classifies one debounced batch: every path with a recognised extension of
/// every passing event becomes a record stamped with `timestamp`, in order.
pub fn classify_batch(batch: &Vec<RawFsEvent>, timestamp: u64) -> (r: Vec<UpdateRecord>)
    ensures
        r@.map_values(|u: UpdateRecord| u@) == batch_records(
            batch@.map_values(|e: RawFsEvent| e@),
            timestamp,
        ),
{
    let ghost evs = batch@.map_values(|e: RawFsEvent| e@);
    let mut out: Vec<UpdateRecord> = Vec::new();
    let mut i: usize = 0;
    while i < batch.len()
        invariant
            i <= batch@.len(),
            evs == batch@.map_values(|e: RawFsEvent| e@),
            out@.map_values(|u: UpdateRecord| u@) == batch_records(evs.take(i as int), timestamp),
        decreases batch@.len() - i,
    {
        let ev = &batch[i];
        assert(evs.take(i + 1).drop_last() == evs.take(i as int));
        if event_passes(ev.kind) {
            let ghost base = out@.map_values(|u: UpdateRecord| u@);
            let ghost paths = ev@.1;
            let mut j: usize = 0;
            while j < ev.paths.len()
                invariant
                    j <= ev.paths@.len(),
                    paths == ev.paths@.map_values(|p: String| p@),
                    out@.map_values(|u: UpdateRecord| u@) == base + path_records(
                        paths.take(j as int),
                        timestamp,
                    ),
                decreases ev.paths@.len() - j,
            {
                let p = &ev.paths[j];
                assert(paths.take(j + 1).drop_last() == paths.take(j as int));
                assert(paths.take(j + 1).last() == p@);
                match classify_path(p.as_str()) {
                    Some(k) => {
                        let rec = UpdateRecord { kind: k, path: p.clone(), timestamp };
                        out.push(rec);
                        assert(out@.map_values(|u: UpdateRecord| u@) =~= (base + path_records(
                            paths.take(j as int),
                            timestamp,
                        )).push((k, p@, timestamp)));
                    },
                    None => {},
                }
                j = j + 1;
            }
            assert(paths.take(ev.paths@.len() as int) == paths);
            assert(evs.take(i + 1).last() == ev@);
        } else {
            assert(evs.take(i + 1).last() == ev@);
        }
        i = i + 1;
    }
    assert(evs.take(batch@.len() as int) == evs);
    out
}

} // verus!
