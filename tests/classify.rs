use live_reload::{
    classify_batch, classify_path, event_passes, filter_valid_ft, is_allowed_extension,
    kind_of_extension, FsEventKind, RawFsEvent, UpdateKind,
};

fn ev(kind: FsEventKind, paths: &[&str]) -> RawFsEvent {
    RawFsEvent { kind, paths: paths.iter().map(|p| p.to_string()).collect() }
}

#[test]
fn stylesheet_is_style() {
    assert_eq!(classify_path("style.css"), Some(UpdateKind::Style));
    assert_eq!(classify_path("assets/app.css"), Some(UpdateKind::Style));
}

#[test]
fn other_allowed_extensions_are_script() {
    assert_eq!(classify_path("app.js"), Some(UpdateKind::Script));
    assert_eq!(classify_path("app.ts"), Some(UpdateKind::Script));
    assert_eq!(classify_path("index.html"), Some(UpdateKind::Script));
    assert_eq!(classify_path("data/config.json"), Some(UpdateKind::Script));
}

#[test]
fn disallowed_extensions_give_nothing() {
    assert_eq!(classify_path("notes.md"), None);
    assert_eq!(classify_path("Makefile"), None);
    assert_eq!(classify_path("style.CSS"), None);
    assert_eq!(classify_path("archive.css.bak"), None);
    // a leading dot names a hidden file, not an extension
    assert_eq!(classify_path("dir/.css"), None);
}

#[test]
fn extension_allow_list() {
    for e in ["html", "css", "js", "ts", "json"] {
        assert!(is_allowed_extension(e));
    }
    for e in ["", "c", "jsx", "htm", "cs", "jso"] {
        assert!(!is_allowed_extension(e));
    }
    assert_eq!(kind_of_extension(Some("css")), Some(UpdateKind::Style));
    assert_eq!(kind_of_extension(Some("json")), Some(UpdateKind::Script));
    assert_eq!(kind_of_extension(Some("png")), None);
    assert_eq!(kind_of_extension(None), None);
}

#[test]
fn event_kind_policy() {
    assert!(event_passes(FsEventKind::Create));
    assert!(event_passes(FsEventKind::Modify));
    assert!(event_passes(FsEventKind::Remove));
    assert!(!event_passes(FsEventKind::Other));
}

#[test]
fn filter_needs_one_recognised_path() {
    assert!(filter_valid_ft(&ev(FsEventKind::Create, &["a.txt", "b.js"])));
    assert!(!filter_valid_ft(&ev(FsEventKind::Create, &["a.txt", "b.png"])));
    assert!(!filter_valid_ft(&ev(FsEventKind::Create, &[])));
}

#[test]
fn batch_keeps_order_and_drops_unrecognised() {
    let batch = vec![
        ev(FsEventKind::Create, &["a.css", "skip.txt", "b.js"]),
        ev(FsEventKind::Other, &["ignored.css"]),
        ev(FsEventKind::Remove, &["c.ts"]),
        ev(FsEventKind::Modify, &["a.css"]),
    ];
    let recs = classify_batch(&batch, 42);
    let got: Vec<(UpdateKind, &str, u64)> =
        recs.iter().map(|r| (r.kind, r.path.as_str(), r.timestamp)).collect();
    assert_eq!(
        got,
        vec![
            (UpdateKind::Style, "a.css", 42),
            (UpdateKind::Script, "b.js", 42),
            (UpdateKind::Script, "c.ts", 42),
            (UpdateKind::Style, "a.css", 42),
        ]
    );
}

#[test]
fn empty_batch_gives_no_records() {
    assert!(classify_batch(&vec![], 7).is_empty());
    assert!(classify_batch(&vec![ev(FsEventKind::Create, &["x.rs"])], 7).is_empty());
}
