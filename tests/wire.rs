use live_reload::{
    encode_message, encode_update, record_text, HmrMessage, UpdateKind, UpdateRecord,
};

fn rec(kind: UpdateKind, path: &str, timestamp: u64) -> UpdateRecord {
    UpdateRecord { kind, path: path.to_string(), timestamp }
}

#[test]
fn connected_and_reserved_messages() {
    assert_eq!(encode_message(&HmrMessage::Connected).unwrap(), r#"{"type":"connected"}"#);
    assert_eq!(encode_message(&HmrMessage::Ping).unwrap(), r#"{"type":"ping"}"#);
    assert_eq!(encode_message(&HmrMessage::FullReload).unwrap(), r#"{"type":"full-reload"}"#);
    assert_eq!(encode_message(&HmrMessage::Error).unwrap(), r#"{"type":"error"}"#);
}

#[test]
fn css_update_message() {
    let m = HmrMessage::Update(vec![rec(UpdateKind::Style, "assets/app.css", 1700000000123)]);
    assert_eq!(
        encode_message(&m).unwrap(),
        r#"{"type":"update","updates":[{"type":"css-update","path":"assets/app.css","timestamp":1700000000123}]}"#
    );
}

#[test]
fn several_records_are_comma_separated() {
    let recs = vec![
        rec(UpdateKind::Script, "a.js", 0),
        rec(UpdateKind::Style, "b.css", 9),
        rec(UpdateKind::Script, "c.ts", 10),
    ];
    assert_eq!(
        encode_update(&recs).unwrap(),
        r#"{"type":"update","updates":[{"type":"js-update","path":"a.js","timestamp":0},{"type":"css-update","path":"b.css","timestamp":9},{"type":"js-update","path":"c.ts","timestamp":10}]}"#
    );
}

#[test]
fn empty_update() {
    assert_eq!(encode_update(&vec![]).unwrap(), r#"{"type":"update","updates":[]}"#);
}

#[test]
fn paths_are_escaped() {
    let recs = vec![rec(UpdateKind::Style, "we\"ird\\dir/x.css", 5)];
    assert_eq!(
        encode_update(&recs).unwrap(),
        r#"{"type":"update","updates":[{"type":"css-update","path":"we\"ird\\dir/x.css","timestamp":5}]}"#
    );
}

#[test]
fn record_text_takes_quoted_path() {
    assert_eq!(
        record_text(UpdateKind::Script, "\"p.js\"", u64::MAX),
        r#"{"type":"js-update","path":"p.js","timestamp":18446744073709551615}"#
    );
}

#[test]
fn control_characters_are_escaped() {
    let recs = vec![rec(UpdateKind::Script, "a\tb\n\u{1}\u{1f}\u{8}\u{c}\r/é.js", 3)];
    assert_eq!(
        encode_update(&recs).unwrap(),
        r#"{"type":"update","updates":[{"type":"js-update","path":"a\tb\n\u0001\u001f\b\f\r/é.js","timestamp":3}]}"#
    );
}
