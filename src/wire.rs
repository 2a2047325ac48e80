use vstd::prelude::*;
use crate::classify::{UpdateKind, UpdateRecord};

verus! {

#[verifier::external_type_specification]
#[verifier::external_body]
pub struct ExJsonError(serde_json::Error);

/// Relies on `serde_json::to_string` applied to a `str`: it writes into a
/// `Vec`, which cannot fail, a quote, each character escaped as
/// `json_escape` gives, and a quote.
#[verifier::external_body]
fn json_string(s: &str) -> (r: Result<String, serde_json::Error>)
    ensures
        match r {
            Ok(t) => t@ == json_quoted(s@),
            Err(_) => false,
        },
{
    serde_json::to_string(s)
}

/// A message sent to a connected client. `Ping`, `FullReload` and `Error`
/// belong to the protocol but are not sent by this service.
#[derive(Clone, Debug)]
pub enum HmrMessage {
    Connected,
    Ping,
    Update(Vec<UpdateRecord>),
    FullReload,
    Error,
}

/// A record that could not be written: the index of the first record whose
/// path the JSON encoder refused. Never produced while the encoder accepts
/// every string, as serde_json does.
#[derive(Clone, Copy, Debug, PartialEq, Eq, Structural)]
pub struct EncodeError {
    pub index: usize,
}

pub open spec fn digit_char(d: int) -> char {
    if d == 0 {
        '0'
    } else if d == 1 {
        '1'
    } else if d == 2 {
        '2'
    } else if d == 3 {
        '3'
    } else if d == 4 {
        '4'
    } else if d == 5 {
        '5'
    } else if d == 6 {
        '6'
    } else if d == 7 {
        '7'
    } else if d == 8 {
        '8'
    } else {
        '9'
    }
}

/// The decimal digits of `n`, most significant first, without leading zeros.
pub open spec fn decimal(n: nat) -> Seq<char>
    decreases n,
{
    if n < 10 {
        seq![digit_char(n as int)]
    } else {
        decimal(n / 10).push(digit_char((n % 10) as int))
    }
}

pub open spec fn hex_char(n: int) -> char {
    if n < 10 {
        digit_char(n)
    } else if n == 10 {
        'a'
    } else if n == 11 {
        'b'
    } else if n == 12 {
        'c'
    } else if n == 13 {
        'd'
    } else if n == 14 {
        'e'
    } else {
        'f'
    }
}

/// How one character stands inside a JSON string: quote and backslash are
/// escaped by a backslash, the usual control characters by their short
/// escape, the other control characters as `\u00` and two lower-case hex
/// digits; everything else stands as it is.
pub open spec fn json_escape(c: char) -> Seq<char> {
    if c == '"' {
        seq!['\\', '"']
    } else if c == '\\' {
        seq!['\\', '\\']
    } else if c == '\u{8}' {
        seq!['\\', 'b']
    } else if c == '\u{c}' {
        seq!['\\', 'f']
    } else if c == '\n' {
        seq!['\\', 'n']
    } else if c == '\r' {
        seq!['\\', 'r']
    } else if c == '\t' {
        seq!['\\', 't']
    } else if (c as u32) < 0x20 {
        seq!['\\', 'u', '0', '0', hex_char((c as u32 / 16) as int), hex_char((c as u32 % 16) as int)]
    } else {
        seq![c]
    }
}

pub open spec fn json_escaped(s: Seq<char>) -> Seq<char>
    decreases s.len(),
{
    if s.len() == 0 {
        seq![]
    } else {
        json_escaped(s.drop_last()) + json_escape(s.last())
    }
}

/// A string as a JSON string literal.
pub open spec fn json_quoted(s: Seq<char>) -> Seq<char> {
    seq!['"'] + json_escaped(s) + seq!['"']
}

pub open spec fn kind_tag(k: UpdateKind) -> Seq<char> {
    match k {
        UpdateKind::Style => "css-update"@,
        UpdateKind::Script => "js-update"@,
    }
}

/// One record on the wire, with its path already in JSON string form.
pub open spec fn record_json(k: UpdateKind, quoted_path: Seq<char>, ts: u64) -> Seq<char> {
    "{\"type\":\""@ + kind_tag(k) + "\",\"path\":"@ + quoted_path + ",\"timestamp\":"@ + decimal(
        ts as nat,
    ) + "}"@
}

/// The records on the wire, separated by commas.
pub open spec fn records_json(recs: Seq<(UpdateKind, Seq<char>, u64)>) -> Seq<char>
    decreases recs.len(),
{
    if recs.len() == 0 {
        seq![]
    } else {
        let r = recs.last();
        let item = record_json(r.0, json_quoted(r.1), r.2);
        if recs.len() == 1 {
            item
        } else {
            records_json(recs.drop_last()) + ","@ + item
        }
    }
}

pub open spec fn update_json(recs: Seq<(UpdateKind, Seq<char>, u64)>) -> Seq<char> {
    "{\"type\":\"update\",\"updates\":["@ + records_json(recs) + "]}"@
}

pub open spec fn records_view(rs: Seq<UpdateRecord>) -> Seq<(UpdateKind, Seq<char>, u64)> {
    rs.map_values(|u: UpdateRecord| u@)
}

/// The text of a message.
pub open spec fn message_json(m: HmrMessage) -> Seq<char> {
    match m {
        HmrMessage::Connected => "{\"type\":\"connected\"}"@,
        HmrMessage::Ping => "{\"type\":\"ping\"}"@,
        HmrMessage::FullReload => "{\"type\":\"full-reload\"}"@,
        HmrMessage::Error => "{\"type\":\"error\"}"@,
        HmrMessage::Update(rs) => update_json(records_view(rs@)),
    }
}

fn push_digit(out: &mut String, d: u64)
    requires
        d < 10,
    ensures
        final(out)@ == old(out)@.push(digit_char(d as int)),
{
    proof {
        reveal_strlit("0");
        reveal_strlit("1");
        reveal_strlit("2");
        reveal_strlit("3");
        reveal_strlit("4");
        reveal_strlit("5");
        reveal_strlit("6");
        reveal_strlit("7");
        reveal_strlit("8");
        reveal_strlit("9");
    }
    let s = if d == 0 {
        "0"
    } else if d == 1 {
        "1"
    } else if d == 2 {
        "2"
    } else if d == 3 {
        "3"
    } else if d == 4 {
        "4"
    } else if d == 5 {
        "5"
    } else if d == 6 {
        "6"
    } else if d == 7 {
        "7"
    } else if d == 8 {
        "8"
    } else {
        "9"
    };
    assert(s@ =~= seq![digit_char(d as int)]);
    out.append(s);
}

fn append_decimal(out: &mut String, n: u64)
    ensures
        final(out)@ == old(out)@ + decimal(n as nat),
    decreases n,
{
    let ghost start = out@;
    if n >= 10 {
        append_decimal(out, n / 10);
    }
    push_digit(out, n % 10);
    assert(out@ =~= start + decimal(n as nat));
}

fn append_kind_tag(out: &mut String, k: UpdateKind)
    ensures
        final(out)@ == old(out)@ + kind_tag(k),
{
    match k {
        UpdateKind::Style => out.append("css-update"),
        UpdateKind::Script => out.append("js-update"),
    }
}

fn append_record(out: &mut String, kind: UpdateKind, quoted_path: &str, timestamp: u64)
    ensures
        final(out)@ == old(out)@ + record_json(kind, quoted_path@, timestamp),
{
    let ghost start = out@;
    out.append("{\"type\":\"");
    append_kind_tag(out, kind);
    out.append("\",\"path\":");
    out.append(quoted_path);
    out.append(",\"timestamp\":");
    append_decimal(out, timestamp);
    out.append("}");
    assert(out@ =~= start + record_json(kind, quoted_path@, timestamp));
}

/// The wire form of one record whose path is given already in JSON string form.
pub fn record_text(kind: UpdateKind, quoted_path: &str, timestamp: u64) -> (r: String)
    ensures
        r@ == record_json(kind, quoted_path@, timestamp),
{
    let mut out = String::new();
    append_record(&mut out, kind, quoted_path, timestamp);
    assert(out@ =~= record_json(kind, quoted_path@, timestamp));
    out
}

/// The wire form of an update message. The encoder accepts every string, so
/// this always succeeds; an error would name the first record refused.
pub fn encode_update(records: &Vec<UpdateRecord>) -> (r: Result<String, EncodeError>)
    ensures
        r matches Ok(t) && t@ == update_json(records_view(records@)),
{
    let ghost rv = records_view(records@);
    let mut out = String::from_str("{\"type\":\"update\",\"updates\":[");
    let ghost head = out@;
    let mut i: usize = 0;
    while i < records.len()
        invariant
            i <= records@.len(),
            rv == records_view(records@),
            head == "{\"type\":\"update\",\"updates\":["@,
            out@ == head + records_json(rv.take(i as int)),
        decreases records@.len() - i,
    {
        let rec = &records[i];
        assert(rv[i as int] == rec@);
        match json_string(rec.path.as_str()) {
            Ok(q) => {
                let ghost before = out@;
                if i > 0 {
                    out.append(",");
                }
                append_record(&mut out, rec.kind, q.as_str(), rec.timestamp);
                assert(rv.take(i + 1).drop_last() =~= rv.take(i as int));
                assert(rv.take(i + 1).last() == rec@);
                assert(out@ =~= head + records_json(rv.take(i + 1)));
            },
            Err(_) => {
                return Err(EncodeError { index: i });
            },
        }
        i = i + 1;
    }
    assert(rv.take(records@.len() as int) =~= rv);
    out.append("]}");
    assert(out@ =~= update_json(rv));
    Ok(out)
}

/// The wire form of a message: a JSON object tagged by its `type` field.
pub fn encode_message(m: &HmrMessage) -> (r: Result<String, EncodeError>)
    ensures
        r matches Ok(t) && t@ == message_json(*m),
{
    match m {
        HmrMessage::Connected => Ok(String::from_str("{\"type\":\"connected\"}")),
        HmrMessage::Ping => Ok(String::from_str("{\"type\":\"ping\"}")),
        HmrMessage::FullReload => Ok(String::from_str("{\"type\":\"full-reload\"}")),
        HmrMessage::Error => Ok(String::from_str("{\"type\":\"error\"}")),
        HmrMessage::Update(rs) => encode_update(rs),
    }
}

} // verus!
