//! A message body as the agent sees it: any JSON document, of which the agent
//! reads the `id` field and the compact JSON text handed to the handler.

use vstd::prelude::*;
use crate::config::opt_view;

verus! {

/// A decoded message body: the string value of its `id` field, when it has one,
/// and its JSON text as serde_json writes it (`None` if that writing failed).
#[derive(Debug, Clone)]
pub struct Event {
    pub id: Option<String>,
    pub json: Option<String>,
}

/// What serde_json makes of `payload`: `Ok` with the string value of the field
/// `key` (if the document is an object holding a string there) and the compact
/// text of the whole document, or `Err` with the parser's error text.
pub uninterp spec fn json_decoded(payload: Seq<u8>, key: Seq<char>) -> Result<
    (Option<Seq<char>>, Option<Seq<char>>),
    Seq<char>,
>;

/// The plain values of an event.
pub open spec fn event_view(e: Event) -> (Option<Seq<char>>, Option<Seq<char>>) {
    (opt_view(e.id), opt_view(e.json))
}

/// The result of decoding, in plain values.
pub open spec fn decoded_view(r: Result<Event, String>) -> Result<
    (Option<Seq<char>>, Option<Seq<char>>),
    Seq<char>,
> {
    match r {
        Ok(e) => Ok(event_view(e)),
        Err(m) => Err(m@),
    }
}

/// Parses `payload` with `serde_json::from_slice` into a `serde_json::Value`,
/// reads the field `key` with `Value::get` and `Value::as_str`, and writes the
/// value back with `serde_json::to_string`; a parse error becomes its `Display` text.
/// The contract claims only that the result is a function of the arguments
/// (`json_decoded`); what the parser accepts is not stated.
#[verifier::external_body]
fn decode_json(payload: &[u8], key: &str) -> (r: Result<Event, String>)
    ensures
        decoded_view(r) == json_decoded(payload@, key@),
{
    match serde_json::from_slice::<serde_json::Value>(payload) {
        Ok(v) => Ok(
            Event {
                id: v.get(key).and_then(serde_json::Value::as_str).map(String::from),
                json: serde_json::to_string(&v).ok(),
            },
        ),
        Err(e) => Err(e.to_string()),
    }
}

/// What decoding a message body gives: the event, or the parser's error text.
pub open spec fn event_decoded(payload: Seq<u8>) -> Result<
    (Option<Seq<char>>, Option<Seq<char>>),
    Seq<char>,
> {
    json_decoded(payload, "id"@)
}

/// The id that logs and handlers see: the `id` field, or `unknown`.
pub open spec fn id_or_unknown(id: Option<Seq<char>>) -> Seq<char> {
    match id {
        Some(s) => s,
        None => "unknown"@,
    }
}

impl Event {
    /// Decodes a message body as JSON, reading its `id` field.
    pub fn decode(payload: &[u8]) -> (r: Result<Event, String>)
        ensures
            decoded_view(r) == event_decoded(payload@),
    {
        decode_json(payload, "id")
    }

    /// The event's id, or `unknown` when it has none.
    pub fn id_or_unknown(&self) -> (s: String)
        ensures
            s@ == id_or_unknown(opt_view(self.id)),
    {
        match &self.id {
            Some(s) => s.clone(),
            None => "unknown".to_owned(),
        }
    }
}

/// The lower-case hexadecimal digit for `n < 16`.
pub open spec fn hex_char(n: nat) -> char {
    if n < 10 {
        (48 + n) as char
    } else {
        (87 + n) as char
    }
}

/// How serde_json's escape table writes one character inside a JSON string: `"` and `\\`
/// escaped, the control characters under U+0020 as `\\b`, `\\t`, `\\n`,
/// `\\f`, `\\r` or `\\u00XX`, every other character as itself.
pub open spec fn json_escaped(c: char) -> Seq<char> {
    let u = c as u32;
    if c == '"' {
        seq!['\\', '"']
    } else if c == '\\' {
        seq!['\\', '\\']
    } else if u == 8 {
        seq!['\\', 'b']
    } else if u == 9 {
        seq!['\\', 't']
    } else if u == 10 {
        seq!['\\', 'n']
    } else if u == 12 {
        seq!['\\', 'f']
    } else if u == 13 {
        seq!['\\', 'r']
    } else if u < 32 {
        seq!['\\', 'u', '0', '0', hex_char((u / 16) as nat), hex_char((u % 16) as nat)]
    } else {
        seq![c]
    }
}

/// The characters of `s` as they stand inside a JSON string.
pub open spec fn json_escaped_all(s: Seq<char>) -> Seq<char>
    decreases s.len(),
{
    if s.len() == 0 {
        Seq::<char>::empty()
    } else {
        json_escaped_all(s.drop_last()) + json_escaped(s.last())
    }
}

/// `s` as a JSON string, quotes included.
pub open spec fn json_quoted(s: Seq<char>) -> Seq<char> {
    seq!['"'] + json_escaped_all(s) + seq!['"']
}

/// A JSON value that a body member holds: a string or an unsigned number.
#[derive(Debug, Clone)]
pub enum JsonScalar {
    Text(String),
    Number(u64),
}

/// A JSON scalar in plain values.
pub enum JsonScalarView {
    Text(Seq<char>),
    Number(u64),
}

impl View for JsonScalar {
    type V = JsonScalarView;

    open spec fn view(&self) -> JsonScalarView {
        match self {
            JsonScalar::Text(s) => JsonScalarView::Text(s@),
            JsonScalar::Number(n) => JsonScalarView::Number(*n),
        }
    }
}

/// How serde_json writes a scalar: a string quoted and escaped, a number in decimal.
pub open spec fn json_scalar_text(v: JsonScalarView) -> Seq<char> {
    match v {
        JsonScalarView::Text(s) => json_quoted(s),
        JsonScalarView::Number(n) => crate::number::decimal(n as nat),
    }
}

/// The members written `"key":value`, separated by commas.
pub open spec fn json_members_text(ms: Seq<(Seq<char>, JsonScalarView)>) -> Seq<char>
    decreases ms.len(),
{
    if ms.len() == 0 {
        Seq::<char>::empty()
    } else if ms.len() == 1 {
        json_quoted(ms[0].0) + seq![':'] + json_scalar_text(ms[0].1)
    } else {
        json_members_text(ms.drop_last()) + seq![','] + json_quoted(ms.last().0) + seq![':']
            + json_scalar_text(ms.last().1)
    }
}

/// A compact JSON object holding `ms` in their order.
pub open spec fn json_object_text(ms: Seq<(Seq<char>, JsonScalarView)>) -> Seq<char> {
    seq!['{'] + json_members_text(ms) + seq!['}']
}

/// Whether `a` comes before `b` in the order of their characters' code points,
/// which is the order of their UTF-8 bytes and so the order of `String`.
pub open spec fn text_before(a: Seq<char>, b: Seq<char>) -> bool
    decreases a.len(),
{
    if a.len() == 0 {
        b.len() > 0
    } else if b.len() == 0 {
        false
    } else if a[0] != b[0] {
        (a[0] as u32) < (b[0] as u32)
    } else {
        text_before(a.drop_first(), b.drop_first())
    }
}

/// The members in plain values.
pub open spec fn members_view(ms: Seq<(String, JsonScalar)>) -> Seq<(Seq<char>, JsonScalarView)> {
    ms.map_values(|m: (String, JsonScalar)| (m.0@, m.1@))
}

/// Builds a `serde_json::Map` from the members, in a `serde_json::Value::Object`,
/// and writes it with `serde_json::to_string`. serde_json's default map keeps its
/// keys in `String` order and writes the object compactly; with the members given
/// in strictly increasing key order (the `requires`), the text is the members in
/// that order (the `ensures`). Strings are escaped by serde_json's escape table
/// (`json_quoted`), numbers written by `itoa` in decimal, and writing into a
/// `Vec` does not fail.
#[verifier::external_body]
fn json_object(members: Vec<(String, JsonScalar)>) -> (r: Option<String>)
    requires
        forall|i: int|
            0 <= i < members.len() - 1 ==> text_before(
                #[trigger] members@[i].0@,
                members@[i + 1].0@,
            ),
    ensures
        r is Some,
        r->Some_0@ == json_object_text(members_view(members@)),
{
    let map: serde_json::Map<String, serde_json::Value> = members
        .into_iter()
        .map(|(k, v)| match v {
            JsonScalar::Text(s) => (k, serde_json::Value::String(s)),
            JsonScalar::Number(n) => (k, serde_json::Value::from(n)),
        })
        .collect();
    serde_json::to_string(&serde_json::Value::Object(map)).ok()
}

/// The compact JSON object of the members, written by serde_json; their keys
/// must strictly increase.
pub fn json_object_string(members: Vec<(String, JsonScalar)>) -> (t: String)
    requires
        forall|i: int|
            0 <= i < members.len() - 1 ==> text_before(
                #[trigger] members@[i].0@,
                members@[i + 1].0@,
            ),
    ensures
        t@ == json_object_text(members_view(members@)),
{
    match json_object(members) {
        Some(t) => t,
        None => String::new(),
    }
}

/// The id that handlers and logs see is the `id` field's string exactly, of
/// any length, and `unknown` only when there is no such field.
pub proof fn law_id_passes_through(id: Option<Seq<char>>)
    ensures
        id matches Some(s) ==> id_or_unknown(id) == s,
        id is None ==> id_or_unknown(id) == "unknown"@,
{
}

} // verus!
