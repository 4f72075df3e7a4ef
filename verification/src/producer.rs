//! Events that the producer publishes: a custom JSON payload, or a sample body
//! shaped by the last token of the subject. A body never repeats the subject:
//! the subject alone says what kind of event it is.

use vstd::prelude::*;
use vstd::string::StringSliceAdditionalSpecFns;
use crate::clock::{
    clock_reading, is_utc_rfc3339, rfc3339_limit, rfc3339_of_reading, utc_rfc3339_text,
};
use crate::config::opt_view;
use crate::event::{
    Event, JsonScalar, JsonScalarView, event_decoded, event_view, hex_char, id_or_unknown,
    json_object_string, json_object_text, members_view, text_before,
};
use crate::text::{last_piece, split_char};

verus! {

/// The shape of a sample body.
#[derive(Debug, Clone, Copy, PartialEq, Eq, Structural)]
pub enum SampleKind {
    /// For subjects ending in `created`.
    Created,
    /// For subjects ending in `executed` or `completed`.
    Completed,
    /// For every other subject.
    Generic,
}

/// The shape of sample body for `subject`, chosen by the piece after its last `.`.
pub open spec fn sample_kind_of(subject: Seq<char>) -> SampleKind {
    let kind = split_char(subject, '.').last();
    if kind == "created"@ {
        SampleKind::Created
    } else if kind == "executed"@ || kind == "completed"@ {
        SampleKind::Completed
    } else {
        SampleKind::Generic
    }
}

/// The shape of sample body for `subject`.
pub fn sample_kind(subject: &str) -> (k: SampleKind)
    ensures
        k == sample_kind_of(subject@),
{
    let kind = last_piece(subject, '.');
    if kind == "created".to_owned() {
        SampleKind::Created
    } else if kind == "executed".to_owned() || kind == "completed".to_owned() {
        SampleKind::Completed
    } else {
        SampleKind::Generic
    }
}

/// A sample event body. Ids are random version-4 UUIDs and times are the
/// current UTC time in RFC 3339.
#[derive(Debug, Clone)]
pub enum SampleEvent {
    Created { id: String, workflow_id: String, name: String, status: String, created_at: String },
    Completed {
        id: String,
        workflow_id: String,
        status: String,
        duration_ms: u64,
        completed_at: String,
    },
    Generic { id: String, message: String, timestamp: String },
}

/// The lower-case hexadecimal text of `bs`, two digits per byte.
pub open spec fn hex_text(bs: Seq<u8>) -> Seq<char>
    decreases bs.len(),
{
    if bs.len() == 0 {
        Seq::<char>::empty()
    } else {
        hex_text(bs.drop_last()) + seq![hex_char((bs.last() / 16) as nat), hex_char((bs.last() % 16) as nat)]
    }
}

/// Sixteen random bytes with the version-4 and RFC 4122 variant bits set, as
/// `uuid::Builder::from_random_bytes` sets them.
pub open spec fn v4_bytes(b: Seq<u8>) -> Seq<u8> {
    b.update(6, (b[6] & 0x0f) | 0x40).update(8, (b[8] & 0x3f) | 0x80)
}

/// The hyphenated lower-case text of the UUID with bytes `b`, as its `Display` writes it.
pub open spec fn uuid_text(b: Seq<u8>) -> Seq<char> {
    hex_text(b.subrange(0, 4)) + seq!['-'] + hex_text(b.subrange(4, 6)) + seq!['-'] + hex_text(
        b.subrange(6, 8),
    ) + seq!['-'] + hex_text(b.subrange(8, 10)) + seq!['-'] + hex_text(b.subrange(10, 16))
}

/// Whether `s` is the text of a version-4 UUID made from some sixteen bytes.
pub open spec fn is_uuid_v4(s: Seq<char>) -> bool {
    exists|b: Seq<u8>| b.len() == 16 && s == #[trigger] uuid_text(v4_bytes(b))
}

/// Fills sixteen bytes from the operating system's random source with
/// `getrandom::fill`; `None` when that source fails. The bytes are random:
/// nothing is stated of them.
#[verifier::external_body]
fn random_bytes() -> (r: Option<[u8; 16]>) {
    let mut bytes = [0u8; 16];
    getrandom::fill(&mut bytes).ok().map(|_| bytes)
}

/// Makes a version-4 UUID from `bytes` with `uuid::Builder::from_random_bytes`
/// and writes it with `to_string`. The contract states the text: the bytes
/// with the version and variant bits set, in lower-case hex, hyphenated 8-4-4-4-12.
#[verifier::external_body]
fn uuid_from_random(bytes: [u8; 16]) -> (s: String)
    ensures
        s@ == uuid_text(v4_bytes(bytes@)),
{
    uuid::Builder::from_random_bytes(bytes).into_uuid().to_string()
}

/// The text of the version-4 UUID made from a draw of random bytes; `None`
/// when the draw failed.
pub fn uuid_v4_of(draw: Option<[u8; 16]>) -> (r: Option<String>)
    ensures
        draw is None ==> r is None,
        draw is Some ==> r is Some && r->Some_0@ == uuid_text(v4_bytes(draw->Some_0@)),
{
    match draw {
        Some(bytes) => Some(uuid_from_random(bytes)),
        None => None,
    }
}

/// A fresh random version-4 UUID as text; `None` when no random bytes can be had.
/// See `uuid_v4_of` for the text of each draw.
pub fn new_uuid_v4() -> (r: Option<String>)
    ensures
        r matches Some(s) ==> is_uuid_v4(s@),
{
    let draw = random_bytes();
    let r = uuid_v4_of(draw);
    proof {
        if r is Some {
            assert(draw->Some_0@.len() == 16);
            assert(r->Some_0@ == uuid_text(v4_bytes(draw->Some_0@)));
        }
    }
    r
}

/// A sample body of the shape for `subject`, with its constant fields, ids of
/// version-4 UUIDs and times in UTC RFC 3339.
pub open spec fn sample_fits(e: SampleEvent, subject: Seq<char>) -> bool {
    match e {
        SampleEvent::Created { id, workflow_id, name, status, created_at } => {
            &&& sample_kind_of(subject) == SampleKind::Created
            &&& is_uuid_v4(id@) && is_uuid_v4(workflow_id@)
            &&& name@ == "Sample Workflow"@
            &&& status@ == "created"@
            &&& is_utc_rfc3339(created_at@)
        },
        SampleEvent::Completed { id, workflow_id, status, duration_ms, completed_at } => {
            &&& sample_kind_of(subject) == SampleKind::Completed
            &&& is_uuid_v4(id@) && is_uuid_v4(workflow_id@)
            &&& status@ == "completed"@
            &&& duration_ms == 1234
            &&& is_utc_rfc3339(completed_at@)
        },
        SampleEvent::Generic { id, message, timestamp } => {
            &&& sample_kind_of(subject) == SampleKind::Generic
            &&& is_uuid_v4(id@)
            &&& message@ == "Generic event payload"@
            &&& is_utc_rfc3339(timestamp@)
        },
    }
}

/// The id of a sample body.
pub open spec fn sample_id(e: SampleEvent) -> Seq<char> {
    match e {
        SampleEvent::Created { id, .. } => id@,
        SampleEvent::Completed { id, .. } => id@,
        SampleEvent::Generic { id, .. } => id@,
    }
}

/// The members of a sample body, in the order of their keys.
pub open spec fn sample_members(e: SampleEvent) -> Seq<(Seq<char>, JsonScalarView)> {
    match e {
        SampleEvent::Created { id, workflow_id, name, status, created_at } => seq![
            ("created_at"@, JsonScalarView::Text(created_at@)),
            ("id"@, JsonScalarView::Text(id@)),
            ("name"@, JsonScalarView::Text(name@)),
            ("status"@, JsonScalarView::Text(status@)),
            ("workflow_id"@, JsonScalarView::Text(workflow_id@)),
        ],
        SampleEvent::Completed { id, workflow_id, status, duration_ms, completed_at } => seq![
            ("completed_at"@, JsonScalarView::Text(completed_at@)),
            ("duration_ms"@, JsonScalarView::Number(duration_ms)),
            ("id"@, JsonScalarView::Text(id@)),
            ("status"@, JsonScalarView::Text(status@)),
            ("workflow_id"@, JsonScalarView::Text(workflow_id@)),
        ],
        SampleEvent::Generic { id, message, timestamp } => seq![
            ("id"@, JsonScalarView::Text(id@)),
            ("message"@, JsonScalarView::Text(message@)),
            ("timestamp"@, JsonScalarView::Text(timestamp@)),
        ],
    }
}

/// The JSON text of a sample body, as serde_json writes the object of its
/// members: compact, members in the order of their keys.
pub open spec fn sample_body(e: SampleEvent) -> Seq<char> {
    json_object_text(sample_members(e))
}

fn member(key: &str, value: JsonScalar) -> (m: (String, JsonScalar))
    ensures
        m.0@ == key@,
        m.1@ == value@,
{
    (key.to_owned(), value)
}

impl SampleEvent {
    /// The event's id.
    pub fn id(&self) -> (s: String)
        ensures
            s@ == sample_id(*self),
    {
        match self {
            SampleEvent::Created { id, .. } => id.clone(),
            SampleEvent::Completed { id, .. } => id.clone(),
            SampleEvent::Generic { id, .. } => id.clone(),
        }
    }

    /// The body's JSON text, written by serde_json.
    pub fn body_text(&self) -> (s: String)
        ensures
            s@ == sample_body(*self),
    {
        let mut members: Vec<(String, JsonScalar)> = Vec::new();
        match self {
            SampleEvent::Created { id, workflow_id, name, status, created_at } => {
                members.push(member("created_at", JsonScalar::Text(created_at.clone())));
                members.push(member("id", JsonScalar::Text(id.clone())));
                members.push(member("name", JsonScalar::Text(name.clone())));
                members.push(member("status", JsonScalar::Text(status.clone())));
                members.push(member("workflow_id", JsonScalar::Text(workflow_id.clone())));
                proof {
                    reveal_strlit("created_at");
                    reveal_strlit("id");
                    reveal_strlit("name");
                    reveal_strlit("status");
                    reveal_strlit("workflow_id");
                }
            },
            SampleEvent::Completed { id, workflow_id, status, duration_ms, completed_at } => {
                members.push(member("completed_at", JsonScalar::Text(completed_at.clone())));
                members.push(member("duration_ms", JsonScalar::Number(*duration_ms)));
                members.push(member("id", JsonScalar::Text(id.clone())));
                members.push(member("status", JsonScalar::Text(status.clone())));
                members.push(member("workflow_id", JsonScalar::Text(workflow_id.clone())));
                proof {
                    reveal_strlit("completed_at");
                    reveal_strlit("duration_ms");
                    reveal_strlit("id");
                    reveal_strlit("status");
                    reveal_strlit("workflow_id");
                }
            },
            SampleEvent::Generic { id, message, timestamp } => {
                members.push(member("id", JsonScalar::Text(id.clone())));
                members.push(member("message", JsonScalar::Text(message.clone())));
                members.push(member("timestamp", JsonScalar::Text(timestamp.clone())));
                proof {
                    reveal_strlit("id");
                    reveal_strlit("message");
                    reveal_strlit("timestamp");
                }
            },
        }
        assert(members_view(members@) =~= sample_members(*self));
        assert forall|i: int| 0 <= i < members.len() - 1 implies text_before(
            #[trigger] members@[i].0@,
            members@[i + 1].0@,
        ) by {
            assert(members_view(members@)[i].0 == members@[i].0@);
            assert(members_view(members@)[i + 1].0 == members@[i + 1].0@);
        }
        json_object_string(members)
    }
}

/// An event that the producer publishes.
#[derive(Debug, Clone)]
pub enum GeneratedEvent {
    /// A custom JSON payload, decoded.
    Custom(Event),
    /// A sample body.
    Sample(SampleEvent),
}

impl GeneratedEvent {
    /// The id that logs show: the sample's id, or the custom payload's `id`
    /// field (`unknown` when it has none).
    pub fn event_id(&self) -> (s: String)
        ensures
            s@ == match *self {
                GeneratedEvent::Custom(e) => id_or_unknown(opt_view(e.id)),
                GeneratedEvent::Sample(e) => sample_id(e),
            },
    {
        match self {
            GeneratedEvent::Custom(e) => e.id_or_unknown(),
            GeneratedEvent::Sample(e) => e.id(),
        }
    }

    /// The bytes to publish, as text: the custom payload's JSON text (`None` when
    /// it could not be written) or the sample's JSON text.
    pub fn body(&self) -> (r: Option<String>)
        ensures
            opt_view(r) == match *self {
                GeneratedEvent::Custom(e) => opt_view(e.json),
                GeneratedEvent::Sample(e) => Some(sample_body(e)),
            },
    {
        match self {
            GeneratedEvent::Custom(e) => match &e.json {
                Some(t) => Some(t.clone()),
                None => None,
            },
            GeneratedEvent::Sample(e) => Some(e.body_text()),
        }
    }
}

/// Why no event could be made.
#[derive(Debug, Clone)]
pub enum ProducerError {
    /// The custom payload is not JSON; the parser's error text is given.
    InvalidPayload { detail: String },
    /// The operating system's random source failed, so no id could be made.
    RandomUnavailable,
    /// The system clock is before the Unix epoch or past what can be written.
    ClockUnavailable,
}

/// The text that describes a producer error.
pub open spec fn producer_error_text(e: ProducerError) -> Seq<char> {
    match e {
        ProducerError::InvalidPayload { .. } => "Failed to parse custom payload JSON"@,
        ProducerError::RandomUnavailable => "could not retrieve random bytes for uuid"@,
        ProducerError::ClockUnavailable => "system time before Unix epoch"@,
    }
}

impl ProducerError {
    /// The text that describes the error.
    pub fn message(&self) -> (s: String)
        ensures
            s@ == producer_error_text(*self),
    {
        match self {
            ProducerError::InvalidPayload { .. } => "Failed to parse custom payload JSON".to_owned(),
            ProducerError::RandomUnavailable => "could not retrieve random bytes for uuid".to_owned(),
            ProducerError::ClockUnavailable => "system time before Unix epoch".to_owned(),
        }
    }
}

/// Whether a sample body takes a workflow id.
pub open spec fn takes_workflow_id(k: SampleKind) -> bool {
    k != SampleKind::Generic
}

/// Whether `e` is the sample body for `subject` with this id, workflow id (used
/// by the shapes that have one) and time, and the constant fields of its shape.
pub open spec fn sample_with(
    e: SampleEvent,
    subject: Seq<char>,
    id: Seq<char>,
    workflow_id: Seq<char>,
    at: Seq<char>,
) -> bool {
    match e {
        SampleEvent::Created { id: i, workflow_id: w, name, status, created_at } => {
            &&& sample_kind_of(subject) == SampleKind::Created
            &&& i@ == id && w@ == workflow_id
            &&& name@ == "Sample Workflow"@
            &&& status@ == "created"@
            &&& created_at@ == at
        },
        SampleEvent::Completed { id: i, workflow_id: w, status, duration_ms, completed_at } => {
            &&& sample_kind_of(subject) == SampleKind::Completed
            &&& i@ == id && w@ == workflow_id
            &&& status@ == "completed"@
            &&& duration_ms == 1234
            &&& completed_at@ == at
        },
        SampleEvent::Generic { id: i, message, timestamp } => {
            &&& sample_kind_of(subject) == SampleKind::Generic
            &&& i@ == id
            &&& message@ == "Generic event payload"@
            &&& timestamp@ == at
        },
    }
}

/// The sample body of the shape for `subject` with the given id, workflow id
/// (dropped by the generic shape) and time.
pub fn sample_event(subject: &str, id: String, workflow_id: String, at: String) -> (e: SampleEvent)
    ensures
        sample_with(e, subject@, id@, workflow_id@, at@),
{
    match sample_kind(subject) {
        SampleKind::Created => SampleEvent::Created {
            id,
            workflow_id,
            name: "Sample Workflow".to_owned(),
            status: "created".to_owned(),
            created_at: at,
        },
        SampleKind::Completed => SampleEvent::Completed {
            id,
            workflow_id,
            status: "completed".to_owned(),
            duration_ms: 1234,
            completed_at: at,
        },
        SampleKind::Generic => SampleEvent::Generic {
            id,
            message: "Generic event payload".to_owned(),
            timestamp: at,
        },
    }
}

/// The sample body for `subject` from the random draws for its id and workflow
/// id and from a clock reading: `RandomUnavailable` when a draw that the shape
/// needs failed (the id first), else `ClockUnavailable` when there is no reading
/// or (past year 9999) chrono cannot write it, else the body with the UUIDs of
/// the draws and the RFC 3339 text of the reading.
pub fn sample_from_draws(
    subject: &str,
    id_draw: Option<[u8; 16]>,
    workflow_draw: Option<[u8; 16]>,
    reading: Option<(u64, u32)>,
) -> (r: Result<SampleEvent, ProducerError>)
    requires
        reading is Some ==> reading->Some_0.1 < 1_000_000_000,
    ensures
        id_draw is None ==> r is Err && r->Err_0 is RandomUnavailable,
        id_draw is Some && takes_workflow_id(sample_kind_of(subject@)) && workflow_draw is None
            ==> r is Err && r->Err_0 is RandomUnavailable,
        r is Err && (id_draw is Some && (takes_workflow_id(sample_kind_of(subject@))
            ==> workflow_draw is Some)) ==> r->Err_0 is ClockUnavailable && (reading is None
            || reading->Some_0.0 >= rfc3339_limit()),
        r is Ok ==> id_draw is Some && reading is Some && sample_with(
            r->Ok_0,
            subject@,
            uuid_text(v4_bytes(id_draw->Some_0@)),
            if takes_workflow_id(sample_kind_of(subject@)) {
                uuid_text(v4_bytes(workflow_draw->Some_0@))
            } else {
                Seq::<char>::empty()
            },
            utc_rfc3339_text(reading->Some_0.0 as nat, reading->Some_0.1 as nat),
        ),
        id_draw is Some && (takes_workflow_id(sample_kind_of(subject@)) ==> workflow_draw is Some)
            && reading is Some && reading->Some_0.0 < rfc3339_limit() ==> r is Ok,
{
    let id = match uuid_v4_of(id_draw) {
        Some(t) => t,
        None => {
            return Err(ProducerError::RandomUnavailable);
        },
    };
    let kind = sample_kind(subject);
    let workflow_id = if kind == SampleKind::Generic {
        String::new()
    } else {
        match uuid_v4_of(workflow_draw) {
            Some(t) => t,
            None => {
                return Err(ProducerError::RandomUnavailable);
            },
        }
    };
    let at = match rfc3339_of_reading(reading) {
        Some(t) => t,
        None => {
            return Err(ProducerError::ClockUnavailable);
        },
    };
    Ok(sample_event(subject, id, workflow_id, at))
}

/// Makes the event to publish on `subject`: the custom payload when one is
/// given (an error if it is not JSON), else a sample body of the shape for
/// `subject`, unless no random id or no clock reading can be had.
pub fn generate_event(subject: &str, custom_payload: Option<&str>) -> (r: Result<
    GeneratedEvent,
    ProducerError,
>)
    ensures
        custom_payload is None ==> match r {
            Ok(GeneratedEvent::Sample(e)) => sample_fits(e, subject@),
            Ok(GeneratedEvent::Custom(_)) => false,
            Err(e) => e is RandomUnavailable || e is ClockUnavailable,
        },
        custom_payload matches Some(text) ==> match r {
            Ok(GeneratedEvent::Custom(e)) => event_decoded(text.spec_bytes()) == Ok::<
                (Option<Seq<char>>, Option<Seq<char>>),
                Seq<char>,
            >(event_view(e)),
            Err(ProducerError::InvalidPayload { detail }) => event_decoded(text.spec_bytes())
                == Err::<(Option<Seq<char>>, Option<Seq<char>>), Seq<char>>(detail@),
            _ => false,
        },
{
    match custom_payload {
        Some(text) => {
            let decoded = Event::decode(text.as_bytes());
            match decoded {
                Ok(e) => Ok(GeneratedEvent::Custom(e)),
                Err(detail) => Err(ProducerError::InvalidPayload { detail }),
            }
        },
        None => {
            let id_draw = random_bytes();
            let kind = sample_kind(subject);
            let workflow_draw = if id_draw.is_some() && kind != SampleKind::Generic {
                random_bytes()
            } else {
                None
            };
            let reading = if id_draw.is_some() && (kind == SampleKind::Generic
                || workflow_draw.is_some()) {
                clock_reading()
            } else {
                None
            };
            match sample_from_draws(subject, id_draw, workflow_draw, reading) {
                Ok(e) => {
                    proof {
                        lemma_drawn_sample_fits(
                            e,
                            subject@,
                            id_draw->Some_0@,
                            workflow_draw,
                            reading->Some_0.0 as nat,
                            reading->Some_0.1 as nat,
                        );
                    }
                    Ok(GeneratedEvent::Sample(e))
                },
                Err(e) => Err(e),
            }
        },
    }
}

proof fn lemma_drawn_sample_fits(
    e: SampleEvent,
    subject: Seq<char>,
    id_bytes: Seq<u8>,
    workflow_draw: Option<[u8; 16]>,
    secs: nat,
    nanos: nat,
)
    requires
        id_bytes.len() == 16,
        nanos < 1_000_000_000,
        takes_workflow_id(sample_kind_of(subject)) ==> workflow_draw is Some,
        sample_with(
            e,
            subject,
            uuid_text(v4_bytes(id_bytes)),
            if takes_workflow_id(sample_kind_of(subject)) {
                uuid_text(v4_bytes(workflow_draw->Some_0@))
            } else {
                Seq::<char>::empty()
            },
            utc_rfc3339_text(secs, nanos),
        ),
    ensures
        sample_fits(e, subject),
{
    if takes_workflow_id(sample_kind_of(subject)) {
        assert(workflow_draw->Some_0@.len() == 16);
    }
}

/// The shape of a sample body depends only on the last token of the subject,
/// however many tokens come before it: a subject ending in `created` gets the
/// created shape, one ending in `executed` or `completed` the completed shape,
/// and every other the generic shape.
pub proof fn law_sample_kind_follows_last_token(prefix: Seq<char>, token: Seq<char>)
    requires
        !token.contains('.'),
    ensures
        sample_kind_of(prefix.push('.') + token) == sample_kind_of(token),
        token == "created"@ ==> sample_kind_of(token) == SampleKind::Created,
        token == "executed"@ ==> sample_kind_of(token) == SampleKind::Completed,
        token == "completed"@ ==> sample_kind_of(token) == SampleKind::Completed,
        token != "created"@ && token != "executed"@ && token != "completed"@ ==> sample_kind_of(
            token,
        ) == SampleKind::Generic,
{
    crate::text::law_last_piece_after_separator(prefix, token, '.');
    crate::text::law_split_without_separator(token, '.');
    reveal_strlit("created");
    reveal_strlit("executed");
    reveal_strlit("completed");
    assert("created"@[0] != "executed"@[0]);
    assert("created"@[1] != "completed"@[1]);
}

} // verus!
