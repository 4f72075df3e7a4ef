//! The decisions taken for each message pulled from the stream, as a state
//! machine: the caller feeds in what happened (a message arrived, the handler
//! finished, the acknowledgement finished) and performs what the reaction asks
//! for (run the handler, acknowledge, record a measurement, count).

use vstd::prelude::*;
use crate::config::opt_view;
use crate::event::{Event, event_decoded, id_or_unknown};
use crate::handler::{HandlerRun, HandlerRunView, opt_str_view, plan_handler_run, planned_run};
use crate::stats::RuntimeStats;

verus! {

/// Where the processing of the current message stands.
#[derive(Debug, Clone)]
pub enum Stage {
    /// No message in hand.
    Idle,
    /// The handler runs for a message published on `subject`.
    Handling { subject: String },
    /// The handler succeeded; the acknowledgement is pending.
    Confirming { subject: String },
    /// The body was not JSON; its acknowledgement is pending and its outcome is settled.
    Closing,
}

/// A stage in plain values.
pub enum StageView {
    Idle,
    Handling(Seq<char>),
    Confirming(Seq<char>),
    Closing,
}

impl View for Stage {
    type V = StageView;

    open spec fn view(&self) -> StageView {
        match self {
            Stage::Idle => StageView::Idle,
            Stage::Handling { subject } => StageView::Handling(subject@),
            Stage::Confirming { subject } => StageView::Confirming(subject@),
            Stage::Closing => StageView::Closing,
        }
    }
}

/// What happened since the last reaction.
#[derive(Debug, Clone)]
pub enum Input {
    /// A message arrived with this body, published on this subject.
    Received { payload: Vec<u8>, subject: String },
    /// Receiving the next message failed.
    ReceiveFailed,
    /// The handler finished, successfully or not.
    HandlerFinished { ok: bool },
    /// The acknowledgement finished, successfully or not.
    AckFinished { ok: bool },
}

/// An input in plain values.
pub enum InputView {
    Received(Seq<u8>, Seq<char>),
    ReceiveFailed,
    HandlerFinished(bool),
    AckFinished(bool),
}

impl View for Input {
    type V = InputView;

    open spec fn view(&self) -> InputView {
        match self {
            Input::Received { payload, subject } => InputView::Received(payload@, subject@),
            Input::ReceiveFailed => InputView::ReceiveFailed,
            Input::HandlerFinished { ok } => InputView::HandlerFinished(*ok),
            Input::AckFinished { ok } => InputView::AckFinished(*ok),
        }
    }
}

/// Why a message counts as failed.
#[derive(Debug, Clone, Copy, PartialEq, Eq, Structural)]
pub enum Failure {
    ReceiveFailed,
    DeserializationFailed,
    HandlerFailed,
    AckFailed,
}

/// The label of a failure in measurements.
pub open spec fn failure_label(f: Failure) -> Seq<char> {
    match f {
        Failure::ReceiveFailed => "receive_failed"@,
        Failure::DeserializationFailed => "deserialization_failed"@,
        Failure::HandlerFailed => "handler_failed"@,
        Failure::AckFailed => "ack_failed"@,
    }
}

impl Failure {
    /// The label of the failure in measurements.
    pub fn label(&self) -> (s: String)
        ensures
            s@ == failure_label(*self),
    {
        match self {
            Failure::ReceiveFailed => "receive_failed".to_owned(),
            Failure::DeserializationFailed => "deserialization_failed".to_owned(),
            Failure::HandlerFailed => "handler_failed".to_owned(),
            Failure::AckFailed => "ack_failed".to_owned(),
        }
    }
}

/// Which statistic a message adds one to.
#[derive(Debug, Clone, Copy, PartialEq, Eq, Structural)]
pub enum Counter {
    Processed,
    Error,
}

/// One latency measurement: the subject, when known, and the failure, `None`
/// for a success.
#[derive(Debug, Clone)]
pub struct Measurement {
    pub subject: Option<String>,
    pub failure: Option<Failure>,
}

/// The status label of a measurement.
pub open spec fn status_label(failure: Option<Failure>) -> Seq<char> {
    match failure {
        Some(_) => "failed"@,
        None => "success"@,
    }
}

impl Measurement {
    /// The status label: `success` or `failed`.
    pub fn status(&self) -> (s: String)
        ensures
            s@ == status_label(self.failure),
    {
        match self.failure {
            Some(_) => "failed".to_owned(),
            None => "success".to_owned(),
        }
    }
}

/// What to do after an input.
#[derive(Debug, Clone)]
pub struct Reaction {
    /// The stage to continue from.
    pub stage: Stage,
    /// Run the handler like this, then report `HandlerFinished`.
    pub run: Option<HandlerRun>,
    /// Acknowledge the message, then report `AckFinished`.
    pub ack: bool,
    /// Record this measurement.
    pub measurement: Option<Measurement>,
    /// Add one to this statistic.
    pub count: Option<Counter>,
    /// The id of the event just received, once its body is decoded (`unknown`
    /// when it has none), for the log.
    pub event_id: Option<String>,
    /// The parser's error text when the body just received is not JSON, for the log.
    pub decode_error: Option<String>,
}

/// A reaction in plain values.
pub struct ReactionView {
    pub stage: StageView,
    pub run: Option<HandlerRunView>,
    pub ack: bool,
    pub measurement: Option<(Option<Seq<char>>, Option<Failure>)>,
    pub count: Option<Counter>,
    pub event_id: Option<Seq<char>>,
    pub decode_error: Option<Seq<char>>,
}

impl View for Reaction {
    type V = ReactionView;

    open spec fn view(&self) -> ReactionView {
        ReactionView {
            stage: self.stage@,
            run: match self.run {
                Some(r) => Some(r@),
                None => None,
            },
            ack: self.ack,
            measurement: match self.measurement {
                Some(m) => Some((opt_view(m.subject), m.failure)),
                None => None,
            },
            count: self.count,
            event_id: opt_view(self.event_id),
            decode_error: opt_view(self.decode_error),
        }
    }
}

/// A reaction that only moves to `stage`.
pub open spec fn quiet(stage: StageView) -> ReactionView {
    ReactionView {
        stage,
        run: None,
        ack: false,
        measurement: None,
        count: None,
        event_id: None,
        decode_error: None,
    }
}

/// `r` with what the log shows of a message just received.
pub open spec fn noting(r: ReactionView, event_id: Option<Seq<char>>, decode_error: Option<
    Seq<char>,
>) -> ReactionView {
    ReactionView { event_id, decode_error, ..r }
}

/// A failed message: measure the failure, count an error, and acknowledge the
/// message when `ack` holds.
pub open spec fn failed(stage: StageView, subject: Option<Seq<char>>, f: Failure, ack: bool) -> ReactionView {
    ReactionView {
        stage,
        run: None,
        ack,
        measurement: Some((subject, Some(f))),
        count: Some(Counter::Error),
        event_id: None,
        decode_error: None,
    }
}

/// How the agent reacts to `input` at `stage` when the handler command is `command`.
///
/// A message whose body is not JSON is a deserialization failure, acknowledged so
/// that it is not delivered again. One whose handler cannot be run is a handler
/// failure; otherwise the handler runs, and a handler that fails is a handler
/// failure too. A handler failure is not acknowledged: only a handler that
/// exits with 0 leads to an acknowledgement, and the message counts as
/// processed only when that acknowledgement succeeds. A
/// receive failure is measured and counted without a subject. An input that the
/// stage does not wait for changes nothing. The reaction to a message just
/// received also carries, for the log, the event's id once the body is decoded,
/// or the parser's error text when it is not JSON.
pub open spec fn reaction(stage: StageView, input: InputView, command: Option<Seq<char>>) -> ReactionView {
    match stage {
        StageView::Idle => match input {
            InputView::Received(payload, subject) => match event_decoded(payload) {
                Err(e) => noting(
                    failed(StageView::Closing, Some(subject), Failure::DeserializationFailed, true),
                    None,
                    Some(e),
                ),
                Ok((id, json)) => noting(
                    match planned_run(id, json, subject, command) {
                        Err(_) => failed(StageView::Idle, Some(subject), Failure::HandlerFailed, false),
                        Ok(run) => ReactionView {
                            run: Some(run),
                            ..quiet(StageView::Handling(subject))
                        },
                    },
                    Some(id_or_unknown(id)),
                    None,
                ),
            },
            InputView::ReceiveFailed => failed(StageView::Idle, None, Failure::ReceiveFailed, false),
            _ => quiet(stage),
        },
        StageView::Handling(subject) => match input {
            InputView::HandlerFinished(ok) => if ok {
                ReactionView { ack: true, ..quiet(StageView::Confirming(subject)) }
            } else {
                failed(StageView::Idle, Some(subject), Failure::HandlerFailed, false)
            },
            _ => quiet(stage),
        },
        StageView::Confirming(subject) => match input {
            InputView::AckFinished(ok) => if ok {
                ReactionView {
                    measurement: Some((Some(subject), None)),
                    count: Some(Counter::Processed),
                    ..quiet(StageView::Idle)
                }
            } else {
                failed(StageView::Idle, Some(subject), Failure::AckFailed, false)
            },
            _ => quiet(stage),
        },
        StageView::Closing => match input {
            InputView::AckFinished(_) => quiet(StageView::Idle),
            _ => quiet(stage),
        },
    }
}

fn failure_reaction(stage: Stage, subject: Option<String>, f: Failure, ack: bool) -> (r: Reaction)
    ensures
        r@ == failed(stage@, opt_view(subject), f, ack),
{
    Reaction {
        stage,
        run: None,
        ack,
        measurement: Some(Measurement { subject, failure: Some(f) }),
        count: Some(Counter::Error),
        event_id: None,
        decode_error: None,
    }
}

fn quiet_reaction(stage: Stage) -> (r: Reaction)
    ensures
        r@ == quiet(stage@),
{
    Reaction {
        stage,
        run: None,
        ack: false,
        measurement: None,
        count: None,
        event_id: None,
        decode_error: None,
    }
}

/// Reacts to `input` at `stage`, with `command` as the handler command; see `reaction`.
pub fn advance(stage: Stage, input: Input, command: Option<&str>) -> (r: Reaction)
    ensures
        r@ == reaction(stage@, input@, opt_str_view(command)),
{
    match stage {
        Stage::Idle => match input {
            Input::Received { payload, subject } => {
                match Event::decode(payload.as_slice()) {
                    Err(e) => {
                        let mut r = failure_reaction(
                            Stage::Closing,
                            Some(subject),
                            Failure::DeserializationFailed,
                            true,
                        );
                        r.decode_error = Some(e);
                        r
                    },
                    Ok(event) => {
                        let id = event.id_or_unknown();
                        let planned = plan_handler_run(&event, subject.as_str(), command);
                        let mut r = match planned {
                            Err(_) => failure_reaction(
                                Stage::Idle,
                                Some(subject),
                                Failure::HandlerFailed,
                                false,
                            ),
                            Ok(run) => {
                                let mut q = quiet_reaction(Stage::Handling { subject });
                                q.run = Some(run);
                                q
                            },
                        };
                        r.event_id = Some(id);
                        r
                    },
                }
            },
            Input::ReceiveFailed => failure_reaction(Stage::Idle, None, Failure::ReceiveFailed, false),
            _ => quiet_reaction(Stage::Idle),
        },
        Stage::Handling { subject } => match input {
            Input::HandlerFinished { ok } => {
                if ok {
                    let mut r = quiet_reaction(Stage::Confirming { subject });
                    r.ack = true;
                    r
                } else {
                    failure_reaction(Stage::Idle, Some(subject), Failure::HandlerFailed, false)
                }
            },
            _ => quiet_reaction(Stage::Handling { subject }),
        },
        Stage::Confirming { subject } => match input {
            Input::AckFinished { ok } => {
                if ok {
                    let mut r = quiet_reaction(Stage::Idle);
                    r.measurement = Some(Measurement { subject: Some(subject), failure: None });
                    r.count = Some(Counter::Processed);
                    r
                } else {
                    failure_reaction(Stage::Idle, Some(subject), Failure::AckFailed, false)
                }
            },
            _ => quiet_reaction(Stage::Confirming { subject }),
        },
        Stage::Closing => match input {
            Input::AckFinished { ok: _ } => quiet_reaction(Stage::Idle),
            _ => quiet_reaction(Stage::Closing),
        },
    }
}

/// Adds one to the statistic that `counter` names; a processed message is
/// stamped with `now`.
pub fn apply_count(stats: &mut RuntimeStats, counter: Counter, now: u64)
    requires
        counter == Counter::Processed ==> old(stats).messages_processed < u64::MAX,
        counter == Counter::Error ==> old(stats).errors < u64::MAX,
    ensures
        counter == Counter::Processed ==> final(stats).messages_processed == old(
            stats,
        ).messages_processed + 1 && final(stats).errors == old(stats).errors
            && final(stats).last_message_time == Some(now),
        counter == Counter::Error ==> final(stats).errors == old(stats).errors + 1
            && final(stats).messages_processed == old(stats).messages_processed
            && final(stats).last_message_time == old(stats).last_message_time,
{
    match counter {
        Counter::Processed => stats.increment_messages(now),
        Counter::Error => stats.increment_errors(),
    }
}

/// The reactions to one message, when every request of a reaction is answered:
/// a handler run by `HandlerFinished(handler_ok)`, an acknowledgement by
/// `AckFinished(ack_ok)`.
pub open spec fn message_episode(
    payload: Seq<u8>,
    subject: Seq<char>,
    command: Option<Seq<char>>,
    handler_ok: bool,
    ack_ok: bool,
) -> Seq<ReactionView> {
    let r1 = reaction(StageView::Idle, InputView::Received(payload, subject), command);
    if r1.run is Some {
        let r2 = reaction(r1.stage, InputView::HandlerFinished(handler_ok), command);
        if r2.ack {
            seq![r1, r2, reaction(r2.stage, InputView::AckFinished(ack_ok), command)]
        } else {
            seq![r1, r2]
        }
    } else if r1.ack {
        seq![r1, reaction(r1.stage, InputView::AckFinished(ack_ok), command)]
    } else {
        seq![r1]
    }
}

/// Whether a message is acknowledged: its body is not JSON, or its handler ran
/// and exited with 0.
pub open spec fn acknowledged(
    payload: Seq<u8>,
    subject: Seq<char>,
    command: Option<Seq<char>>,
    handler_ok: bool,
) -> bool {
    event_decoded(payload) is Err || (handed_over(payload, subject, command) && handler_ok)
}

/// Whether a message reaches the handler: its body is JSON and the handler can be run.
pub open spec fn handed_over(payload: Seq<u8>, subject: Seq<char>, command: Option<Seq<char>>) -> bool {
    match event_decoded(payload) {
        Ok((id, json)) => planned_run(id, json, subject, command) is Ok,
        Err(_) => false,
    }
}

/// How many of the reactions satisfy `p`.
pub open spec fn tally(rs: Seq<ReactionView>, p: spec_fn(ReactionView) -> bool) -> nat
    decreases rs.len(),
{
    if rs.len() == 0 {
        0
    } else {
        tally(rs.drop_last(), p) + if p(rs.last()) {
            1nat
        } else {
            0nat
        }
    }
}

/// Each message ends with the machine idle and nothing more asked for (every
/// earlier reaction asks for exactly one thing); it runs the handler at most once
/// and only first; it is acknowledged once if its body is not JSON or its
/// handler exited with 0, and never otherwise, the acknowledgement coming after
/// the handler finished; it is measured once and counted once, as processed (and
/// measured as a success) exactly when it reached the handler, the handler
/// succeeded and the acknowledgement succeeded, and otherwise as an error.
pub proof fn law_message_settles_once(
    payload: Seq<u8>,
    subject: Seq<char>,
    command: Option<Seq<char>>,
    handler_ok: bool,
    ack_ok: bool,
)
    ensures
        ({
            let rs = message_episode(payload, subject, command, handler_ok, ack_ok);
            let delivered = handed_over(payload, subject, command) && handler_ok && ack_ok;
            &&& rs.last().stage is Idle
            &&& rs.last().run is None && !rs.last().ack
            &&& tally(rs, |r: ReactionView| r.ack) == if acknowledged(payload, subject, command, handler_ok) {
                1nat
            } else {
                0nat
            }
            &&& forall|i: int| 0 < i < rs.len() ==> (#[trigger] rs[i]).run is None
            &&& rs[0].run is Some ==> !rs[0].ack
            &&& tally(rs, |r: ReactionView| r.run is Some) == if handed_over(payload, subject, command) {
                1nat
            } else {
                0nat
            }
            &&& tally(rs, |r: ReactionView| r.measurement is Some) == 1
            &&& tally(rs, |r: ReactionView| r.count is Some) == 1
            &&& tally(rs, |r: ReactionView| r.count == Some(Counter::Processed)) == if delivered {
                1nat
            } else {
                0nat
            }
            &&& tally(rs, |r: ReactionView| r.measurement matches Some((_, None))) == if delivered {
                1nat
            } else {
                0nat
            }
            &&& forall|i: int|
                0 <= i < rs.len() - 1 ==> (#[trigger] rs[i].run is Some) != rs[i].ack
        }),
{
    let rs = message_episode(payload, subject, command, handler_ok, ack_ok);
    reveal_with_fuel(tally, 4);
    if rs.len() == 3 {
        assert(rs.drop_last().drop_last().drop_last() =~= Seq::<ReactionView>::empty());
        assert(rs.drop_last().drop_last() =~= seq![rs[0]]);
        assert(rs.drop_last() =~= seq![rs[0], rs[1]]);
    } else if rs.len() == 2 {
        assert(rs.drop_last().drop_last() =~= Seq::<ReactionView>::empty());
        assert(rs.drop_last() =~= seq![rs[0]]);
    } else {
        assert(rs.drop_last() =~= Seq::<ReactionView>::empty());
    }
}

/// A failed receive leaves the machine idle, acknowledges nothing, and is
/// measured and counted as an error without a subject.
pub proof fn law_receive_failure(command: Option<Seq<char>>)
    ensures
        reaction(StageView::Idle, InputView::ReceiveFailed, command) == failed(
            StageView::Idle,
            None,
            Failure::ReceiveFailed,
            false,
        ),
{
}

/// The handler learns the kind of an event from the subject alone: its
/// environment carries the message subject and the event id, and its input is
/// exactly the event's JSON text followed by a newline.
pub proof fn law_subject_reaches_handler(
    payload: Seq<u8>,
    subject: Seq<char>,
    command: Option<Seq<char>>,
)
    requires
        handed_over(payload, subject, command),
    ensures
        ({
            let r = reaction(StageView::Idle, InputView::Received(payload, subject), command);
            let (id, json) = event_decoded(payload)->Ok_0;
            &&& r.run is Some
            &&& r.run->Some_0.env[0] == ("NATS_SUBJECT"@, subject)
            &&& r.run->Some_0.env[1] == ("NATS_MSG_ID"@, crate::event::id_or_unknown(id))
            &&& json == Some(r.run->Some_0.payload)
            &&& r.run->Some_0.stdin_end == seq!['\n']
        }),
{
}

/// What happened to one item taken from a batch: a message with the outcome of
/// its handler run and of its acknowledgement, or a failed receive.
pub enum Delivery {
    Message { payload: Seq<u8>, subject: Seq<char>, handler_ok: bool, ack_ok: bool },
    ReceiveFailure,
}

/// The reactions to one item.
pub open spec fn delivery_reactions(d: Delivery, command: Option<Seq<char>>) -> Seq<ReactionView> {
    match d {
        Delivery::Message { payload, subject, handler_ok, ack_ok } => message_episode(
            payload,
            subject,
            command,
            handler_ok,
            ack_ok,
        ),
        Delivery::ReceiveFailure => seq![reaction(StageView::Idle, InputView::ReceiveFailed, command)],
    }
}

/// The reactions to items taken one after another, each handled to the end
/// before the next.
pub open spec fn session(ds: Seq<Delivery>, command: Option<Seq<char>>) -> Seq<ReactionView>
    decreases ds.len(),
{
    if ds.len() == 0 {
        Seq::<ReactionView>::empty()
    } else {
        session(ds.drop_last(), command) + delivery_reactions(ds.last(), command)
    }
}

/// Whether an item counts as processed: a message that reached the handler,
/// whose handler succeeded and whose acknowledgement succeeded.
pub open spec fn delivered(d: Delivery, command: Option<Seq<char>>) -> bool {
    match d {
        Delivery::Message { payload, subject, handler_ok, ack_ok } => handed_over(
            payload,
            subject,
            command,
        ) && handler_ok && ack_ok,
        Delivery::ReceiveFailure => false,
    }
}

/// How many of the items count as processed.
pub open spec fn delivered_count(ds: Seq<Delivery>, command: Option<Seq<char>>) -> nat
    decreases ds.len(),
{
    if ds.len() == 0 {
        0
    } else {
        delivered_count(ds.drop_last(), command) + if delivered(ds.last(), command) {
            1nat
        } else {
            0nat
        }
    }
}

proof fn lemma_tally_concat(a: Seq<ReactionView>, b: Seq<ReactionView>, p: spec_fn(ReactionView) -> bool)
    ensures
        tally(a + b, p) == tally(a, p) + tally(b, p),
    decreases b.len(),
{
    if b.len() == 0 {
        assert(a + b =~= a);
    } else {
        lemma_tally_concat(a, b.drop_last(), p);
        assert((a + b).drop_last() =~= a + b.drop_last());
        assert((a + b).last() == b.last());
    }
}

/// Over any run of items, the statistics grow by exactly one per item: the
/// processed count by the number of items that reached the handler, whose
/// handler succeeded and whose acknowledgement succeeded, and the error count
/// by all the others; and each item is measured exactly once.
pub proof fn law_session_counts(ds: Seq<Delivery>, command: Option<Seq<char>>)
    ensures
        tally(session(ds, command), |r: ReactionView| r.count is Some) == ds.len(),
        tally(session(ds, command), |r: ReactionView| r.count == Some(Counter::Processed))
            == delivered_count(ds, command),
        tally(session(ds, command), |r: ReactionView| r.count == Some(Counter::Error)) == ds.len()
            - delivered_count(ds, command),
        tally(session(ds, command), |r: ReactionView| r.measurement is Some) == ds.len(),
    decreases ds.len(),
{
    let counted = |r: ReactionView| r.count is Some;
    let processed = |r: ReactionView| r.count == Some(Counter::Processed);
    let errored = |r: ReactionView| r.count == Some(Counter::Error);
    let measured = |r: ReactionView| r.measurement is Some;
    if ds.len() > 0 {
        law_session_counts(ds.drop_last(), command);
        let prev = session(ds.drop_last(), command);
        let cur = delivery_reactions(ds.last(), command);
        lemma_tally_concat(prev, cur, counted);
        lemma_tally_concat(prev, cur, processed);
        lemma_tally_concat(prev, cur, errored);
        lemma_tally_concat(prev, cur, measured);
        lemma_delivery_counts(ds.last(), command);
        assert(delivered_count(ds.drop_last(), command) <= ds.len() - 1) by {
            lemma_delivered_count_bound(ds.drop_last(), command);
        }
    } else {
        assert(session(ds, command) =~= Seq::<ReactionView>::empty());
    }
}

proof fn lemma_delivered_count_bound(ds: Seq<Delivery>, command: Option<Seq<char>>)
    ensures
        delivered_count(ds, command) <= ds.len(),
    decreases ds.len(),
{
    if ds.len() > 0 {
        lemma_delivered_count_bound(ds.drop_last(), command);
    }
}

proof fn lemma_delivery_counts(d: Delivery, command: Option<Seq<char>>)
    ensures
        tally(delivery_reactions(d, command), |r: ReactionView| r.count is Some) == 1,
        tally(delivery_reactions(d, command), |r: ReactionView| r.count == Some(Counter::Processed))
            == if delivered(d, command) {
            1nat
        } else {
            0nat
        },
        tally(delivery_reactions(d, command), |r: ReactionView| r.count == Some(Counter::Error))
            == if delivered(d, command) {
            0nat
        } else {
            1nat
        },
        tally(delivery_reactions(d, command), |r: ReactionView| r.measurement is Some) == 1,
{
    reveal_with_fuel(tally, 4);
    match d {
        Delivery::Message { payload, subject, handler_ok, ack_ok } => {
            law_message_settles_once(payload, subject, command, handler_ok, ack_ok);
            let rs = message_episode(payload, subject, command, handler_ok, ack_ok);
            if rs.len() == 3 {
                assert(rs.drop_last().drop_last().drop_last() =~= Seq::<ReactionView>::empty());
                assert(rs.drop_last().drop_last() =~= seq![rs[0]]);
                assert(rs.drop_last() =~= seq![rs[0], rs[1]]);
            } else if rs.len() == 2 {
                assert(rs.drop_last().drop_last() =~= Seq::<ReactionView>::empty());
                assert(rs.drop_last() =~= seq![rs[0]]);
            } else {
                assert(rs.drop_last() =~= Seq::<ReactionView>::empty());
            }
        },
        Delivery::ReceiveFailure => {
            let rs = delivery_reactions(d, command);
            assert(rs.drop_last() =~= Seq::<ReactionView>::empty());
        },
    }
}

/// Messages are handled one at a time: a message that arrives while another is
/// being handled or acknowledged starts nothing, and every item of a run leaves
/// the machine idle, so the next begins only after the previous is settled.
pub proof fn law_one_message_at_a_time(
    stage: StageView,
    payload: Seq<u8>,
    subject: Seq<char>,
    command: Option<Seq<char>>,
    ds: Seq<Delivery>,
)
    ensures
        !(stage is Idle) ==> reaction(stage, InputView::Received(payload, subject), command)
            == quiet(stage),
        forall|i: int|
            0 <= i < ds.len() ==> (#[trigger] delivery_reactions(ds[i], command)).last().stage is Idle,
{
    assert forall|i: int| 0 <= i < ds.len() implies (#[trigger] delivery_reactions(
        ds[i],
        command,
    )).last().stage is Idle by {
        match ds[i] {
            Delivery::Message { payload, subject, handler_ok, ack_ok } => {
                law_message_settles_once(payload, subject, command, handler_ok, ack_ok);
            },
            Delivery::ReceiveFailure => {},
        }
    }
}

/// Every measurement of a message that was received, whatever its outcome
/// (not JSON, handler not runnable or failed, acknowledgement failed, or success),
/// carries the subject the message was published on.
pub proof fn law_measurements_carry_the_subject(
    payload: Seq<u8>,
    subject: Seq<char>,
    command: Option<Seq<char>>,
    handler_ok: bool,
    ack_ok: bool,
)
    ensures
        forall|i: int|
            0 <= i < message_episode(payload, subject, command, handler_ok, ack_ok).len()
                && (#[trigger] message_episode(payload, subject, command, handler_ok, ack_ok)[i]).measurement is Some
                ==> message_episode(payload, subject, command, handler_ok, ack_ok)[i].measurement->Some_0.0
                == Some(subject),
{
}

} // verus!
