use nats_agent::processor::{advance, apply_count, Counter, Failure, Input, Reaction, Stage};
use nats_agent::stats::RuntimeStats;

fn received(payload: &[u8], subject: &str) -> Input {
    Input::Received { payload: payload.to_vec(), subject: subject.to_string() }
}

fn is_idle(s: &Stage) -> bool {
    matches!(s, Stage::Idle)
}

fn episode(payload: &[u8], cmd: Option<&str>, handler_ok: bool, ack_ok: bool) -> Vec<Reaction> {
    let mut out = Vec::new();
    let r1 = advance(Stage::Idle, received(payload, "events.workflow.executed"), cmd);
    out.push(r1.clone());
    if r1.run.is_some() {
        let r2 = advance(r1.stage, Input::HandlerFinished { ok: handler_ok }, cmd);
        out.push(r2.clone());
        if r2.ack {
            let r3 = advance(r2.stage, Input::AckFinished { ok: ack_ok }, cmd);
            out.push(r3);
        }
    } else if r1.ack {
        let r2 = advance(r1.stage, Input::AckFinished { ok: ack_ok }, cmd);
        out.push(r2);
    }
    out
}

fn acks(rs: &[Reaction]) -> usize {
    rs.iter().filter(|r| r.ack).count()
}

fn counts(rs: &[Reaction]) -> Vec<Counter> {
    rs.iter().filter_map(|r| r.count).collect()
}

fn failures(rs: &[Reaction]) -> Vec<Option<Failure>> {
    rs.iter().filter_map(|r| r.measurement.as_ref().map(|m| m.failure)).collect()
}

#[test]
fn successful_message_is_processed() {
    let rs = episode(br#"{"id":"a1"}"#, Some("./echo.sh"), true, true);
    assert_eq!(rs.len(), 3);
    let run = rs[0].run.as_ref().unwrap();
    assert_eq!(run.program, "./echo.sh");
    assert_eq!(run.env[0].1, "events.workflow.executed");
    assert_eq!(run.env[1].1, "a1");
    assert_eq!(run.stdin_end, "\n");
    assert_eq!(rs[0].event_id.as_deref(), Some("a1"));
    assert_eq!(rs[0].decode_error, None);
    assert_eq!(rs[1].event_id, None);
    assert_eq!(acks(&rs), 1);
    assert_eq!(counts(&rs), vec![Counter::Processed]);
    assert_eq!(failures(&rs), vec![None]);
    let m = rs[2].measurement.as_ref().unwrap();
    assert_eq!(m.subject.as_deref(), Some("events.workflow.executed"));
    assert_eq!(m.status(), "success");
    assert!(is_idle(&rs[2].stage));
}

#[test]
fn failed_handler_is_not_acked_and_counted_as_error() {
    let rs = episode(br#"{"id":"a1"}"#, Some("./fail.sh"), false, true);
    assert_eq!(rs.len(), 2);
    assert_eq!(acks(&rs), 0);
    assert_eq!(counts(&rs), vec![Counter::Error]);
    assert_eq!(failures(&rs), vec![Some(Failure::HandlerFailed)]);
    let m = rs[1].measurement.as_ref().unwrap();
    assert_eq!(m.subject.as_deref(), Some("events.workflow.executed"));
    assert!(is_idle(&rs[1].stage));
}

#[test]
fn failed_ack_is_an_error() {
    let rs = episode(b"{}", Some("./echo.sh"), true, false);
    assert_eq!(acks(&rs), 1);
    assert_eq!(counts(&rs), vec![Counter::Error]);
    assert_eq!(failures(&rs), vec![Some(Failure::AckFailed)]);
    assert_eq!(rs[2].measurement.as_ref().unwrap().failure.unwrap().label(), "ack_failed");
}

#[test]
fn bad_json_is_acked_and_counted_as_error() {
    for ack_ok in [true, false] {
        let rs = episode(b"{broken", Some("./echo.sh"), true, ack_ok);
        assert_eq!(rs.len(), 2);
        assert!(rs[0].run.is_none());
        assert!(rs[0].ack);
        assert_eq!(counts(&rs), vec![Counter::Error]);
        assert_eq!(failures(&rs), vec![Some(Failure::DeserializationFailed)]);
        assert_eq!(rs[0].measurement.as_ref().unwrap().status(), "failed");
        assert!(rs[0].event_id.is_none());
        assert!(!rs[0].decode_error.as_ref().unwrap().is_empty());
        assert!(is_idle(&rs[1].stage));
    }
}

#[test]
fn missing_handler_command_is_a_handler_failure() {
    let rs = episode(b"{}", None, true, true);
    assert_eq!(rs.len(), 1);
    assert_eq!(acks(&rs), 0);
    assert_eq!(rs[0].event_id.as_deref(), Some("unknown"));
    assert!(is_idle(&rs[0].stage));
    assert_eq!(failures(&rs), vec![Some(Failure::HandlerFailed)]);
    assert_eq!(Failure::HandlerFailed.label(), "handler_failed");
}

#[test]
fn receive_failure_has_no_subject_and_no_ack() {
    let r = advance(Stage::Idle, Input::ReceiveFailed, Some("x"));
    assert!(is_idle(&r.stage));
    assert!(!r.ack);
    assert!(r.run.is_none());
    assert_eq!(r.count, Some(Counter::Error));
    let m = r.measurement.unwrap();
    assert_eq!(m.subject, None);
    assert_eq!(m.failure, Some(Failure::ReceiveFailed));
    assert_eq!(Failure::ReceiveFailed.label(), "receive_failed");
    assert_eq!(Failure::DeserializationFailed.label(), "deserialization_failed");
}

#[test]
fn unexpected_input_changes_nothing() {
    let r = advance(Stage::Idle, Input::AckFinished { ok: true }, None);
    assert!(is_idle(&r.stage));
    assert!(!r.ack && r.run.is_none() && r.count.is_none() && r.measurement.is_none());
    let r = advance(Stage::Closing, Input::HandlerFinished { ok: true }, None);
    assert!(matches!(r.stage, Stage::Closing));
}

#[test]
fn counts_update_the_statistics() {
    let mut stats = RuntimeStats::default();
    stats.errors = u64::MAX;
    apply_count(&mut stats, Counter::Processed, 50);
    assert_eq!(stats.messages_processed, 1);
    stats = RuntimeStats::default();
    apply_count(&mut stats, Counter::Processed, 100);
    apply_count(&mut stats, Counter::Error, 200);
    apply_count(&mut stats, Counter::Processed, 300);
    assert_eq!(stats.messages_processed, 2);
    assert_eq!(stats.errors, 1);
    assert_eq!(stats.last_message_time, Some(300));
}

#[test]
fn a_run_of_messages_counts_each_once() {
    let mut stats = RuntimeStats::default();
    let cases: [(&[u8], Option<&str>, bool, bool); 5] = [
        (br#"{"id":"1"}"#, Some("ok"), true, true),
        (br#"{"id":"2"}"#, Some("ok"), false, true),
        (b"nope", Some("ok"), true, true),
        (br#"{"id":"4"}"#, Some("ok"), true, false),
        (br#"{"id":"5"}"#, None, true, true),
    ];
    let mut now = 0;
    for (payload, cmd, h, a) in cases {
        for r in episode(payload, cmd, h, a) {
            if let Some(c) = r.count {
                now += 1;
                apply_count(&mut stats, c, now);
            }
        }
    }
    let r = advance(Stage::Idle, Input::ReceiveFailed, None);
    apply_count(&mut stats, r.count.unwrap(), 99);
    assert_eq!(stats.messages_processed + stats.errors, 6);
    assert_eq!(stats.messages_processed, 1);
}
