use nats_agent::event::Event;
use nats_agent::handler::{handler_outcome, plan_handler_run, HandlerError};

fn event(id: Option<&str>, json: Option<&str>) -> Event {
    Event { id: id.map(String::from), json: json.map(String::from) }
}

#[test]
fn decode_reads_id_and_writes_compact_json() {
    let e = Event::decode(br#"{ "status": "ok",  "id": "abc" }"#).unwrap();
    assert_eq!(e.id.as_deref(), Some("abc"));
    assert_eq!(e.json.as_deref(), Some(r#"{"id":"abc","status":"ok"}"#));
    assert_eq!(e.id_or_unknown(), "abc");
}

#[test]
fn decode_without_string_id() {
    let e = Event::decode(br#"{"id": 7}"#).unwrap();
    assert_eq!(e.id, None);
    assert_eq!(e.id_or_unknown(), "unknown");
    let e = Event::decode(b"[1, 2]").unwrap();
    assert_eq!(e.id, None);
    assert_eq!(e.json.as_deref(), Some("[1,2]"));
}

#[test]
fn decode_refuses_non_json() {
    assert!(Event::decode(b"not json").is_err());
    assert!(Event::decode(b"").is_err());
    assert!(!Event::decode(b"{").unwrap_err().is_empty());
}

#[test]
fn plan_runs_first_word_with_the_rest_as_arguments() {
    let e = event(Some("e-1"), Some(r#"{"id":"e-1"}"#));
    let run = plan_handler_run(&e, "events.workflow.failed", Some("  /bin/handler.sh  -v  x ")).unwrap();
    assert_eq!(run.program, "/bin/handler.sh");
    assert_eq!(run.args, vec!["-v", "x"]);
    assert_eq!(
        run.env,
        vec![
            ("NATS_SUBJECT".to_string(), "events.workflow.failed".to_string()),
            ("NATS_MSG_ID".to_string(), "e-1".to_string())
        ]
    );
    assert_eq!(run.payload, r#"{"id":"e-1"}"#);
    assert_eq!(run.stdin_end, "\n");
}

#[test]
fn plan_uses_unknown_for_missing_id() {
    let e = event(None, Some("{}"));
    let run = plan_handler_run(&e, "s", Some("echo")).unwrap();
    assert!(run.args.is_empty());
    assert_eq!(run.env[1].1, "unknown");
}

#[test]
fn plan_errors_in_order() {
    let no_json = event(None, None);
    assert!(matches!(plan_handler_run(&no_json, "s", None), Err(HandlerError::MissingCommand)));
    assert!(matches!(plan_handler_run(&no_json, "s", Some("echo")), Err(HandlerError::SerializeFailed)));
    let e = event(None, Some("{}"));
    assert!(matches!(plan_handler_run(&e, "s", Some(" \t ")), Err(HandlerError::EmptyCommand)));
}

#[test]
fn outcome_follows_exit_status() {
    assert!(handler_outcome(true, Some(0), b"ignored").is_ok());
    match handler_outcome(false, Some(3), b"  oops \n") {
        Err(HandlerError::Exited { code, stderr }) => {
            assert_eq!(code, 3);
            assert_eq!(stderr, "oops");
        }
        other => panic!("unexpected {:?}", other),
    }
    match handler_outcome(false, None, &[0xff, b'x']) {
        Err(HandlerError::Exited { code, stderr }) => {
            assert_eq!(code, -1);
            assert_eq!(stderr, "\u{FFFD}x");
        }
        other => panic!("unexpected {:?}", other),
    }
}

#[test]
fn error_messages() {
    let e = HandlerError::Exited { code: -1, stderr: "boom".to_string() };
    assert_eq!(e.message(), "Handler exited with code -1: boom");
    assert_eq!(HandlerError::MissingCommand.message(), "MESSAGE_HANDLER_CMD environment variable not set");
    assert_eq!(HandlerError::EmptyCommand.message(), "MESSAGE_HANDLER_CMD is empty");
    assert_eq!(HandlerError::SerializeFailed.message(), "Failed to serialize event to JSON");
    let s = HandlerError::SpawnFailed { command: "nope -x".to_string() };
    assert_eq!(s.message(), "Failed to spawn handler command: nope -x");
    assert_eq!(HandlerError::StdinWriteFailed.message(), "Failed to write event to handler stdin");
    assert_eq!(HandlerError::NewlineWriteFailed.message(), "Failed to write newline to handler stdin");
    assert_eq!(HandlerError::WaitFailed.message(), "Failed to wait for handler process");
}
