use nats_agent::nats::{batch_error_text, connect_error_text, consumer_error_text, consumer_settings, stream_settings};
use nats_agent::stats::{health_report, status_report, RuntimeStats};

#[test]
fn stats_start_empty_and_count() {
    let mut s = RuntimeStats::default();
    assert_eq!((s.messages_processed, s.errors, s.last_message_time), (0, 0, None));
    s.increment_messages(42);
    s.increment_errors();
    s.increment_errors();
    assert_eq!((s.messages_processed, s.errors, s.last_message_time), (1, 2, Some(42)));
}

#[test]
fn status_report_reflects_stats() {
    let mut s = RuntimeStats::default();
    let r = status_report(&s, 7, 5 * 1024 * 1024 + 3);
    assert_eq!(r.uptime_seconds, 7);
    assert_eq!(r.memory_usage_mb, 5);
    assert_eq!(r.last_message_time, None);
    s.increment_messages(0);
    s.increment_errors();
    let r = status_report(&s, 0, 1023);
    assert_eq!(r.memory_usage_mb, 0);
    assert_eq!(r.messages_processed, 1);
    assert_eq!(r.errors, 1);
    assert_eq!(r.last_message_time.as_deref(), Some("1970-01-01T00:00:00Z"));
    s.increment_messages(1_518_568_087);
    let r = status_report(&s, 0, 0);
    assert_eq!(r.last_message_time.as_deref(), Some("2018-02-14T00:28:07Z"));
}

#[test]
fn health_is_ok() {
    assert_eq!(health_report().status, "ok");
}

#[test]
fn nats_settings_and_texts() {
    let subjects = vec!["a.>".to_string(), "b".to_string()];
    let st = stream_settings("events", &subjects);
    assert_eq!(st.name, "events");
    assert_eq!(st.subjects, subjects);
    let c = consumer_settings("all-events2");
    assert_eq!(c.durable_name.as_deref(), Some("all-events2"));
    assert_eq!(c.name.as_deref(), Some("all-events2"));
    assert_eq!(c.description.as_deref(), Some("consumer of all workflow events"));
    assert_eq!(connect_error_text("nats://x:1"), "Unable to connect to nats server: nats://x:1");
    assert_eq!(consumer_error_text("c"), "error creating durable consumer: c");
    assert_eq!(batch_error_text(10), "Failed to read messages with batch size 10 from stream");
}
