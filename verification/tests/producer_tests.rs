use nats_agent::event::{json_object_string, JsonScalar};
use nats_agent::clock::{rfc3339_of_reading, utc_now_rfc3339};
use nats_agent::producer::{
    generate_event, new_uuid_v4, sample_event, sample_from_draws, sample_kind, uuid_v4_of, GeneratedEvent,
    ProducerError, SampleEvent, SampleKind,
};

fn uuid_like(s: &str) {
    assert_eq!(s.len(), 36);
    let b = s.as_bytes();
    for i in [8, 13, 18, 23] {
        assert_eq!(b[i], b'-');
    }
    assert_eq!(b[14], b'4');
    assert!(s.chars().all(|c| c == '-' || c.is_ascii_digit() || ('a'..='f').contains(&c)));
}

fn utc_like(s: &str) {
    assert!(s.len() >= 25);
    assert!(s.ends_with("+00:00"));
    let b = s.as_bytes();
    assert_eq!((b[4], b[7], b[10], b[13], b[16]), (b'-', b'-', b'T', b':', b':'));
    assert!(chrono::DateTime::parse_from_rfc3339(s).is_ok());
}

#[test]
fn kind_follows_last_subject_token() {
    assert_eq!(sample_kind("events.workflow.created"), SampleKind::Created);
    assert_eq!(sample_kind("events.workflow.executed"), SampleKind::Completed);
    assert_eq!(sample_kind("events.workflow.completed"), SampleKind::Completed);
    assert_eq!(sample_kind("events.workflow.failed"), SampleKind::Generic);
    assert_eq!(sample_kind("created"), SampleKind::Created);
    assert_eq!(sample_kind("created.other"), SampleKind::Generic);
}

#[test]
fn sample_events_have_their_shape() {
    match generate_event("events.workflow.created", None).unwrap() {
        GeneratedEvent::Sample(SampleEvent::Created { id, workflow_id, name, status, created_at }) => {
            uuid_like(&id);
            uuid_like(&workflow_id);
            assert_ne!(id, workflow_id);
            assert_eq!(name, "Sample Workflow");
            assert_eq!(status, "created");
            utc_like(&created_at);
        }
        other => panic!("unexpected {:?}", other),
    }
    match generate_event("events.workflow.executed", None).unwrap() {
        GeneratedEvent::Sample(SampleEvent::Completed { id, status, duration_ms, completed_at, .. }) => {
            uuid_like(&id);
            assert_eq!(status, "completed");
            assert_eq!(duration_ms, 1234);
            utc_like(&completed_at);
        }
        other => panic!("unexpected {:?}", other),
    }
    match generate_event("events.other", None).unwrap() {
        GeneratedEvent::Sample(e @ SampleEvent::Generic { .. }) => {
            if let SampleEvent::Generic { id, message, timestamp } = &e {
                uuid_like(id);
                assert_eq!(message, "Generic event payload");
                utc_like(timestamp);
                assert_eq!(&e.id(), id);
            }
        }
        other => panic!("unexpected {:?}", other),
    }
}

#[test]
fn custom_payload_is_decoded_or_refused() {
    match generate_event("s", Some(r#"{"id": "x-9", "k": [1, 2]}"#)).unwrap() {
        GeneratedEvent::Custom(e) => {
            assert_eq!(e.id.as_deref(), Some("x-9"));
            assert_eq!(e.json.as_deref(), Some(r#"{"id":"x-9","k":[1,2]}"#));
        }
        other => panic!("unexpected {:?}", other),
    }
    let err = generate_event("s", Some("{nope")).unwrap_err();
    assert_eq!(err.message(), "Failed to parse custom payload JSON");
    match err {
        ProducerError::InvalidPayload { detail } => assert!(!detail.is_empty()),
        other => panic!("unexpected {:?}", other),
    }
    assert_eq!(ProducerError::RandomUnavailable.message(), "could not retrieve random bytes for uuid");
    assert_eq!(ProducerError::ClockUnavailable.message(), "system time before Unix epoch");
}

#[test]
fn uuids_are_version_four() {
    let a = new_uuid_v4().unwrap();
    let b = new_uuid_v4().unwrap();
    uuid_like(&a);
    assert_ne!(a, b);
    assert!(matches!(a.as_bytes()[19], b'8' | b'9' | b'a' | b'b'));
    let parsed = uuid::Uuid::parse_str(&a).unwrap();
    assert_eq!(parsed.get_version_num(), 4);
}

#[test]
fn sample_bodies_are_compact_json_with_sorted_keys() {
    let e = SampleEvent::Completed {
        id: "i".to_string(),
        workflow_id: "w".to_string(),
        status: "completed".to_string(),
        duration_ms: 1234,
        completed_at: "2024-01-02T03:04:05+00:00".to_string(),
    };
    assert_eq!(
        e.body_text(),
        r#"{"completed_at":"2024-01-02T03:04:05+00:00","duration_ms":1234,"id":"i","status":"completed","workflow_id":"w"}"#
    );
    let g = SampleEvent::Generic {
        id: "x".to_string(),
        message: "say \"hi\"\n\u{1}\\ é".to_string(),
        timestamp: "t".to_string(),
    };
    let text = g.body_text();
    let mut map = serde_json::Map::new();
    map.insert("id".to_string(), serde_json::Value::String("x".to_string()));
    map.insert("message".to_string(), serde_json::Value::String("say \"hi\"\n\u{1}\\ é".to_string()));
    map.insert("timestamp".to_string(), serde_json::Value::String("t".to_string()));
    assert_eq!(text, serde_json::to_string(&serde_json::Value::Object(map)).unwrap());
    let c = SampleEvent::Created {
        id: "a".to_string(),
        workflow_id: "b".to_string(),
        name: "Sample Workflow".to_string(),
        status: "created".to_string(),
        created_at: "c".to_string(),
    };
    assert_eq!(
        c.body_text(),
        r#"{"created_at":"c","id":"a","name":"Sample Workflow","status":"created","workflow_id":"b"}"#
    );
    let ge = GeneratedEvent::Sample(c);
    assert_eq!(ge.event_id(), "a");
    assert!(ge.body().unwrap().starts_with("{\"created_at\""));
}

#[test]
fn json_objects_are_written_by_serde_json() {
    for text in ["plain", "q\"uote", "back\\slash", "\u{0}\u{8}\t\n\u{c}\r\u{1f}", "\u{7f}é漢"] {
        let got = json_object_string(vec![
            ("a".to_string(), JsonScalar::Text(text.to_string())),
            ("b".to_string(), JsonScalar::Number(u64::MAX)),
        ]);
        let want = format!(
            "{{\"a\":{},\"b\":{}}}",
            serde_json::to_string(text).unwrap(),
            u64::MAX
        );
        assert_eq!(got, want);
    }
    assert_eq!(json_object_string(vec![]), "{}");
    assert_eq!(
        json_object_string(vec![("k".to_string(), JsonScalar::Text("\u{1f}".to_string()))]),
        "{\"k\":\"\\u001f\"}"
    );
}

#[test]
fn uuid_text_follows_the_drawn_bytes() {
    assert_eq!(uuid_v4_of(None), None);
    let bytes = [0xffu8; 16];
    assert_eq!(uuid_v4_of(Some(bytes)).unwrap(), "ffffffff-ffff-4fff-bfff-ffffffffffff");
    let zeros = [0u8; 16];
    assert_eq!(uuid_v4_of(Some(zeros)).unwrap(), "00000000-0000-4000-8000-000000000000");
    let counting: [u8; 16] = [0, 1, 2, 3, 4, 5, 6, 7, 8, 9, 10, 11, 12, 13, 14, 15];
    assert_eq!(uuid_v4_of(Some(counting)).unwrap(), "00010203-0405-4607-8809-0a0b0c0d0e0f");
}

#[test]
fn rfc3339_text_follows_the_reading() {
    assert_eq!(rfc3339_of_reading(None), None);
    assert_eq!(rfc3339_of_reading(Some((0, 0))).unwrap(), "1970-01-01T00:00:00+00:00");
    assert_eq!(
        rfc3339_of_reading(Some((1_518_568_087, 500_000_000))).unwrap(),
        "2018-02-14T00:28:07.500+00:00"
    );
    assert_eq!(
        rfc3339_of_reading(Some((951_782_400, 1_000))).unwrap(),
        "2000-02-29T00:00:00.000001+00:00"
    );
    assert_eq!(
        rfc3339_of_reading(Some((253_402_300_799, 123_456_789))).unwrap(),
        "9999-12-31T23:59:59.123456789+00:00"
    );
    assert_eq!(rfc3339_of_reading(Some((253_402_300_800, 0))).unwrap(), "+10000-01-01T00:00:00+00:00");
    utc_like(&utc_now_rfc3339().unwrap());
}

#[test]
fn sample_event_takes_the_given_values() {
    match sample_event("events.workflow.completed", "i".into(), "w".into(), "t".into()) {
        SampleEvent::Completed { id, workflow_id, status, duration_ms, completed_at } => {
            assert_eq!((id.as_str(), workflow_id.as_str(), completed_at.as_str()), ("i", "w", "t"));
            assert_eq!(status, "completed");
            assert_eq!(duration_ms, 1234);
        }
        other => panic!("unexpected {:?}", other),
    }
    match sample_event("x.y", "i".into(), "w".into(), "t".into()) {
        SampleEvent::Generic { id, message, timestamp } => {
            assert_eq!((id.as_str(), timestamp.as_str()), ("i", "t"));
            assert_eq!(message, "Generic event payload");
        }
        other => panic!("unexpected {:?}", other),
    }
}

#[test]
fn sample_from_draws_reports_each_failure() {
    let b = Some([0u8; 16]);
    let now = Some((0u64, 0u32));
    assert!(matches!(sample_from_draws("a.created", None, b, now), Err(ProducerError::RandomUnavailable)));
    assert!(matches!(sample_from_draws("a.created", b, None, now), Err(ProducerError::RandomUnavailable)));
    assert!(matches!(sample_from_draws("a.created", b, b, None), Err(ProducerError::ClockUnavailable)));
    assert!(sample_from_draws("a.other", b, None, now).is_ok());
    match sample_from_draws("a.created", b, Some([0xff; 16]), now).unwrap() {
        SampleEvent::Created { id, workflow_id, created_at, .. } => {
            assert_eq!(id, "00000000-0000-4000-8000-000000000000");
            assert_eq!(workflow_id, "ffffffff-ffff-4fff-bfff-ffffffffffff");
            assert_eq!(created_at, "1970-01-01T00:00:00+00:00");
        }
        other => panic!("unexpected {:?}", other),
    }
}
