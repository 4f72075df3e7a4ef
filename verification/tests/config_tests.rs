use nats_agent::config::{parse_subjects, Config, ConfigError, ConfigVars};

fn unset() -> ConfigVars {
    ConfigVars {
        nats_url: None,
        nats_stream_name: None,
        nats_subjects: None,
        nats_consumer_name: None,
        batch_size: None,
        otel_service_name: None,
        otel_endpoint: None,
    }
}

#[test]
fn defaults_apply_to_unset_variables() {
    let c = Config::from_vars(&unset()).unwrap();
    assert_eq!(c.nats_url, "nats://localhost:4222");
    assert_eq!(c.nats_stream_name, "events");
    assert_eq!(c.nats_subjects, vec!["events.>"]);
    assert_eq!(c.nats_consumer_name, "all-events2");
    assert_eq!(c.batch_size, 10);
    assert_eq!(c.otel_service_name, "nats-agent");
    assert_eq!(c.otel_endpoint, None);
}

#[test]
fn set_variables_are_used() {
    let vars = ConfigVars {
        nats_url: Some("nats://192.168.128.13:4222".to_string()),
        nats_stream_name: Some("workflows".to_string()),
        nats_subjects: Some("workflows.>".to_string()),
        nats_consumer_name: Some("wf-created".to_string()),
        batch_size: Some("1".to_string()),
        otel_service_name: Some("agent".to_string()),
        otel_endpoint: Some("http://10.97.25.182:4317".to_string()),
    };
    let c = Config::from_vars(&vars).unwrap();
    assert_eq!(c.nats_url, "nats://192.168.128.13:4222");
    assert_eq!(c.nats_stream_name, "workflows");
    assert_eq!(c.nats_subjects, vec!["workflows.>"]);
    assert_eq!(c.nats_consumer_name, "wf-created");
    assert_eq!(c.batch_size, 1);
    assert_eq!(c.otel_service_name, "agent");
    assert_eq!(c.otel_endpoint.as_deref(), Some("http://10.97.25.182:4317"));
}

#[test]
fn subjects_are_split_at_commas_and_trimmed() {
    let mut vars = unset();
    vars.nats_subjects = Some(" a.> , b.c,,d ".to_string());
    let c = Config::from_vars(&vars).unwrap();
    assert_eq!(c.nats_subjects, vec!["a.>", "b.c", "", "d"]);
    assert_eq!(parse_subjects(""), vec![""]);
}

#[test]
fn bad_batch_size_is_refused() {
    for bad in ["abc", "", "-3", " 10", "1.5"] {
        let mut vars = unset();
        vars.batch_size = Some(bad.to_string());
        let e = Config::from_vars(&vars).unwrap_err();
        assert_eq!(e, ConfigError::InvalidBatchSize);
        assert_eq!(e.message(), "BATCH_SIZE must be a valid integer");
    }
    let mut vars = unset();
    vars.batch_size = Some("+25".to_string());
    assert_eq!(Config::from_vars(&vars).unwrap().batch_size, 25);
}
