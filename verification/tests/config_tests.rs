use snitch_agent::config::{parse_config, resolve_destination, to_yaml, validate_document};
use snitch_agent::{AgentConfiguration, ConfigError, LogLevel, LogLocation};

fn complete_doc() -> String {
    [
        "aggregator_host: agg.local",
        "aggregator_port: 9000",
        "max_retries: 3",
        "pid_file: /run/snitch.pid",
    ]
    .join("\n")
}

fn load(text: &str) -> Result<AgentConfiguration, ConfigError> {
    parse_config(text)
}

#[test]
fn minimal_document_loads_with_defaults() {
    let cfg = load(&complete_doc()).unwrap();
    assert_eq!(cfg.aggregator_host().as_str(), "agg.local");
    assert_eq!(cfg.aggregator_port(), 9000);
    assert_eq!(cfg.max_retries(), 3);
    assert_eq!(cfg.pid_file().as_str(), "/run/snitch.pid");
    assert_eq!(*cfg.log().level(), LogLevel::Info);
    assert!(!cfg.log().is_stdout());
    assert_eq!(cfg.log().file_path().unwrap().as_str(), "/var/log/snitch.log");
}

#[test]
fn resolved_destination_of_minimal_document() {
    let cfg = load(&complete_doc()).unwrap();
    let dest = resolve_destination(cfg.log());
    assert_eq!(dest.minimum_level, LogLevel::Info);
    assert_eq!(
        dest.sink,
        LogLocation::File { path: "/var/log/snitch.log".to_owned() }
    );
}

#[test]
fn full_document_loads() {
    let text = format!(
        "{}\nlog:\n  level: debug\n  location:\n    type: file\n    path: /tmp/x.log",
        complete_doc()
    );
    let cfg = load(&text).unwrap();
    assert_eq!(*cfg.log().level(), LogLevel::Debug);
    assert_eq!(cfg.log().file_path().unwrap().as_str(), "/tmp/x.log");
}

#[test]
fn unknown_top_level_key_rejected() {
    let text = format!("{}\nextra_field: true", complete_doc());
    match load(&text) {
        Err(ConfigError::SchemaViolation(k)) => assert_eq!(k, "extra_field"),
        other => panic!("expected SchemaViolation, got {:?}", other),
    }
}

#[test]
fn unknown_key_inside_log_rejected() {
    let text = format!("{}\nlog:\n  verbosity: high", complete_doc());
    match load(&text) {
        Err(ConfigError::SchemaViolation(k)) => assert_eq!(k, "verbosity"),
        other => panic!("expected SchemaViolation, got {:?}", other),
    }
}

#[test]
fn unknown_key_inside_location_rejected() {
    let text = format!(
        "{}\nlog:\n  location:\n    type: file\n    mode: append",
        complete_doc()
    );
    match load(&text) {
        Err(ConfigError::SchemaViolation(k)) => assert_eq!(k, "mode"),
        other => panic!("expected SchemaViolation, got {:?}", other),
    }
}

#[test]
fn unknown_key_reported_before_missing_field() {
    let text = "aggregator_host: h\nbogus: 1";
    match load(text) {
        Err(ConfigError::SchemaViolation(k)) => assert_eq!(k, "bogus"),
        other => panic!("expected SchemaViolation, got {:?}", other),
    }
}

#[test]
fn missing_aggregator_host_rejected() {
    let text = "aggregator_port: 9000\nmax_retries: 3\npid_file: /run/s.pid";
    match load(text) {
        Err(ConfigError::MissingField(f)) => assert_eq!(f, "aggregator_host"),
        other => panic!("expected MissingField, got {:?}", other),
    }
}

#[test]
fn missing_aggregator_port_rejected() {
    let text = "aggregator_host: h\nmax_retries: 3\npid_file: /run/s.pid";
    match load(text) {
        Err(ConfigError::MissingField(f)) => assert_eq!(f, "aggregator_port"),
        other => panic!("expected MissingField, got {:?}", other),
    }
}

#[test]
fn missing_max_retries_rejected() {
    let text = "aggregator_host: h\naggregator_port: 9000\npid_file: /run/s.pid";
    match load(text) {
        Err(ConfigError::MissingField(f)) => assert_eq!(f, "max_retries"),
        other => panic!("expected MissingField, got {:?}", other),
    }
}

#[test]
fn missing_pid_file_rejected() {
    let text = "aggregator_host: h\naggregator_port: 9000\nmax_retries: 3";
    match load(text) {
        Err(ConfigError::MissingField(f)) => assert_eq!(f, "pid_file"),
        other => panic!("expected MissingField, got {:?}", other),
    }
}

#[test]
fn file_location_without_path_gets_default() {
    let text = format!("{}\nlog:\n  location:\n    type: file", complete_doc());
    let cfg = load(&text).unwrap();
    assert_eq!(cfg.log().file_path().unwrap().as_str(), "/var/log/snitch.log");
}

#[test]
fn stdout_location_resolves_to_stdout() {
    let text = format!("{}\nlog:\n  location:\n    type: stdout", complete_doc());
    let cfg = load(&text).unwrap();
    assert!(cfg.log().is_stdout());
    assert!(cfg.log().file_path().is_none());
    assert_eq!(*cfg.log().location(), LogLocation::Stdout);
}

#[test]
fn stdout_location_with_path_rejected() {
    let text = format!(
        "{}\nlog:\n  location:\n    type: stdout\n    path: /tmp/x.log",
        complete_doc()
    );
    match load(&text) {
        Err(ConfigError::SchemaViolation(k)) => assert_eq!(k, "path"),
        other => panic!("expected SchemaViolation, got {:?}", other),
    }
}

#[test]
fn discriminator_and_level_fold_case() {
    let text = format!(
        "{}\nlog:\n  level: WARN\n  location:\n    type: StdOut",
        complete_doc()
    );
    let cfg = load(&text).unwrap();
    assert_eq!(*cfg.log().level(), LogLevel::Warn);
    assert!(cfg.log().is_stdout());
}

#[test]
fn unknown_discriminator_rejected() {
    let text = format!("{}\nlog:\n  location:\n    type: syslog", complete_doc());
    match load(&text) {
        Err(ConfigError::UnknownVariant(v)) => assert_eq!(v, "syslog"),
        other => panic!("expected UnknownVariant, got {:?}", other),
    }
}

#[test]
fn unknown_level_rejected() {
    let text = format!("{}\nlog:\n  level: verbose", complete_doc());
    match load(&text) {
        Err(ConfigError::UnknownVariant(v)) => assert_eq!(v, "verbose"),
        other => panic!("expected UnknownVariant, got {:?}", other),
    }
}

#[test]
fn missing_discriminator_rejected() {
    let text = format!("{}\nlog:\n  location:\n    path: /tmp/x.log", complete_doc());
    match load(&text) {
        Err(ConfigError::MissingField(f)) => assert_eq!(f, "type"),
        other => panic!("expected MissingField, got {:?}", other),
    }
}

#[test]
fn port_out_of_range_rejected() {
    let text = "aggregator_host: h\naggregator_port: 70000\nmax_retries: 3\npid_file: p";
    match load(text) {
        Err(ConfigError::SchemaViolation(f)) => assert_eq!(f, "aggregator_port"),
        other => panic!("expected SchemaViolation, got {:?}", other),
    }
}

#[test]
fn port_bounds_accepted() {
    let text = "aggregator_host: h\naggregator_port: 32767\nmax_retries: -32768\npid_file: p";
    let cfg = load(text).unwrap();
    assert_eq!(cfg.aggregator_port(), 32767);
    assert_eq!(cfg.max_retries(), -32768);
}

#[test]
fn wrong_shape_of_field_rejected() {
    let text = "aggregator_host: [a, b]\naggregator_port: 9000\nmax_retries: 3\npid_file: p";
    match load(text) {
        Err(ConfigError::SchemaViolation(f)) => assert_eq!(f, "aggregator_host"),
        other => panic!("expected SchemaViolation, got {:?}", other),
    }
}

#[test]
fn fractional_port_rejected() {
    let text = "aggregator_host: h\naggregator_port: 90.5\nmax_retries: 3\npid_file: p";
    match load(text) {
        Err(ConfigError::SchemaViolation(f)) => assert_eq!(f, "aggregator_port"),
        other => panic!("expected SchemaViolation, got {:?}", other),
    }
}

#[test]
fn null_log_rejected() {
    let text = format!("{}\nlog: ~", complete_doc());
    match load(&text) {
        Err(ConfigError::SchemaViolation(f)) => assert_eq!(f, "log"),
        other => panic!("expected SchemaViolation, got {:?}", other),
    }
}

#[test]
fn scalar_document_rejected() {
    match load("just a string") {
        Err(ConfigError::SchemaViolation(f)) => assert_eq!(f, "document"),
        other => panic!("expected SchemaViolation, got {:?}", other),
    }
}

#[test]
fn malformed_text_is_parse_error_never_io_error() {
    let e = load("a: [unclosed").unwrap_err();
    assert!(matches!(e, ConfigError::ParseError(_)));
    let e = load(":").unwrap_err();
    assert!(!matches!(e, ConfigError::IoError(_)));
}

#[test]
fn duplicate_key_is_parse_error() {
    let text = format!("{}\naggregator_host: again", complete_doc());
    let e = load(&text).unwrap_err();
    assert!(matches!(e, ConfigError::ParseError(_)));
}

#[test]
fn value_round_trip_is_identity() {
    let text = format!(
        "{}\nlog:\n  level: ERROR\n  location:\n    type: FILE\n    path: /tmp/rt.log",
        complete_doc()
    );
    let cfg = load(&text).unwrap();
    let doc = to_yaml(&cfg);
    let again = validate_document(&doc).unwrap();
    assert_eq!(cfg, again);
}

#[test]
fn round_trip_normalizes_case_and_defaults() {
    let cfg = load(&complete_doc()).unwrap();
    let doc = to_yaml(&cfg);
    let again = validate_document(&doc).unwrap();
    assert_eq!(cfg, again);
    assert_eq!(again.log().file_path().unwrap().as_str(), "/var/log/snitch.log");
}
