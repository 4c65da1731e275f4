use snitch_agent::config::{
    default_log_level, default_log_path, parse_config, parse_level, to_yaml,
};
use snitch_agent::yaml::YamlValue;
use snitch_agent::{LogConfig, LogLevel, LogLocation};

/// Rebuilds the parser's value tree so the document can be written back out
/// as text.
fn to_serde_value(v: &YamlValue) -> serde_yaml::Value {
    match v {
        YamlValue::Null => serde_yaml::Value::Null,
        YamlValue::Bool(b) => serde_yaml::Value::Bool(*b),
        YamlValue::Int(i) => serde_yaml::Value::Number(serde_yaml::Number::from(*i)),
        YamlValue::Str(s) => serde_yaml::Value::String(s.clone()),
        YamlValue::Mapping(entries) => {
            let mut m = serde_yaml::Mapping::new();
            for (k, val) in entries {
                m.insert(serde_yaml::Value::String(k.clone()), to_serde_value(val));
            }
            serde_yaml::Value::Mapping(m)
        }
        YamlValue::Other => serde_yaml::Value::Null,
    }
}

#[test]
fn text_round_trip_is_identity() {
    let text = [
        "aggregator_host: agg.local",
        "aggregator_port: 9000",
        "max_retries: 3",
        "pid_file: /run/snitch.pid",
        "log:",
        "  level: Warn",
        "  location:",
        "    type: stdout",
    ]
    .join("\n");
    let cfg = parse_config(&text).unwrap();
    let emitted = serde_yaml::to_string(&to_serde_value(&to_yaml(&cfg))).unwrap();
    let again = parse_config(&emitted).unwrap();
    assert_eq!(cfg, again);
}

#[test]
fn text_round_trip_keeps_defaults() {
    let text = "aggregator_host: h\naggregator_port: 1\nmax_retries: 0\npid_file: p";
    let cfg = parse_config(text).unwrap();
    let emitted = serde_yaml::to_string(&to_serde_value(&to_yaml(&cfg))).unwrap();
    let again = parse_config(&emitted).unwrap();
    assert_eq!(cfg, again);
    assert_eq!(*again.log().level(), LogLevel::Info);
    assert_eq!(again.log().file_path().unwrap().as_str(), "/var/log/snitch.log");
}

#[test]
fn documented_defaults() {
    assert_eq!(default_log_level(), LogLevel::Info);
    assert_eq!(default_log_path().as_str(), "/var/log/snitch.log");
    let lc = LogConfig::default();
    assert_eq!(*lc.level(), LogLevel::Info);
    assert_eq!(lc.file_path().unwrap().as_str(), "/var/log/snitch.log");
    assert_eq!(
        LogLocation::default(),
        LogLocation::File { path: "/var/log/snitch.log".to_owned() }
    );
}

#[test]
fn level_spellings_fold_case() {
    assert_eq!(parse_level("debug"), Some(LogLevel::Debug));
    assert_eq!(parse_level("Info"), Some(LogLevel::Info));
    assert_eq!(parse_level("WARN"), Some(LogLevel::Warn));
    assert_eq!(parse_level("Error"), Some(LogLevel::Error));
    assert_eq!(parse_level("trace"), None);
    assert_eq!(parse_level(""), None);
}

#[test]
fn parsed_values_reach_the_schema() {
    let text = "aggregator_host: \"9000\"\naggregator_port: 9000\nmax_retries: 3\npid_file: p";
    let cfg = parse_config(text).unwrap();
    assert_eq!(cfg.aggregator_host().as_str(), "9000");
    assert_eq!(cfg.aggregator_port(), 9000);
}
