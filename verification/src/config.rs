//! The agent's configuration schema: the typed shape of the on-disk
//! document, the closed-schema validation that turns a parsed YAML tree into
//! an [`AgentConfiguration`], and the resolution of the effective log
//! destination. The schema is closed: a document carrying any key the schema
//! does not declare is rejected whole.

use vstd::prelude::*;

use crate::parse::{parse_document, yaml_doc_of};
use crate::text::{lower_is, to_lower};
use crate::yaml::{entries_view, lookup, YamlV, YamlValue};

verus! {

/// Severity threshold for the agent's log output.
#[derive(Clone, Copy, Debug, PartialEq, Eq, Structural)]
pub enum LogLevel {
    Debug,
    Info,
    Warn,
    Error,
}

/// Where log output goes: the process's standard output, or a file.
#[derive(Clone, Debug, PartialEq, Eq)]
pub enum LogLocation {
    Stdout,
    File { path: String },
}

/// Mathematical value of a [`LogLocation`].
pub enum LocationV {
    Stdout,
    File(Seq<char>),
}

impl View for LogLocation {
    type V = LocationV;

    open spec fn view(&self) -> LocationV {
        match self {
            LogLocation::Stdout => LocationV::Stdout,
            LogLocation::File { path } => LocationV::File(path@),
        }
    }
}

/// The logging section of the configuration, fully resolved: both fields
/// always hold concrete values, absent document fields having been replaced
/// by their defaults during validation.
#[derive(Clone, Debug, PartialEq, Eq)]
pub struct LogConfig {
    pub level: LogLevel,
    pub location: LogLocation,
}

/// Mathematical value of a [`LogConfig`].
pub struct LogConfigV {
    pub level: LogLevel,
    pub location: LocationV,
}

impl View for LogConfig {
    type V = LogConfigV;

    open spec fn view(&self) -> LogConfigV {
        LogConfigV { level: self.level, location: self.location@ }
    }
}

/// A validated agent configuration, immutable once loaded: every field holds
/// a concrete value, and no consumer ever observes an absent optional.
#[derive(Clone, Debug, PartialEq, Eq)]
pub struct AgentConfiguration {
    pub aggregator_host: String,
    pub aggregator_port: i16,
    pub max_retries: i16,
    pub pid_file: String,
    pub log: LogConfig,
}

/// Mathematical value of an [`AgentConfiguration`].
pub struct ConfigV {
    pub aggregator_host: Seq<char>,
    pub aggregator_port: int,
    pub max_retries: int,
    pub pid_file: Seq<char>,
    pub log: LogConfigV,
}

impl View for AgentConfiguration {
    type V = ConfigV;

    open spec fn view(&self) -> ConfigV {
        ConfigV {
            aggregator_host: self.aggregator_host@,
            aggregator_port: self.aggregator_port as int,
            max_retries: self.max_retries as int,
            pid_file: self.pid_file@,
            log: self.log@,
        }
    }
}

/// Why a configuration failed to load. Every error is terminal: the agent
/// fails closed rather than run on partial or guessed settings.
#[derive(Clone, Debug, PartialEq, Eq)]
pub enum ConfigError {
    /// The document could not be read at all; holds the cause.
    IoError(String),
    /// The text is not a well-formed YAML document; holds the parser's words.
    ParseError(String),
    /// A key the schema does not declare, or a declared field of the wrong
    /// shape; holds the offending field's name.
    SchemaViolation(String),
    /// A required field is absent; holds the field's name.
    MissingField(String),
    /// An enum-like field holds an unrecognized value; holds that value.
    UnknownVariant(String),
}

/// Mathematical value of a [`ConfigError`].
pub enum ConfigErrorV {
    IoError(Seq<char>),
    ParseError(Seq<char>),
    SchemaViolation(Seq<char>),
    MissingField(Seq<char>),
    UnknownVariant(Seq<char>),
}

impl View for ConfigError {
    type V = ConfigErrorV;

    open spec fn view(&self) -> ConfigErrorV {
        match self {
            ConfigError::IoError(s) => ConfigErrorV::IoError(s@),
            ConfigError::ParseError(s) => ConfigErrorV::ParseError(s@),
            ConfigError::SchemaViolation(s) => ConfigErrorV::SchemaViolation(s@),
            ConfigError::MissingField(s) => ConfigErrorV::MissingField(s@),
            ConfigError::UnknownVariant(s) => ConfigErrorV::UnknownVariant(s@),
        }
    }
}

/// The nested mappings of the document, each with its own set of declared
/// keys.
#[derive(Clone, Copy, Debug, PartialEq, Eq, Structural)]
pub enum Section {
    Top,
    Log,
    Location,
}

/// Whether the schema declares the key `k` in the given section.
pub open spec fn allowed_key(section: Section, k: Seq<char>) -> bool {
    match section {
        Section::Top => k == "aggregator_host"@ || k == "aggregator_port"@ || k
            == "max_retries"@ || k == "pid_file"@ || k == "log"@,
        Section::Log => k == "level"@ || k == "location"@,
        Section::Location => k == "type"@ || k == "path"@,
    }
}

/// The first key of `m`, in document order, that the schema does not declare
/// in the given section.
pub open spec fn first_unknown(section: Section, m: Seq<(Seq<char>, YamlV)>) -> Option<Seq<char>>
    decreases m,
{
    if m.len() == 0 {
        None
    } else if !allowed_key(section, m[0].0) {
        Some(m[0].0)
    } else {
        first_unknown(section, m.drop_first())
    }
}

/// The effective log file path when the document names none.
pub open spec fn default_path_view() -> Seq<char> {
    "/var/log/snitch.log"@
}

/// The log level a spelling selects, after case folding; `None` for a
/// spelling outside the four known levels.
pub open spec fn spec_level_of(ls: Seq<char>) -> Option<LogLevel> {
    if ls == "debug"@ {
        Some(LogLevel::Debug)
    } else if ls == "info"@ {
        Some(LogLevel::Info)
    } else if ls == "warn"@ {
        Some(LogLevel::Warn)
    } else if ls == "error"@ {
        Some(LogLevel::Error)
    } else {
        None
    }
}

/// The value bound to `k` in `m`, with `Other` standing in for an absent
/// key; used only after presence has been checked.
pub open spec fn value_of(m: Seq<(Seq<char>, YamlV)>, k: Seq<char>) -> YamlV {
    match lookup(m, k) {
        Some(v) => v,
        None => YamlV::Other,
    }
}

/// What the `location` mapping resolves to: its discriminator selects the
/// variant, a `path` may accompany `file` only, and an absent path falls
/// back to the default log file.
pub open spec fn spec_validate_location(om: Seq<(Seq<char>, YamlV)>) -> Result<
    LocationV,
    ConfigErrorV,
> {
    if let Some(k) = first_unknown(Section::Location, om) {
        Err(ConfigErrorV::SchemaViolation(k))
    } else {
        match lookup(om, "type"@) {
            None => Err(ConfigErrorV::MissingField("type"@)),
            Some(YamlV::Str(t)) => {
                if to_lower(t) == "stdout"@ {
                    if lookup(om, "path"@) is Some {
                        Err(ConfigErrorV::SchemaViolation("path"@))
                    } else {
                        Ok(LocationV::Stdout)
                    }
                } else if to_lower(t) == "file"@ {
                    match lookup(om, "path"@) {
                        None => Ok(LocationV::File(default_path_view())),
                        Some(YamlV::Str(p)) => Ok(LocationV::File(p)),
                        Some(_) => Err(ConfigErrorV::SchemaViolation("path"@)),
                    }
                } else {
                    Err(ConfigErrorV::UnknownVariant(t))
                }
            },
            Some(_) => Err(ConfigErrorV::SchemaViolation("type"@)),
        }
    }
}

/// What the `level` field of the `log` mapping resolves to; absent means
/// `Info`.
pub open spec fn spec_level_field(lm: Seq<(Seq<char>, YamlV)>) -> Result<
    LogLevel,
    ConfigErrorV,
> {
    match lookup(lm, "level"@) {
        None => Ok(LogLevel::Info),
        Some(YamlV::Str(s)) => match spec_level_of(to_lower(s)) {
            Some(l) => Ok(l),
            None => Err(ConfigErrorV::UnknownVariant(s)),
        },
        Some(_) => Err(ConfigErrorV::SchemaViolation("level"@)),
    }
}

/// What the `location` field of the `log` mapping resolves to; absent means
/// the default log file.
pub open spec fn spec_location_field(lm: Seq<(Seq<char>, YamlV)>) -> Result<
    LocationV,
    ConfigErrorV,
> {
    match lookup(lm, "location"@) {
        None => Ok(LocationV::File(default_path_view())),
        Some(YamlV::Mapping(om)) => spec_validate_location(om),
        Some(_) => Err(ConfigErrorV::SchemaViolation("location"@)),
    }
}

/// What the `log` mapping resolves to. A level error takes precedence over a
/// location error.
pub open spec fn spec_validate_log(lm: Seq<(Seq<char>, YamlV)>) -> Result<
    LogConfigV,
    ConfigErrorV,
> {
    if let Some(k) = first_unknown(Section::Log, lm) {
        Err(ConfigErrorV::SchemaViolation(k))
    } else {
        match (spec_level_field(lm), spec_location_field(lm)) {
            (Ok(level), Ok(location)) => Ok(LogConfigV { level, location }),
            (Err(e), _) => Err(e),
            (_, Err(e)) => Err(e),
        }
    }
}

/// What the optional `log` field resolves to; absent means the fully
/// defaulted logging section.
pub open spec fn spec_log_field(m: Seq<(Seq<char>, YamlV)>) -> Result<
    LogConfigV,
    ConfigErrorV,
> {
    match lookup(m, "log"@) {
        None => Ok(
            LogConfigV { level: LogLevel::Info, location: LocationV::File(default_path_view()) },
        ),
        Some(YamlV::Mapping(lm)) => spec_validate_log(lm),
        Some(_) => Err(ConfigErrorV::SchemaViolation("log"@)),
    }
}

/// The first undeclared key anywhere in the document: at top level, inside
/// `log`, or inside `log.location`, in that order. Undeclared keys are
/// sought before anything else, so an operator's typo is always reported as
/// such.
pub open spec fn spec_scan_err(m: Seq<(Seq<char>, YamlV)>) -> Option<ConfigErrorV> {
    if let Some(k) = first_unknown(Section::Top, m) {
        Some(ConfigErrorV::SchemaViolation(k))
    } else {
        match lookup(m, "log"@) {
            Some(YamlV::Mapping(lm)) => {
                if let Some(k) = first_unknown(Section::Log, lm) {
                    Some(ConfigErrorV::SchemaViolation(k))
                } else {
                    match lookup(lm, "location"@) {
                        Some(YamlV::Mapping(om)) => {
                            if let Some(k) = first_unknown(Section::Location, om) {
                                Some(ConfigErrorV::SchemaViolation(k))
                            } else {
                                None
                            }
                        },
                        _ => None,
                    }
                }
            },
            _ => None,
        }
    }
}

/// The first required top-level field, in schema order, that the document
/// does not carry.
pub open spec fn spec_missing(m: Seq<(Seq<char>, YamlV)>) -> Option<Seq<char>> {
    if lookup(m, "aggregator_host"@) is None {
        Some("aggregator_host"@)
    } else if lookup(m, "aggregator_port"@) is None {
        Some("aggregator_port"@)
    } else if lookup(m, "max_retries"@) is None {
        Some("max_retries"@)
    } else if lookup(m, "pid_file"@) is None {
        Some("pid_file"@)
    } else {
        None
    }
}

/// The shape and range checks of the four required fields, in schema order,
/// followed by the optional `log`; used once presence is settled.
pub open spec fn spec_fields(m: Seq<(Seq<char>, YamlV)>) -> Result<ConfigV, ConfigErrorV> {
    match value_of(m, "aggregator_host"@) {
        YamlV::Str(host) => match value_of(m, "aggregator_port"@) {
            YamlV::Int(port) => if port < -32768 || port > 32767 {
                Err(ConfigErrorV::SchemaViolation("aggregator_port"@))
            } else {
                match value_of(m, "max_retries"@) {
                    YamlV::Int(retries) => if retries < -32768 || retries > 32767 {
                        Err(ConfigErrorV::SchemaViolation("max_retries"@))
                    } else {
                        match value_of(m, "pid_file"@) {
                            YamlV::Str(pid) => match spec_log_field(m) {
                                Ok(log) => Ok(
                                    ConfigV {
                                        aggregator_host: host,
                                        aggregator_port: port,
                                        max_retries: retries,
                                        pid_file: pid,
                                        log,
                                    },
                                ),
                                Err(e) => Err(e),
                            },
                            _ => Err(ConfigErrorV::SchemaViolation("pid_file"@)),
                        }
                    },
                    _ => Err(ConfigErrorV::SchemaViolation("max_retries"@)),
                }
            },
            _ => Err(ConfigErrorV::SchemaViolation("aggregator_port"@)),
        },
        _ => Err(ConfigErrorV::SchemaViolation("aggregator_host"@)),
    }
}

/// What a parsed document validates to: undeclared keys are rejected first,
/// then absent required fields, then ill-shaped fields, then the logging
/// section; a document whose root is not a mapping is rejected outright.
pub open spec fn spec_validate_doc(d: YamlV) -> Result<ConfigV, ConfigErrorV> {
    match d {
        YamlV::Mapping(m) => {
            if let Some(e) = spec_scan_err(m) {
                Err(e)
            } else if let Some(f) = spec_missing(m) {
                Err(ConfigErrorV::MissingField(f))
            } else {
                spec_fields(m)
            }
        },
        _ => Err(ConfigErrorV::SchemaViolation("document"@)),
    }
}

/// `first_unknown` finds nothing exactly when every key is declared.
proof fn lemma_first_unknown_none(section: Section, m: Seq<(Seq<char>, YamlV)>)
    ensures
        first_unknown(section, m) is None <==> (forall|i: int|
            0 <= i < m.len() ==> allowed_key(section, m[i].0)),
    decreases m.len(),
{
    if m.len() > 0 {
        lemma_first_unknown_none(section, m.drop_first());
        assert(forall|i: int| 1 <= i < m.len() ==> m.drop_first()[i - 1] == m[i]);
    }
}

/// `first_unknown` names the first undeclared key.
proof fn lemma_first_unknown_at(section: Section, m: Seq<(Seq<char>, YamlV)>, i: int)
    requires
        0 <= i < m.len(),
        !allowed_key(section, m[i].0),
        forall|j: int| 0 <= j < i ==> allowed_key(section, m[j].0),
    ensures
        first_unknown(section, m) == Some(m[i].0),
    decreases i,
{
    if i > 0 {
        assert(forall|j: int| 0 <= j < i - 1 ==> m.drop_first()[j] == m[j + 1]);
        lemma_first_unknown_at(section, m.drop_first(), i - 1);
    }
}

/// Exec counterpart of [`allowed_key`].
fn key_allowed(section: Section, k: &String) -> (r: bool)
    ensures
        r == allowed_key(section, k@),
{
    match section {
        Section::Top => crate::yaml::string_is(k, "aggregator_host") || crate::yaml::string_is(
            k,
            "aggregator_port",
        ) || crate::yaml::string_is(k, "max_retries") || crate::yaml::string_is(k, "pid_file")
            || crate::yaml::string_is(k, "log"),
        Section::Log => crate::yaml::string_is(k, "level") || crate::yaml::string_is(
            k,
            "location",
        ),
        Section::Location => crate::yaml::string_is(k, "type") || crate::yaml::string_is(
            k,
            "path",
        ),
    }
}

/// The first key of `entries`, in document order, that the schema does not
/// declare in the given section, cloned out of the document.
fn scan_unknown(section: Section, entries: &Vec<(String, YamlValue)>) -> (r: Option<String>)
    ensures
        match r {
            Some(k) => first_unknown(section, entries_view(entries@)) == Some(k@),
            None => first_unknown(section, entries_view(entries@)) is None,
        },
{
    proof {
        crate::yaml::lemma_entries_view(entries@);
    }
    let ghost m = entries_view(entries@);
    let mut i: usize = 0;
    while i < entries.len()
        invariant
            0 <= i <= entries.len(),
            m == entries_view(entries@),
            m.len() == entries@.len(),
            forall|j: int| 0 <= j < m.len() ==> m[j] == (entries@[j].0@, entries@[j].1@),
            forall|j: int| 0 <= j < i ==> allowed_key(section, m[j].0),
        decreases entries.len() - i,
    {
        let e = &entries[i];
        if !key_allowed(section, &e.0) {
            proof {
                lemma_first_unknown_at(section, m, i as int);
            }
            return Some(e.0.clone());
        }
        i += 1;
    }
    proof {
        lemma_first_unknown_none(section, m);
    }
    None
}

/// The log level used when the document does not name one.
pub fn default_log_level() -> (r: LogLevel)
    ensures
        r == LogLevel::Info,
{
    LogLevel::Info
}

/// The log file path used when the document does not name one.
pub fn default_log_path() -> (r: String)
    ensures
        r@ == default_path_view(),
{
    "/var/log/snitch.log".to_owned()
}

/// The log level a spelling selects, after case folding: for the file's
/// `level` field and for a CLI flag alike. `None` for a spelling outside the
/// four known levels.
pub fn parse_level(s: &str) -> (r: Option<LogLevel>)
    ensures
        r == spec_level_of(to_lower(s@)),
{
    if lower_is(s, "debug") {
        Some(LogLevel::Debug)
    } else if lower_is(s, "info") {
        Some(LogLevel::Info)
    } else if lower_is(s, "warn") {
        Some(LogLevel::Warn)
    } else if lower_is(s, "error") {
        Some(LogLevel::Error)
    } else {
        None
    }
}

/// Validates the `location` mapping of a document.
pub fn validate_location(entries: &Vec<(String, YamlValue)>) -> (r: Result<
    LogLocation,
    ConfigError,
>)
    ensures
        match r {
            Ok(loc) => spec_validate_location(entries_view(entries@)) == Ok::<
                LocationV,
                ConfigErrorV,
            >(loc@),
            Err(e) => spec_validate_location(entries_view(entries@)) == Err::<
                LocationV,
                ConfigErrorV,
            >(e@),
        },
{
    if let Some(k) = scan_unknown(Section::Location, entries) {
        return Err(ConfigError::SchemaViolation(k));
    }
    match YamlValue::find(entries, "type") {
        None => Err(ConfigError::MissingField("type".to_owned())),
        Some(YamlValue::Str(t)) => {
            if lower_is(t.as_str(), "stdout") {
                if YamlValue::find(entries, "path").is_some() {
                    Err(ConfigError::SchemaViolation("path".to_owned()))
                } else {
                    Ok(LogLocation::Stdout)
                }
            } else if lower_is(t.as_str(), "file") {
                match YamlValue::find(entries, "path") {
                    None => Ok(LogLocation::File { path: default_log_path() }),
                    Some(YamlValue::Str(p)) => Ok(LogLocation::File { path: p.clone() }),
                    Some(_) => Err(ConfigError::SchemaViolation("path".to_owned())),
                }
            } else {
                Err(ConfigError::UnknownVariant(t.clone()))
            }
        },
        Some(_) => Err(ConfigError::SchemaViolation("type".to_owned())),
    }
}

/// Validates the `log` mapping of a document.
pub fn validate_log(entries: &Vec<(String, YamlValue)>) -> (r: Result<LogConfig, ConfigError>)
    ensures
        match r {
            Ok(lc) => spec_validate_log(entries_view(entries@)) == Ok::<
                LogConfigV,
                ConfigErrorV,
            >(lc@),
            Err(e) => spec_validate_log(entries_view(entries@)) == Err::<
                LogConfigV,
                ConfigErrorV,
            >(e@),
        },
{
    if let Some(k) = scan_unknown(Section::Log, entries) {
        return Err(ConfigError::SchemaViolation(k));
    }
    let level = match YamlValue::find(entries, "level") {
        None => LogLevel::Info,
        Some(YamlValue::Str(s)) => match parse_level(s.as_str()) {
            Some(l) => l,
            None => {
                return Err(ConfigError::UnknownVariant(s.clone()));
            },
        },
        Some(_) => {
            return Err(ConfigError::SchemaViolation("level".to_owned()));
        },
    };
    let location = match YamlValue::find(entries, "location") {
        None => LogLocation::File { path: default_log_path() },
        Some(YamlValue::Mapping(om)) => match validate_location(om) {
            Ok(loc) => loc,
            Err(e) => {
                return Err(e);
            },
        },
        Some(_) => {
            return Err(ConfigError::SchemaViolation("location".to_owned()));
        },
    };
    Ok(LogConfig { level, location })
}

/// Validates a whole parsed document against the schema, resolving every
/// optional field to its default.
pub fn validate_document(doc: &YamlValue) -> (r: Result<AgentConfiguration, ConfigError>)
    ensures
        match r {
            Ok(c) => spec_validate_doc(doc@) == Ok::<ConfigV, ConfigErrorV>(c@),
            Err(e) => spec_validate_doc(doc@) == Err::<ConfigV, ConfigErrorV>(e@),
        },
{
    let entries = match doc {
        YamlValue::Mapping(entries) => entries,
        _ => {
            return Err(ConfigError::SchemaViolation("document".to_owned()));
        },
    };
    if let Some(k) = scan_unknown(Section::Top, entries) {
        return Err(ConfigError::SchemaViolation(k));
    }
    match YamlValue::find(entries, "log") {
        Some(YamlValue::Mapping(lm)) => {
            if let Some(k) = scan_unknown(Section::Log, lm) {
                return Err(ConfigError::SchemaViolation(k));
            }
            match YamlValue::find(lm, "location") {
                Some(YamlValue::Mapping(om)) => {
                    if let Some(k) = scan_unknown(Section::Location, om) {
                        return Err(ConfigError::SchemaViolation(k));
                    }
                },
                _ => {},
            }
        },
        _ => {},
    }
    if YamlValue::find(entries, "aggregator_host").is_none() {
        return Err(ConfigError::MissingField("aggregator_host".to_owned()));
    }
    if YamlValue::find(entries, "aggregator_port").is_none() {
        return Err(ConfigError::MissingField("aggregator_port".to_owned()));
    }
    if YamlValue::find(entries, "max_retries").is_none() {
        return Err(ConfigError::MissingField("max_retries".to_owned()));
    }
    if YamlValue::find(entries, "pid_file").is_none() {
        return Err(ConfigError::MissingField("pid_file".to_owned()));
    }
    let aggregator_host = match YamlValue::find(entries, "aggregator_host") {
        Some(YamlValue::Str(s)) => s.clone(),
        _ => {
            return Err(ConfigError::SchemaViolation("aggregator_host".to_owned()));
        },
    };
    let aggregator_port = match YamlValue::find(entries, "aggregator_port") {
        Some(YamlValue::Int(i)) => {
            if *i < -32768 || *i > 32767 {
                return Err(ConfigError::SchemaViolation("aggregator_port".to_owned()));
            }
            *i as i16
        },
        _ => {
            return Err(ConfigError::SchemaViolation("aggregator_port".to_owned()));
        },
    };
    let max_retries = match YamlValue::find(entries, "max_retries") {
        Some(YamlValue::Int(i)) => {
            if *i < -32768 || *i > 32767 {
                return Err(ConfigError::SchemaViolation("max_retries".to_owned()));
            }
            *i as i16
        },
        _ => {
            return Err(ConfigError::SchemaViolation("max_retries".to_owned()));
        },
    };
    let pid_file = match YamlValue::find(entries, "pid_file") {
        Some(YamlValue::Str(s)) => s.clone(),
        _ => {
            return Err(ConfigError::SchemaViolation("pid_file".to_owned()));
        },
    };
    let log = match YamlValue::find(entries, "log") {
        None => LogConfig { level: LogLevel::Info, location: LogLocation::File {
            path: default_log_path(),
        } },
        Some(YamlValue::Mapping(lm)) => match validate_log(lm) {
            Ok(lc) => lc,
            Err(e) => {
                return Err(e);
            },
        },
        Some(_) => {
            return Err(ConfigError::SchemaViolation("log".to_owned()));
        },
    };
    Ok(AgentConfiguration { aggregator_host, aggregator_port, max_retries, pid_file, log })
}

/// The canonical spelling of a log level in a document.
pub open spec fn spec_level_name(l: LogLevel) -> Seq<char> {
    match l {
        LogLevel::Debug => "debug"@,
        LogLevel::Info => "info"@,
        LogLevel::Warn => "warn"@,
        LogLevel::Error => "error"@,
    }
}

/// The canonical `location` mapping of a destination.
pub open spec fn spec_location_entries(loc: LocationV) -> Seq<(Seq<char>, YamlV)> {
    match loc {
        LocationV::Stdout => seq![("type"@, YamlV::Str("stdout"@))],
        LocationV::File(p) => seq![
            ("type"@, YamlV::Str("file"@)),
            ("path"@, YamlV::Str(p)),
        ],
    }
}

/// The canonical document of a configuration: every field written out,
/// defaults included, each enum-like field in its lowercase spelling.
pub open spec fn spec_to_yaml(c: ConfigV) -> YamlV {
    YamlV::Mapping(
        seq![
            ("aggregator_host"@, YamlV::Str(c.aggregator_host)),
            ("aggregator_port"@, YamlV::Int(c.aggregator_port)),
            ("max_retries"@, YamlV::Int(c.max_retries)),
            ("pid_file"@, YamlV::Str(c.pid_file)),
            (
                "log"@,
                YamlV::Mapping(
                    seq![
                        ("level"@, YamlV::Str(spec_level_name(c.log.level))),
                        ("location"@, YamlV::Mapping(spec_location_entries(c.log.location))),
                    ],
                ),
            ),
        ],
    )
}

/// The canonical spelling of a log level.
pub fn level_name(l: &LogLevel) -> (r: String)
    ensures
        r@ == spec_level_name(*l),
{
    match l {
        LogLevel::Debug => "debug".to_owned(),
        LogLevel::Info => "info".to_owned(),
        LogLevel::Warn => "warn".to_owned(),
        LogLevel::Error => "error".to_owned(),
    }
}

/// Serializes a configuration into its canonical document: the normalized
/// form that loading gives back unchanged.
pub fn to_yaml(c: &AgentConfiguration) -> (r: YamlValue)
    ensures
        r@ == spec_to_yaml(c@),
{
    let mut loc_entries: Vec<(String, YamlValue)> = Vec::new();
    match &c.log.location {
        LogLocation::Stdout => {
            loc_entries.push(("type".to_owned(), YamlValue::Str("stdout".to_owned())));
        },
        LogLocation::File { path } => {
            loc_entries.push(("type".to_owned(), YamlValue::Str("file".to_owned())));
            loc_entries.push(("path".to_owned(), YamlValue::Str(path.clone())));
        },
    }
    proof {
        crate::yaml::lemma_entries_view(loc_entries@);
        assert(entries_view(loc_entries@) =~= spec_location_entries(c@.log.location));
    }
    let mut log_entries: Vec<(String, YamlValue)> = Vec::new();
    log_entries.push(("level".to_owned(), YamlValue::Str(level_name(&c.log.level))));
    log_entries.push(("location".to_owned(), YamlValue::Mapping(loc_entries)));
    proof {
        crate::yaml::lemma_entries_view(log_entries@);
        assert(entries_view(log_entries@) =~= seq![
            ("level"@, YamlV::Str(spec_level_name(c@.log.level))),
            ("location"@, YamlV::Mapping(spec_location_entries(c@.log.location))),
        ]);
    }
    let mut top: Vec<(String, YamlValue)> = Vec::new();
    top.push(("aggregator_host".to_owned(), YamlValue::Str(c.aggregator_host.clone())));
    top.push(("aggregator_port".to_owned(), YamlValue::Int(c.aggregator_port as i64)));
    top.push(("max_retries".to_owned(), YamlValue::Int(c.max_retries as i64)));
    top.push(("pid_file".to_owned(), YamlValue::Str(c.pid_file.clone())));
    top.push(("log".to_owned(), YamlValue::Mapping(log_entries)));
    proof {
        crate::yaml::lemma_entries_view(top@);
        assert(entries_view(top@) =~= spec_to_yaml(c@)->Mapping_0);
    }
    YamlValue::Mapping(top)
}

impl LogConfig {
    /// Get the log level
    pub fn level(&self) -> (r: &LogLevel)
        ensures
            *r == self@.level,
    {
        &self.level
    }

    /// Check if logging to stdout
    pub fn is_stdout(&self) -> (r: bool)
        ensures
            r == (self@.location is Stdout),
    {
        match self.location {
            LogLocation::Stdout => true,
            LogLocation::File { .. } => false,
        }
    }

    /// Get the file path if logging to file, None if logging to stdout
    pub fn file_path(&self) -> (r: Option<&String>)
        ensures
            match r {
                Some(p) => self@.location == LocationV::File(p@),
                None => self@.location is Stdout,
            },
    {
        match &self.location {
            LogLocation::File { path } => Some(path),
            LogLocation::Stdout => None,
        }
    }

    /// Get a reference to the log location
    pub fn location(&self) -> (r: &LogLocation)
        ensures
            r@ == self@.location,
    {
        &self.location
    }
}

impl Default for LogLocation {
    /// The default destination: the well-known log file.
    fn default() -> (r: Self)
        ensures
            r@ == LocationV::File(default_path_view()),
    {
        LogLocation::File { path: default_log_path() }
    }
}

impl Default for LogConfig {
    /// The fully defaulted logging section: `Info`, to the well-known file.
    fn default() -> (r: Self)
        ensures
            r@.level == LogLevel::Info,
            r@.location == LocationV::File(default_path_view()),
    {
        LogConfig { level: LogLevel::Info, location: LogLocation::File {
            path: default_log_path(),
        } }
    }
}

impl AgentConfiguration {
    /// Network address of the remote aggregator.
    pub fn aggregator_host(&self) -> (r: &String)
        ensures
            r@ == self@.aggregator_host,
    {
        &self.aggregator_host
    }

    /// TCP/UDP port of the remote aggregator.
    pub fn aggregator_port(&self) -> (r: i16)
        ensures
            r as int == self@.aggregator_port,
    {
        self.aggregator_port
    }

    /// Bound on transport retry attempts.
    pub fn max_retries(&self) -> (r: i16)
        ensures
            r as int == self@.max_retries,
    {
        self.max_retries
    }

    /// Where the running agent records its process id.
    pub fn pid_file(&self) -> (r: &String)
        ensures
            r@ == self@.pid_file,
    {
        &self.pid_file
    }

    /// The resolved logging section.
    pub fn log(&self) -> (r: &LogConfig)
        ensures
            r@ == self@.log,
    {
        &self.log
    }
}

/// The actionable destination descriptor a logging subsystem consumes: the
/// minimum severity to emit, and the one sink to write to.
#[derive(Clone, Debug, PartialEq, Eq)]
pub struct LogDestination {
    pub minimum_level: LogLevel,
    pub sink: LogLocation,
}

/// Translates a resolved logging section into its destination descriptor.
/// Total: a `LogConfig` is always fully populated, so there is no error
/// path.
pub fn resolve_destination(log: &LogConfig) -> (r: LogDestination)
    ensures
        r.minimum_level == log@.level,
        r.sink@ == log@.location,
{
    let sink = match log.location() {
        LogLocation::Stdout => LogLocation::Stdout,
        LogLocation::File { path } => LogLocation::File { path: path.clone() },
    };
    LogDestination { minimum_level: *log.level(), sink }
}

/// Parses and validates the text of a configuration document: the whole
/// loading path short of the file read.
pub fn parse_config(text: &str) -> (r: Result<AgentConfiguration, ConfigError>)
    ensures
        match yaml_doc_of(text@) {
            None => r matches Err(e) && e@ is ParseError,
            Some(d) => match r {
                Ok(c) => spec_validate_doc(d) == Ok::<ConfigV, ConfigErrorV>(c@),
                Err(e) => spec_validate_doc(d) == Err::<ConfigV, ConfigErrorV>(e@),
            },
        },
{
    match parse_document(text) {
        Ok(doc) => validate_document(&doc),
        Err(msg) => Err(ConfigError::ParseError(msg)),
    }
}

} // verus!
