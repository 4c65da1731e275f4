//! The schema's laws, proved once and for all over the validation spec:
//! complete documents load, undeclared keys and absent required fields are
//! rejected with their own error kinds, the destination rules resolve as
//! documented, and a loaded configuration survives a serialize-and-reload
//! round trip unchanged.

use vstd::prelude::*;

use crate::config::{
    default_path_view, first_unknown, spec_fields, spec_level_field, spec_level_name,
    spec_level_of, spec_location_entries, spec_missing, spec_scan_err, spec_to_yaml,
    spec_validate_doc, spec_validate_location, spec_validate_log, ConfigErrorV, ConfigV,
    LocationV, LogConfigV, LogLevel, Section,
};
use crate::text::{lemma_lower_identity, to_lower};
use crate::yaml::{lookup, YamlV};

verus! {

/// Whether `f` names one of the four required top-level fields.
pub open spec fn is_required(f: Seq<char>) -> bool {
    ||| f == "aggregator_host"@
    ||| f == "aggregator_port"@
    ||| f == "max_retries"@
    ||| f == "pid_file"@
}

/// Every valid document loads. A top-level mapping that carries the four
/// required fields, well shaped and in range, no undeclared key anywhere,
/// and a `log` section that is absent or itself valid, validates to the
/// configuration holding exactly those values; with `log` absent, the
/// logging section is the fully defaulted one.
pub proof fn lemma_complete_document_loads(
    m: Seq<(Seq<char>, YamlV)>,
    host: Seq<char>,
    port: int,
    retries: int,
    pid: Seq<char>,
)
    requires
        first_unknown(Section::Top, m) is None,
        lookup(m, "aggregator_host"@) == Some(YamlV::Str(host)),
        lookup(m, "aggregator_port"@) == Some(YamlV::Int(port)),
        -32768 <= port <= 32767,
        lookup(m, "max_retries"@) == Some(YamlV::Int(retries)),
        -32768 <= retries <= 32767,
        lookup(m, "pid_file"@) == Some(YamlV::Str(pid)),
        match lookup(m, "log"@) {
            None => true,
            Some(v) => v matches YamlV::Mapping(lm) && spec_validate_log(lm) is Ok,
        },
    ensures
        spec_validate_doc(YamlV::Mapping(m)) matches Ok(c) && c.aggregator_host == host
            && c.aggregator_port == port && c.max_retries == retries && c.pid_file == pid,
        lookup(m, "log"@) is None ==> spec_validate_doc(YamlV::Mapping(m)) == Ok::<
            ConfigV,
            ConfigErrorV,
        >(
            ConfigV {
                aggregator_host: host,
                aggregator_port: port,
                max_retries: retries,
                pid_file: pid,
                log: LogConfigV {
                    level: LogLevel::Info,
                    location: LocationV::File(default_path_view()),
                },
            },
        ),
{
}

/// A document carrying any key the schema does not declare, at top level or
/// inside `log` or `log.location`, is rejected with a schema violation.
pub proof fn lemma_unknown_key_rejected(m: Seq<(Seq<char>, YamlV)>)
    requires
        ({
            ||| first_unknown(Section::Top, m) is Some
            ||| (lookup(m, "log"@) matches Some(YamlV::Mapping(lm)) && first_unknown(
                Section::Log,
                lm,
            ) is Some)
            ||| (lookup(m, "log"@) matches Some(YamlV::Mapping(lm)) && lookup(lm, "location"@)
                matches Some(YamlV::Mapping(om)) && first_unknown(Section::Location, om) is Some)
        }),
    ensures
        spec_validate_doc(YamlV::Mapping(m)) matches Err(e) && e is SchemaViolation,
{
}

/// A document without undeclared keys that misses a required field is
/// rejected with `MissingField`, naming a field the document indeed lacks.
pub proof fn lemma_missing_required_rejected(m: Seq<(Seq<char>, YamlV)>, f: Seq<char>)
    requires
        spec_scan_err(m) is None,
        is_required(f),
        lookup(m, f) is None,
    ensures
        spec_validate_doc(YamlV::Mapping(m)) matches Err(e) && e matches
            ConfigErrorV::MissingField(g) && is_required(g) && lookup(m, g) is None,
{
}

/// A valid `log` mapping naming neither `level` nor `location` resolves to
/// the documented defaults: level `Info`, sink the well-known file.
pub proof fn lemma_log_defaults(lm: Seq<(Seq<char>, YamlV)>)
    requires
        first_unknown(Section::Log, lm) is None,
        lookup(lm, "level"@) is None,
        lookup(lm, "location"@) is None,
    ensures
        spec_validate_log(lm) == Ok::<LogConfigV, ConfigErrorV>(
            LogConfigV { level: LogLevel::Info, location: LocationV::File(default_path_view()) },
        ),
{
}

/// A `location` of type `file` without a `path` resolves to the well-known
/// log file.
pub proof fn lemma_file_without_path_defaults(om: Seq<(Seq<char>, YamlV)>, t: Seq<char>)
    requires
        first_unknown(Section::Location, om) is None,
        lookup(om, "type"@) == Some(YamlV::Str(t)),
        to_lower(t) == "file"@,
        lookup(om, "path"@) is None,
    ensures
        spec_validate_location(om) == Ok::<LocationV, ConfigErrorV>(
            LocationV::File(default_path_view()),
        ),
{
    reveal_strlit("file");
    reveal_strlit("stdout");
    assert("file"@.len() == 4);
    assert("stdout"@.len() == 6);
    assert(to_lower(t) != "stdout"@);
}

/// A `location` of type `stdout` resolves to the stdout sink when it stands
/// alone, and is rejected as a schema violation when a `path` stands beside
/// it.
pub proof fn lemma_stdout_location(om: Seq<(Seq<char>, YamlV)>, t: Seq<char>)
    requires
        first_unknown(Section::Location, om) is None,
        lookup(om, "type"@) == Some(YamlV::Str(t)),
        to_lower(t) == "stdout"@,
    ensures
        lookup(om, "path"@) is None ==> spec_validate_location(om) == Ok::<
            LocationV,
            ConfigErrorV,
        >(LocationV::Stdout),
        lookup(om, "path"@) is Some ==> spec_validate_location(om) == Err::<
            LocationV,
            ConfigErrorV,
        >(ConfigErrorV::SchemaViolation("path"@)),
{
}

/// Validation itself never produces an I/O error: that kind is reserved for
/// the file read in front of it.
pub proof fn lemma_validation_never_io(d: YamlV)
    ensures
        spec_validate_doc(d) matches Err(e) ==> !(e is IoError),
{
}

/// Serializing a loaded configuration and validating the result gives the
/// same configuration back: normalization is idempotent.
pub proof fn lemma_round_trip(c: ConfigV)
    requires
        -32768 <= c.aggregator_port <= 32767,
        -32768 <= c.max_retries <= 32767,
    ensures
        spec_validate_doc(spec_to_yaml(c)) == Ok::<ConfigV, ConfigErrorV>(c),
{
    reveal_strlit("aggregator_host");
    reveal_strlit("aggregator_port");
    reveal_strlit("max_retries");
    reveal_strlit("pid_file");
    reveal_strlit("log");
    reveal_strlit("level");
    reveal_strlit("location");
    reveal_strlit("type");
    reveal_strlit("path");
    reveal_strlit("stdout");
    reveal_strlit("file");
    reveal_strlit("debug");
    reveal_strlit("info");
    reveal_strlit("warn");
    reveal_strlit("error");
    assert("aggregator_host"@.len() == 15);
    assert("aggregator_port"@.len() == 15);
    assert("max_retries"@.len() == 11);
    assert("pid_file"@.len() == 8);
    assert("log"@.len() == 3);
    assert("level"@.len() == 5);
    assert("location"@.len() == 8);
    assert("type"@.len() == 4);
    assert("path"@.len() == 4);
    assert("stdout"@.len() == 6);
    assert("file"@.len() == 4);
    assert("debug"@.len() == 5);
    assert("info"@.len() == 4);
    assert("warn"@.len() == 4);
    assert("error"@.len() == 5);
    assert("aggregator_host"@ != "aggregator_port"@) by {
        assert("aggregator_host"@[11] == 'h');
        assert("aggregator_port"@[11] == 'p');
    }
    assert("type"@ != "path"@) by {
        assert("type"@[0] == 't');
        assert("path"@[0] == 'p');
    }
    assert("warn"@ != "info"@) by {
        assert("warn"@[0] == 'w');
        assert("info"@[0] == 'i');
    }
    assert("error"@ != "debug"@) by {
        assert("error"@[0] == 'e');
        assert("debug"@[0] == 'd');
    }
    assert("file"@ != "info"@) by {
        assert("file"@[0] == 'f');
        assert("info"@[0] == 'i');
    }
    assert("file"@ != "warn"@) by {
        assert("file"@[0] == 'f');
        assert("warn"@[0] == 'w');
    }
    let m = spec_to_yaml(c)->Mapping_0;
    let lm = seq![
        ("level"@, YamlV::Str(spec_level_name(c.log.level))),
        ("location"@, YamlV::Mapping(spec_location_entries(c.log.location))),
    ];
    let om = spec_location_entries(c.log.location);
    reveal_with_fuel(lookup, 7);
    reveal_with_fuel(first_unknown, 7);
    assert(first_unknown(Section::Top, m) is None);
    assert(first_unknown(Section::Log, lm) is None);
    assert(first_unknown(Section::Location, om) is None);
    assert(lookup(m, "log"@) == Some(YamlV::Mapping(lm)));
    assert(lookup(lm, "location"@) == Some(YamlV::Mapping(om)));
    match c.log.level {
        LogLevel::Debug => {
            lemma_lower_identity("debug"@);
        },
        LogLevel::Info => {
            lemma_lower_identity("info"@);
        },
        LogLevel::Warn => {
            lemma_lower_identity("warn"@);
        },
        LogLevel::Error => {
            lemma_lower_identity("error"@);
        },
    }
    assert(spec_level_of(to_lower(spec_level_name(c.log.level))) == Some(c.log.level));
    assert(spec_level_field(lm) == Ok::<LogLevel, ConfigErrorV>(c.log.level));
    match c.log.location {
        LocationV::Stdout => {
            lemma_lower_identity("stdout"@);
            assert(lookup(om, "path"@) is None);
            assert(spec_validate_location(om) == Ok::<LocationV, ConfigErrorV>(
                LocationV::Stdout,
            ));
        },
        LocationV::File(p) => {
            lemma_lower_identity("file"@);
            assert(to_lower("file"@) != "stdout"@);
            assert(lookup(om, "path"@) == Some(YamlV::Str(p)));
            assert(spec_validate_location(om) == Ok::<LocationV, ConfigErrorV>(
                LocationV::File(p),
            ));
        },
    }
    assert(spec_validate_log(lm) == Ok::<LogConfigV, ConfigErrorV>(c.log));
    assert(spec_scan_err(m) is None);
    assert(spec_missing(m) is None);
    assert(spec_fields(m) == Ok::<ConfigV, ConfigErrorV>(c));
}

} // verus!
