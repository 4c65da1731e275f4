//! The trusted boundary to the YAML parser. `serde_yaml` turns the raw
//! document text into its own value tree; the functions here carry that tree
//! over into [`YamlValue`], the plain model that the verified schema logic
//! reads. Everything past this module is verified against the contract of
//! [`parse_document`].

use vstd::prelude::*;

use crate::yaml::{YamlV, YamlValue};

verus! {

/// The value tree that `serde_yaml::from_str` reads out of the text `s`,
/// carried over into the library's model, or `None` where the text is not a
/// well-formed YAML document. The parse depends on the text alone.
pub uninterp spec fn yaml_doc_of(s: Seq<char>) -> Option<YamlV>;

#[verifier::external_type_specification]
#[verifier::external_body]
pub struct ExValue(serde_yaml::Value);

#[verifier::external_type_specification]
#[verifier::external_body]
pub struct ExMapping(serde_yaml::Mapping);

/// Relies on serde_yaml::Value: each variant of the parsed tree has its one
/// counterpart in the model; integers beyond i64, sequences and tags, which
/// the schema rejects wherever they appear, become `Other`.
#[verifier::external_body]
fn convert_value(v: serde_yaml::Value) -> YamlValue {
    match v {
        serde_yaml::Value::Null => YamlValue::Null,
        serde_yaml::Value::Bool(b) => YamlValue::Bool(b),
        serde_yaml::Value::Number(n) => match n.as_i64() {
            Some(i) => YamlValue::Int(i),
            None => YamlValue::Other,
        },
        serde_yaml::Value::String(s) => YamlValue::Str(s),
        serde_yaml::Value::Mapping(m) => convert_mapping(m),
        serde_yaml::Value::Sequence(_) => YamlValue::Other,
        serde_yaml::Value::Tagged(_) => YamlValue::Other,
    }
}

/// Relies on serde_yaml::Mapping: iterating it yields every entry in
/// document order. A mapping with a key that is not a string has no place in
/// the schema and becomes `Other` whole.
#[verifier::external_body]
fn convert_mapping(m: serde_yaml::Mapping) -> YamlValue {
    let mut out: Vec<(String, YamlValue)> = Vec::new();
    for (k, v) in m {
        match k {
            serde_yaml::Value::String(s) => out.push((s, convert_value(v))),
            _ => return YamlValue::Other,
        }
    }
    YamlValue::Mapping(out)
}

/// Relies on serde_yaml::from_str: parses the text as one YAML document,
/// failing on malformed input; the error's display text comes back with the
/// failure.
#[verifier::external_body]
pub fn parse_document(s: &str) -> (r: Result<YamlValue, String>)
    ensures
        match r {
            Ok(v) => yaml_doc_of(s@) == Some(v@),
            Err(_) => yaml_doc_of(s@) is None,
        },
{
    match serde_yaml::from_str::<serde_yaml::Value>(s) {
        Ok(v) => Ok(convert_value(v)),
        Err(e) => Err(e.to_string()),
    }
}

} // verus!
