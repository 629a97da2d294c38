//! Trusted boundary around the JSON parser (`serde_json`) and the JSON
//! schema compiler and matcher (`jsonschema`). Everything the verified
//! logic learns about a parsed document goes through the wrappers here;
//! the contents of an array value are named so that callers can reason
//! about element counts and per-element fields.

use vstd::prelude::*;

verus! {

#[verifier::external_type_specification]
#[verifier::external_body]
pub struct ExValue(serde_json::Value);

#[verifier::external_type_specification]
#[verifier::external_body]
pub struct ExSerdeError(serde_json::Error);

/// The compiled, executable form of a schema, ready for repeated matching.
/// Holds the outside matcher; Verus refuses to declare that type itself
/// because of the generics on it, so the whole struct is opaque.
#[verifier::external_body]
pub struct CompiledSchema {
    inner: jsonschema::Validator,
}

#[verifier::external_type_specification]
#[verifier::external_body]
pub struct ExValidationError<'a>(jsonschema::ValidationError<'a>);

/// The document a JSON text parses to, `None` when the text is not valid
/// JSON. Parsing is a function of the text alone.
pub uninterp spec fn spec_parse_str(text: Seq<char>) -> Option<serde_json::Value>;

/// The document a byte payload parses to, `None` when the bytes are not
/// valid JSON. Parsing is a function of the bytes alone.
pub uninterp spec fn spec_parse(data: Seq<u8>) -> Option<serde_json::Value>;

/// Whether a JSON document is a valid schema document, that is, whether
/// the schema compiler accepts it.
pub uninterp spec fn spec_schema_ok(doc: serde_json::Value) -> bool;

/// The schema document a compiled schema was compiled from.
pub uninterp spec fn compiled_doc(c: CompiledSchema) -> serde_json::Value;

/// The formatted violation descriptions of an instance against a schema
/// document, in the matcher's discovery order; empty exactly when the
/// instance conforms to the schema. Matching is a function of the schema
/// document and the instance alone.
pub uninterp spec fn spec_violations(
    doc: serde_json::Value,
    instance: serde_json::Value,
) -> Seq<String>;

/// Whether a parsed JSON value is an array.
pub uninterp spec fn json_is_array(v: serde_json::Value) -> bool;

/// The elements a JSON array value holds, in order.
pub uninterp spec fn json_elems(v: serde_json::Value) -> Seq<serde_json::Value>;

/// The value under a key of a JSON object, `None` when the value is not an
/// object or has no such key.
pub uninterp spec fn json_field(v: serde_json::Value, key: Seq<char>) -> Option<
    serde_json::Value,
>;

/// The characters of a JSON string value, `None` when the value is not a
/// string.
pub uninterp spec fn json_text(v: serde_json::Value) -> Option<Seq<char>>;

/// The value of a JSON number that is an unsigned 64-bit integer, `None`
/// otherwise or when the value is not a number.
pub uninterp spec fn json_uint(v: serde_json::Value) -> Option<u64>;

/// Relies on `serde_json::from_str`: parses a text as one JSON document,
/// returning the parser's error when it is not valid JSON. Deterministic
/// in the text.
#[verifier::external_body]
pub fn parse_json_str(text: &str) -> (r: Result<serde_json::Value, serde_json::Error>)
    ensures
        r matches Ok(v) ==> spec_parse_str(text@) == Some(v),
        r is Err ==> spec_parse_str(text@) is None,
{
    serde_json::from_str(text)
}

/// Relies on `serde_json::from_slice`: parses bytes as one JSON document,
/// returning the parser's error when they are not valid JSON.
/// Deterministic in the bytes.
#[verifier::external_body]
pub fn parse_json_slice(data: &[u8]) -> (r: Result<serde_json::Value, serde_json::Error>)
    ensures
        r matches Ok(v) ==> spec_parse(data@) == Some(v),
        r is Err ==> spec_parse(data@) is None,
{
    serde_json::from_slice(data)
}

/// Relies on `serde_json::Error`'s `Display` impl: the parser's diagnostic
/// message.
#[verifier::external_body]
pub fn serde_error_text(e: &serde_json::Error) -> String {
    format!("{e}")
}

/// Relies on `jsonschema::validator_for`: compiles a schema document into
/// a reusable matcher, failing exactly on documents that are not valid
/// schemas. Deterministic in the document (no reference resolving is
/// enabled, so no outside state is consulted).
#[verifier::external_body]
pub fn compile_schema(schema: &serde_json::Value) -> (r: Result<
    CompiledSchema,
    jsonschema::ValidationError<'static>,
>)
    ensures
        r is Ok <==> spec_schema_ok(*schema),
        r matches Ok(c) ==> compiled_doc(c) == *schema,
{
    match jsonschema::validator_for(schema) {
        Ok(inner) => Ok(CompiledSchema { inner }),
        Err(e) => Err(e),
    }
}

/// Relies on `jsonschema::ValidationError`'s `Display` impl: the schema
/// compiler's diagnostic message.
#[verifier::external_body]
pub fn schema_error_text(e: &jsonschema::ValidationError<'_>) -> String {
    format!("{e}")
}

/// Relies on `jsonschema::Validator::iter_errors`: yields one entry per
/// violation of the schema, in the order the matcher finds them, and none
/// exactly when the instance conforms; the order is stable for identical
/// schema and instance. Each entry carries the offending fragment, the
/// violation kind, and the paths into instance and schema.
#[verifier::external_body]
pub fn validation_error_strings(
    schema: &CompiledSchema,
    instance: &serde_json::Value,
) -> (r: Vec<String>)
    ensures
        r@ == spec_violations(compiled_doc(*schema), *instance),
{
    schema.inner.iter_errors(instance).map(
        |e|
            format!(
                "Error: instance: {:?}, kind: {:?}, instance_path:: {}, schema_path: {}",
                e.instance(),
                e.kind(),
                e.instance_path(),
                e.schema_path(),
            ),
    ).collect()
}

/// Relies on `serde_json::Value::as_array`: `Some` exactly when the value
/// is a JSON array, with its elements in order.
#[verifier::external_body]
pub fn value_as_array(v: &serde_json::Value) -> (r: Option<&Vec<serde_json::Value>>)
    ensures
        r matches Some(a) ==> json_is_array(*v) && a@ == json_elems(*v),
        r is None ==> !json_is_array(*v),
{
    v.as_array()
}

/// Relies on `serde_json::Value::get`: looks a key up in a JSON object.
#[verifier::external_body]
pub fn value_get<'a>(v: &'a serde_json::Value, key: &str) -> (r: Option<&'a serde_json::Value>)
    ensures
        r matches Some(f) ==> json_field(*v, key@) == Some(*f),
        r is None ==> json_field(*v, key@) is None,
{
    v.get(key)
}

/// Relies on `serde_json::Value::as_str`: `Some` exactly when the value is
/// a JSON string, with its characters.
#[verifier::external_body]
pub fn value_as_str<'a>(v: &'a serde_json::Value) -> (r: Option<&'a str>)
    ensures
        r matches Some(s) ==> json_text(*v) == Some(s@),
        r is None ==> json_text(*v) is None,
{
    v.as_str()
}

/// Relies on `serde_json::Value::as_u64`: `Some` exactly when the value is
/// a JSON number representable as an unsigned 64-bit integer.
#[verifier::external_body]
pub fn value_as_u64(v: &serde_json::Value) -> (r: Option<u64>)
    ensures
        r == json_uint(*v),
{
    v.as_u64()
}

} // verus!
