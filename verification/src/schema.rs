//! The record shape, its JSON schema, and schema-driven validation of
//! byte payloads with a bounded list of reported violations.

use vstd::prelude::*;
use vstd::string::*;

use crate::error::MyError;
use crate::jsontext::{json_quote, push_char, spec_dec, spec_json_string, u64_string};
use crate::jsonvalue::{
    compile_schema, compiled_doc, json_elems, json_field, json_is_array, json_text, json_uint,
    parse_json_slice, parse_json_str, schema_error_text, serde_error_text, spec_parse,
    spec_parse_str, spec_schema_ok, spec_violations, validation_error_strings, value_as_array,
    value_as_str, value_as_u64, value_get, CompiledSchema,
};

verus! {

/// The validated unit: a person with a name and a non-negative age.
#[derive(Debug)]
pub struct Person {
    /// Name of the person.
    pub name: String,
    /// The person's age.
    pub age: u32,
}

// ---------------------------------------------------------------------------
// Generated record names
// ---------------------------------------------------------------------------

/// A run of `'0'` characters.
pub open spec fn spec_zeros(n: nat) -> Seq<char>
    decreases n,
{
    if n == 0 {
        Seq::empty()
    } else {
        spec_zeros((n - 1) as nat) + seq!['0']
    }
}

/// A digit string left-padded with zeros to at least eight characters.
pub open spec fn spec_zero_pad8(s: Seq<char>) -> Seq<char> {
    if s.len() >= 8 {
        s
    } else {
        spec_zeros((8 - s.len()) as nat) + s
    }
}

/// The name a generated record carries: its index, zero-padded to eight
/// digits, behind a fixed prefix.
pub open spec fn spec_record_name(i: nat) -> Seq<char> {
    "name-"@ + spec_zero_pad8(spec_dec(i))
}

/// Renders the name of the generated record with the given index.
pub fn record_name(i: u32) -> (r: String)
    ensures
        r@ == spec_record_name(i as nat),
{
    let digits = u64_string(i as u64);
    let dlen = digits.as_str().unicode_len();
    let mut out = "name-".to_owned();
    proof {
        assert(out@ + spec_zeros(0) =~= out@);
    }
    let mut k: usize = dlen;
    while k < 8
        invariant
            dlen == spec_dec(i as nat).len(),
            dlen <= k,
            k == dlen || k <= 8,
            out@ == "name-"@ + spec_zeros((k - dlen) as nat),
        decreases 8 - k,
    {
        push_char(&mut out, '0');
        k += 1;
        proof {
            assert(out@ =~= "name-"@ + spec_zeros((k - dlen) as nat));
        }
    }
    let r = out.concat(digits.as_str());
    proof {
        if dlen < 8 {
            assert(k == 8);
            assert(r@ =~= "name-"@ + (spec_zeros((8 - dlen) as nat) + spec_dec(i as nat)));
        } else {
            assert(spec_zeros(0) =~= Seq::<char>::empty());
            assert(r@ =~= "name-"@ + spec_dec(i as nat));
        }
        assert(r@ =~= spec_record_name(i as nat));
    }
    r
}

/// Builds the given number of records, each named after its index and
/// aged by it.
pub fn make_records(count: u32) -> (r: Vec<Person>)
    ensures
        r@.len() == count,
        forall|j: int|
            0 <= j < count ==> (#[trigger] r@[j]).name@ == spec_record_name(j as nat) && r@[j].age
                as int == j,
{
    let mut v: Vec<Person> = Vec::new();
    let mut x: u32 = 0;
    while x < count
        invariant
            x <= count,
            v@.len() == x,
            forall|j: int|
                0 <= j < x ==> (#[trigger] v@[j]).name@ == spec_record_name(j as nat) && v@[j].age
                    as int == j,
        decreases count - x,
    {
        let name = record_name(x);
        v.push(Person { name, age: x });
        x += 1;
    }
    v
}

// ---------------------------------------------------------------------------
// Serializing records to JSON
// ---------------------------------------------------------------------------

/// The JSON object text for one record.
pub open spec fn spec_person_json(name: Seq<char>, age: nat) -> Seq<char> {
    "{\"name\":"@ + spec_json_string(name) + ",\"age\":"@ + spec_dec(age) + "}"@
}

/// Renders one record as a JSON object.
pub fn person_json(p: &Person) -> (r: String)
    ensures
        r@ == spec_person_json(p.name@, p.age as nat),
{
    let mut out = "{\"name\":".to_owned();
    let q = json_quote(p.name.as_str());
    out.append(q.as_str());
    out.append(",\"age\":");
    let d = u64_string(p.age as u64);
    out.append(d.as_str());
    out.append("}");
    proof {
        assert(out@ =~= spec_person_json(p.name@, p.age as nat));
    }
    out
}

/// The comma-separated record objects inside a JSON array of records.
pub open spec fn spec_records_items(rs: Seq<Person>) -> Seq<char>
    decreases rs.len(),
{
    if rs.len() == 0 {
        Seq::empty()
    } else if rs.len() == 1 {
        spec_person_json(rs[0].name@, rs[0].age as nat)
    } else {
        spec_records_items(rs.drop_last()) + seq![','] + spec_person_json(
            rs.last().name@,
            rs.last().age as nat,
        )
    }
}

/// The JSON array text for a sequence of records.
pub open spec fn spec_records_json(rs: Seq<Person>) -> Seq<char> {
    seq!['['] + spec_records_items(rs) + seq![']']
}

/// Renders a list of records as a JSON array.
pub fn records_json(rs: &Vec<Person>) -> (r: String)
    ensures
        r@ == spec_records_json(rs@),
{
    let mut out = "[".to_owned();
    proof {
        reveal_strlit("[");
        assert(out@ =~= seq!['['] + spec_records_items(rs@.take(0)));
    }
    let n = rs.len();
    let mut i: usize = 0;
    while i < n
        invariant
            n == rs@.len(),
            i <= n,
            out@ == seq!['['] + spec_records_items(rs@.take(i as int)),
        decreases n - i,
    {
        if i > 0 {
            push_char(&mut out, ',');
        }
        let pj = person_json(&rs[i]);
        out.append(pj.as_str());
        proof {
            assert(rs@.take(i + 1).drop_last() =~= rs@.take(i as int));
            assert(rs@.take(i + 1).last() == rs@[i as int]);
            assert(out@ =~= seq!['['] + spec_records_items(rs@.take(i + 1)));
        }
        i += 1;
    }
    push_char(&mut out, ']');
    proof {
        assert(rs@.take(n as int) =~= rs@);
        assert(out@ =~= spec_records_json(rs@));
    }
    out
}

// ---------------------------------------------------------------------------
// The schema for records and lists of records
// ---------------------------------------------------------------------------

/// The schema document describing one record: an object with a required
/// string name and a required unsigned 32-bit integer age.
pub open spec fn spec_person_schema() -> Seq<char> {
    "{\"title\":\"Person\",\"type\":\"object\",\"required\":[\"age\",\"name\"],\"properties\":{\"age\":{\"type\":\"integer\",\"minimum\":0,\"maximum\":4294967295},\"name\":{\"type\":\"string\"}}}"@
}

fn person_schema_str() -> (r: &'static str)
    ensures
        r@ == spec_person_schema(),
{
    "{\"title\":\"Person\",\"type\":\"object\",\"required\":[\"age\",\"name\"],\"properties\":{\"age\":{\"type\":\"integer\",\"minimum\":0,\"maximum\":4294967295},\"name\":{\"type\":\"string\"}}}"
}

/// The schema document describing an ordered list of records: the record
/// schema wrapped, unchanged, in an array schema with no length bound.
pub open spec fn spec_person_list_schema() -> Seq<char> {
    "{\"title\":\"Array_of_Person\",\"type\":\"array\",\"items\":"@ + spec_person_schema() + "}"@
}

/// Returns the schema text for one record.
pub fn schema_person_string() -> (r: Result<String, MyError>)
    ensures
        r matches Ok(s) && s@ == spec_person_schema(),
{
    Ok(person_schema_str().to_owned())
}

/// Returns the schema text for an ordered list of records: the record
/// schema wrapped in an array schema.
pub fn schema_person_list_string() -> (r: Result<String, MyError>)
    ensures
        r matches Ok(s) && s@ == spec_person_list_schema(),
{
    let mut out = "{\"title\":\"Array_of_Person\",\"type\":\"array\",\"items\":".to_owned();
    out.append(person_schema_str());
    out.append("}");
    proof {
        assert(out@ =~= spec_person_list_schema());
    }
    Ok(out)
}

/// The document the pinned record-list schema text parses to.
pub open spec fn list_schema_doc() -> Option<serde_json::Value> {
    spec_parse_str(spec_person_list_schema())
}

/// Whether the pinned record-list schema text parses and compiles.
pub open spec fn list_schema_compiles() -> bool {
    list_schema_doc() matches Some(sd) && spec_schema_ok(sd)
}

/// The violations of a payload document against the record-list schema.
pub open spec fn list_violations(d: serde_json::Value) -> Seq<String> {
    match list_schema_doc() {
        Some(sd) => spec_violations(sd, d),
        None => Seq::empty(),
    }
}

// ---------------------------------------------------------------------------
// Validation with a bounded error list
// ---------------------------------------------------------------------------

/// The reported violations: all of them when no more than `limit` were
/// found, else exactly the first `limit`, in discovery order.
pub open spec fn bounded_error_list(errors: Seq<String>, limit: nat) -> Seq<String> {
    if errors.len() <= limit {
        errors
    } else {
        errors.take(limit as int)
    }
}

/// The reported error list always has min(E, L) entries for E found
/// violations under limit L, and keeps the first violations in discovery
/// order.
pub proof fn lemma_error_cap(errors: Seq<String>, limit: nat)
    ensures
        bounded_error_list(errors, limit).len() == vstd::math::min(
            errors.len() as int,
            limit as int,
        ),
        forall|i: int|
            0 <= i < bounded_error_list(errors, limit).len() ==> bounded_error_list(
                errors,
                limit,
            )[i] == errors[i],
{
}

/// With the limit at zero, a violating payload keeps an empty error list;
/// the outcome is still a failure, so failure stays distinguishable from
/// success by the outcome branch, not by the list alone.
pub proof fn lemma_error_cap_zero(errors: Seq<String>)
    requires
        errors.len() > 0,
    ensures
        bounded_error_list(errors, 0).len() == 0,
{
}

/// Decides the outcome of a validation run from the violations the
/// matcher found: no violations returns the parsed value unchanged, any
/// violation is a failure carrying the bounded error list.
pub fn classify_validation(
    data: serde_json::Value,
    errors: Vec<String>,
    error_limit: usize,
) -> (r: Result<serde_json::Value, MyError>)
    ensures
        errors@.len() == 0 ==> r == Ok::<serde_json::Value, MyError>(data),
        errors@.len() > 0 ==> (r matches Err(e) && e matches MyError::JsonValidation(l) && l@
            == bounded_error_list(errors@, error_limit as nat)),
{
    let ghost orig: Seq<String> = errors@;
    if errors.is_empty() {
        Ok(data)
    } else {
        let mut kept = errors;
        kept.truncate(error_limit);
        proof {
            assert(kept@ =~= bounded_error_list(orig, error_limit as nat));
        }
        Err(MyError::JsonValidation(kept))
    }
}

/// Compiles a schema text into its executable form, once; the result can
/// then be matched against any number of payloads. Succeeds if and only
/// if the text parses as JSON and the document is a valid schema: a text
/// that is not JSON is a parse error, a JSON document that is not a
/// valid schema is a schema error.
pub fn compile(schema: &str) -> (r: Result<CompiledSchema, MyError>)
    ensures
        r is Ok <==> (spec_parse_str(schema@) matches Some(sd) && spec_schema_ok(sd)),
        r matches Ok(c) ==> spec_parse_str(schema@) == Some(compiled_doc(c)),
        r matches Err(e) ==> (e is Serde <==> spec_parse_str(schema@) is None),
        r matches Err(e) ==> (e is ValidationError <==> (spec_parse_str(schema@) matches Some(sd)
            && !spec_schema_ok(sd))),
{
    let schema_value = match parse_json_str(schema) {
        Ok(v) => v,
        Err(e) => {
            return Err(MyError::Serde(serde_error_text(&e)));
        },
    };
    match compile_schema(&schema_value) {
        Ok(c) => Ok(c),
        Err(e) => Err(MyError::ValidationError(schema_error_text(&e))),
    }
}

/// Validates a JSON payload against a compiled schema. Succeeds if and
/// only if the payload parses and the parsed document has no violations,
/// and then returns exactly the parsed document. A payload that fails to
/// parse is a parse error, reported before any matching; a parsed
/// payload that breaks the schema is a validation failure carrying
/// exactly the first min(E, `error_limit`) of its E violation
/// descriptions, in discovery order.
pub fn validate_compiled(compiled: &CompiledSchema, data: &[u8], error_limit: usize) -> (r: Result<
    serde_json::Value,
    MyError,
>)
    ensures
        r is Ok <==> (spec_parse(data@) matches Some(d) && spec_violations(
            compiled_doc(*compiled),
            d,
        ).len() == 0),
        r matches Ok(v) ==> spec_parse(data@) == Some(v),
        r matches Err(e) ==> (e is Serde <==> spec_parse(data@) is None),
        r matches Err(e) ==> (e is JsonValidation <==> (spec_parse(data@) matches Some(d)
            && spec_violations(compiled_doc(*compiled), d).len() > 0)),
        r matches Err(e) ==> (e matches MyError::JsonValidation(l) ==> (spec_parse(data@)
            matches Some(d) && l@ == bounded_error_list(
            spec_violations(compiled_doc(*compiled), d),
            error_limit as nat,
        ))),
{
    let data_value = match parse_json_slice(data) {
        Ok(v) => v,
        Err(e) => {
            return Err(MyError::Serde(serde_error_text(&e)));
        },
    };
    let errors = validation_error_strings(compiled, &data_value);
    classify_validation(data_value, errors, error_limit)
}

/// Validates a JSON payload against a schema given as text: the schema is
/// parsed and compiled, then the payload is matched against it. Succeeds
/// if and only if the schema compiles, the payload parses, and the
/// parsed payload has no violations; each error class comes exactly from
/// its own cause, and a validation failure carries exactly the first
/// min(E, `error_limit`) violation descriptions, in discovery order.
pub fn validate(schema: &str, data: &[u8], error_limit: usize) -> (r: Result<
    serde_json::Value,
    MyError,
>)
    ensures
        r is Ok <==> (spec_parse_str(schema@) matches Some(sd) && spec_schema_ok(sd) && (
        spec_parse(data@) matches Some(d) && spec_violations(sd, d).len() == 0)),
        r matches Ok(v) ==> spec_parse(data@) == Some(v),
        r matches Err(e) ==> (e is ValidationError <==> (spec_parse_str(schema@) matches Some(sd)
            && !spec_schema_ok(sd))),
        r matches Err(e) ==> (e is Serde <==> (spec_parse_str(schema@) is None || (spec_parse_str(
            schema@,
        ) matches Some(sd) && spec_schema_ok(sd) && spec_parse(data@) is None))),
        r matches Err(e) ==> (e is JsonValidation <==> (spec_parse_str(schema@) matches Some(sd)
            && spec_schema_ok(sd) && (spec_parse(data@) matches Some(d) && spec_violations(
            sd,
            d,
        ).len() > 0))),
        r matches Err(e) ==> (e matches MyError::JsonValidation(l) ==> (spec_parse_str(schema@)
            matches Some(sd) && (spec_parse(data@) matches Some(d) && l@ == bounded_error_list(
            spec_violations(sd, d),
            error_limit as nat,
        )))),
{
    let compiled = match compile(schema) {
        Ok(c) => c,
        Err(e) => {
            return Err(e);
        },
    };
    validate_compiled(&compiled, data, error_limit)
}

// ---------------------------------------------------------------------------
// Reading validated values back as records
// ---------------------------------------------------------------------------

/// The name characters and age number a record-shaped JSON object holds.
pub open spec fn person_fields(v: serde_json::Value) -> Option<(Seq<char>, u64)> {
    match (json_field(v, "name"@), json_field(v, "age"@)) {
        (Some(n), Some(a)) => match (json_text(n), json_uint(a)) {
            (Some(t), Some(u)) => Some((t, u)),
            _ => None,
        },
        _ => None,
    }
}

/// Whether a JSON value is an object holding a record: a string name and
/// an age that fits an unsigned 32-bit integer.
pub open spec fn is_person_value(v: serde_json::Value) -> bool {
    person_fields(v) matches Some(f) && f.1 <= u32::MAX
}

/// Reads one record out of a record-shaped JSON object.
pub fn person_from_value(v: &serde_json::Value) -> (r: Option<Person>)
    ensures
        r matches Some(p) ==> is_person_value(*v) && person_fields(*v) == Some(
            (p.name@, p.age as u64),
        ),
        r is None ==> !is_person_value(*v),
{
    let name_v = match value_get(v, "name") {
        Some(n) => n,
        None => {
            return None;
        },
    };
    let age_v = match value_get(v, "age") {
        Some(a) => a,
        None => {
            return None;
        },
    };
    let name = match value_as_str(name_v) {
        Some(s) => s,
        None => {
            return None;
        },
    };
    let age = match value_as_u64(age_v) {
        Some(u) => u,
        None => {
            return None;
        },
    };
    if age <= u32::MAX as u64 {
        Some(Person { name: name.to_owned(), age: age as u32 })
    } else {
        None
    }
}

/// Reads a whole array of records out of a validated JSON value: one
/// record per array element, in order. `None` when the value is not an
/// array or some element is not record-shaped.
pub fn persons_from_value(v: &serde_json::Value) -> (r: Option<Vec<Person>>)
    ensures
        r matches Some(ps) ==> json_is_array(*v) && ps@.len() == json_elems(*v).len() && (forall|
            i: int,
        |
            0 <= i < ps@.len() ==> is_person_value(#[trigger] json_elems(*v)[i]) && person_fields(
                json_elems(*v)[i],
            ) == Some((ps@[i].name@, ps@[i].age as u64))),
        r is None ==> !json_is_array(*v) || (exists|i: int|
            0 <= i < json_elems(*v).len() && !is_person_value(#[trigger] json_elems(*v)[i])),
{
    let arr = match value_as_array(v) {
        Some(a) => a,
        None => {
            return None;
        },
    };
    let n = arr.len();
    let mut out: Vec<Person> = Vec::new();
    let mut i: usize = 0;
    while i < n
        invariant
            json_is_array(*v),
            arr@ == json_elems(*v),
            n == arr@.len(),
            i <= n,
            out@.len() == i,
            forall|j: int|
                0 <= j < i ==> is_person_value(#[trigger] json_elems(*v)[j]) && person_fields(
                    json_elems(*v)[j],
                ) == Some((out@[j].name@, out@[j].age as u64)),
        decreases n - i,
    {
        match person_from_value(&arr[i]) {
            Some(p) => {
                out.push(p);
            },
            None => {
                proof {
                    assert(!is_person_value(json_elems(*v)[i as int]));
                }
                return None;
            },
        }
        i += 1;
    }
    Some(out)
}

/// Counts the elements of a parsed JSON value: the array's length when it
/// is an array, zero otherwise.
pub fn array_length(v: &serde_json::Value) -> (r: usize)
    ensures
        json_is_array(*v) ==> r == json_elems(*v).len(),
        !json_is_array(*v) ==> r == 0,
{
    match value_as_array(v) {
        Some(a) => a.len(),
        None => 0,
    }
}

/// Whether every element of an array document reads back as a record.
pub open spec fn persons_readable(d: serde_json::Value) -> bool {
    json_is_array(d) && (forall|i: int|
        0 <= i < json_elems(d).len() ==> is_person_value(#[trigger] json_elems(d)[i]))
}

/// Validates a payload against the record-list schema and converts the
/// validated value into typed records. Succeeds if and only if the
/// payload parses, has no violations, and every element reads back as a
/// record; the records are then exactly the array's elements, in order.
pub fn validate_records(data: &[u8], error_limit: usize) -> (r: Result<Vec<Person>, MyError>)
    ensures
        r is Ok <==> (list_schema_compiles() && (spec_parse(data@) matches Some(d)
            && list_violations(d).len() == 0 && persons_readable(d))),
        r matches Ok(ps) ==> (spec_parse(data@) matches Some(d) && ps@.len() == json_elems(
            d,
        ).len() && (forall|i: int|
            0 <= i < ps@.len() ==> person_fields(#[trigger] json_elems(d)[i]) == Some(
                (ps@[i].name@, ps@[i].age as u64),
            ))),
        r matches Err(e) ==> (e is ValidationError <==> (list_schema_doc() matches Some(sd)
            && !spec_schema_ok(sd))),
        r matches Err(e) ==> (e is JsonValidation <==> (list_schema_compiles() && (spec_parse(
            data@,
        ) matches Some(d) && list_violations(d).len() > 0))),
        r matches Err(e) ==> (e matches MyError::JsonValidation(l) ==> (spec_parse(data@)
            matches Some(d) && l@ == bounded_error_list(list_violations(d), error_limit as nat))),
        r matches Err(e) ==> (e is Serde <==> (list_schema_doc() is None || (list_schema_compiles()
            && spec_parse(data@) is None) || (list_schema_compiles() && (spec_parse(data@)
            matches Some(d) && list_violations(d).len() == 0 && !persons_readable(d))))),
{
    let schema = match schema_person_list_string() {
        Ok(s) => s,
        Err(e) => {
            return Err(e);
        },
    };
    let value = match validate(schema.as_str(), data, error_limit) {
        Ok(v) => v,
        Err(e) => {
            return Err(e);
        },
    };
    match persons_from_value(&value) {
        Some(ps) => Ok(ps),
        None => Err(MyError::Serde("JSON payload does not hold an array of records".to_owned())),
    }
}

} // verus!
