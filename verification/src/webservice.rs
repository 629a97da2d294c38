//! The ingestion side of the web service: accumulating a chunked request
//! body, validating it, and building the exact texts of the replies the
//! service sends back.

use vstd::prelude::*;
use vstd::string::*;

use crate::error::MyError;
use crate::jsontext::{json_quote, push_char, spec_dec, spec_json_string, u64_string};
use crate::jsonvalue::{json_elems, json_is_array, spec_parse, spec_schema_ok};
use crate::schema::{
    array_length, bounded_error_list, list_schema_compiles, list_schema_doc, list_violations,
    schema_person_list_string, validate,
};

verus! {

/// Configuration for the service's route prefix.
#[derive(Debug, Clone)]
pub struct WebServicePrefixConfig {
    /// Name segment of the route prefix.
    pub name: String,
    /// Version segment of the route prefix.
    pub version: String,
}

/// Configuration of the web service: the two-segment route prefix under
/// which its routes are served.
#[derive(Debug, Clone)]
pub struct WebServiceConfig {
    /// Prefix of the served API.
    pub prefix: WebServicePrefixConfig,
}

/// The whole configuration for the service; encloses [`WebServiceConfig`].
#[derive(Debug)]
pub struct MyConfig {
    /// Config of the web service.
    pub webservice: WebServiceConfig,
}

/// The reply sent to the client when a payload validates successfully.
#[derive(Debug)]
pub struct ValidationReply {
    /// Bytes received in the request body.
    pub size: usize,
    /// Number of records received: the element count when the payload is
    /// an array, zero otherwise.
    pub length: usize,
    /// Whether validation succeeded.
    pub validate: bool,
}

/// The bound on reported violations per request body.
pub const REVIEW_ERROR_LIMIT: usize = 20;

// ---------------------------------------------------------------------------
// Accumulating the request body
// ---------------------------------------------------------------------------

/// The views of a sequence of byte chunks.
pub open spec fn chunk_views(chunks: Seq<Vec<u8>>) -> Seq<Seq<u8>> {
    chunks.map_values(|c: Vec<u8>| c@)
}

/// All chunks laid end to end, in arrival order.
pub open spec fn spec_concat_chunks(chunks: Seq<Seq<u8>>) -> Seq<u8>
    decreases chunks.len(),
{
    if chunks.len() == 0 {
        Seq::empty()
    } else {
        spec_concat_chunks(chunks.drop_last()) + chunks.last()
    }
}

/// Accumulates the chunks of a request body into one buffer, keeping the
/// bytes of every chunk in arrival order.
pub fn accumulate_chunks(chunks: &Vec<Vec<u8>>) -> (r: Vec<u8>)
    ensures
        r@ == spec_concat_chunks(chunk_views(chunks@)),
{
    let mut buf: Vec<u8> = Vec::new();
    let n = chunks.len();
    let mut i: usize = 0;
    proof {
        assert(chunk_views(chunks@.take(0)) =~= Seq::<Seq<u8>>::empty());
    }
    while i < n
        invariant
            n == chunks@.len(),
            i <= n,
            buf@ == spec_concat_chunks(chunk_views(chunks@.take(i as int))),
        decreases n - i,
    {
        let chunk = &chunks[i];
        let m = chunk.len();
        let mut j: usize = 0;
        proof {
            assert(buf@ + chunk@.take(0) =~= buf@);
        }
        let ghost entry = buf@;
        while j < m
            invariant
                m == chunk@.len(),
                j <= m,
                buf@ == entry + chunk@.take(j as int),
            decreases m - j,
        {
            buf.push(chunk[j]);
            proof {
                assert(buf@ =~= entry + chunk@.take(j + 1));
            }
            j += 1;
        }
        proof {
            assert(chunk@.take(m as int) =~= chunk@);
            assert(chunk_views(chunks@.take(i + 1)).drop_last() =~= chunk_views(
                chunks@.take(i as int),
            ));
            assert(chunk_views(chunks@.take(i + 1)).last() == chunks@[i as int]@);
            assert(buf@ =~= spec_concat_chunks(chunk_views(chunks@.take(i + 1))));
        }
        i += 1;
    }
    proof {
        assert(chunks@.take(n as int) =~= chunks@);
    }
    buf
}

// ---------------------------------------------------------------------------
// Reviewing a payload
// ---------------------------------------------------------------------------

/// Builds the success reply for a validated payload: the bytes received,
/// the element count of the validated array (zero for a non-array), and a
/// success flag that is always set.
pub fn review_reply(size: usize, value: &serde_json::Value) -> (r: ValidationReply)
    ensures
        r.size == size,
        r.validate,
        json_is_array(*value) ==> r.length == json_elems(*value).len(),
        !json_is_array(*value) ==> r.length == 0,
{
    ValidationReply { size, length: array_length(value), validate: true }
}

/// Validates an accumulated request body against the record-list schema
/// and builds the reply. Succeeds if and only if the body parses and has
/// no violations; the reply then carries the byte count, the element
/// count of the parsed array (zero for a non-array), and the success
/// flag. On failure the error, a validation failure carrying exactly the
/// first min(E, [`REVIEW_ERROR_LIMIT`]) of the E violation descriptions.
pub fn review_payload(data: &[u8]) -> (r: Result<ValidationReply, MyError>)
    ensures
        r is Ok <==> (list_schema_compiles() && (spec_parse(data@) matches Some(d)
            && list_violations(d).len() == 0)),
        r matches Ok(rep) ==> rep.size == data@.len() && rep.validate && (spec_parse(data@)
            matches Some(d) && (json_is_array(d) ==> rep.length == json_elems(d).len()) && (
        !json_is_array(d) ==> rep.length == 0)),
        r matches Err(e) ==> (e is JsonValidation <==> (list_schema_compiles() && (spec_parse(
            data@,
        ) matches Some(d) && list_violations(d).len() > 0))),
        r matches Err(e) ==> (e matches MyError::JsonValidation(l) ==> (spec_parse(data@)
            matches Some(d) && l@ == bounded_error_list(
            list_violations(d),
            REVIEW_ERROR_LIMIT as nat,
        ))),
        r matches Err(e) ==> (e is Serde <==> (list_schema_doc() is None || (list_schema_compiles()
            && spec_parse(data@) is None))),
        r matches Err(e) ==> (e is ValidationError <==> (list_schema_doc() matches Some(sd)
            && !spec_schema_ok(sd))),
{
    let schema = match schema_person_list_string() {
        Ok(s) => s,
        Err(e) => {
            return Err(e);
        },
    };
    match validate(schema.as_str(), data, REVIEW_ERROR_LIMIT) {
        Ok(value) => Ok(review_reply(data.len(), &value)),
        Err(e) => Err(e),
    }
}

// ---------------------------------------------------------------------------
// Reply texts
// ---------------------------------------------------------------------------

/// The JSON text of the success reply.
pub open spec fn spec_reply_json(size: nat, length: nat, ok: bool) -> Seq<char> {
    "{\"size\":"@ + spec_dec(size) + ",\"length\":"@ + spec_dec(length) + ",\"validate\":"@ + (
    if ok {
        "true"@
    } else {
        "false"@
    }) + "}"@
}

/// Renders the success reply as JSON.
pub fn reply_json(rep: &ValidationReply) -> (r: String)
    ensures
        r@ == spec_reply_json(rep.size as nat, rep.length as nat, rep.validate),
{
    let mut out = "{\"size\":".to_owned();
    let s = u64_string(rep.size as u64);
    out.append(s.as_str());
    out.append(",\"length\":");
    let l = u64_string(rep.length as u64);
    out.append(l.as_str());
    out.append(",\"validate\":");
    if rep.validate {
        out.append("true");
    } else {
        out.append("false");
    }
    out.append("}");
    proof {
        assert(out@ =~= spec_reply_json(rep.size as nat, rep.length as nat, rep.validate));
    }
    out
}

/// The comma-separated, quoted violation descriptions inside the failure
/// reply.
pub open spec fn spec_errors_items(errs: Seq<String>) -> Seq<char>
    decreases errs.len(),
{
    if errs.len() == 0 {
        Seq::empty()
    } else if errs.len() == 1 {
        spec_json_string(errs[0]@)
    } else {
        spec_errors_items(errs.drop_last()) + seq![','] + spec_json_string(errs.last()@)
    }
}

/// The JSON text of the failure reply: a status note and the bounded list
/// of violation descriptions.
pub open spec fn spec_errors_body(errs: Seq<String>) -> Seq<char> {
    "{\"status:\":\"validation failed\",\"errors\":["@ + spec_errors_items(errs) + "]}"@
}

/// Renders the failure reply for a list of violation descriptions.
pub fn errors_body(errs: &Vec<String>) -> (r: String)
    ensures
        r@ == spec_errors_body(errs@),
{
    let mut out = "{\"status:\":\"validation failed\",\"errors\":[".to_owned();
    proof {
        assert(out@ + spec_errors_items(errs@.take(0)) =~= out@);
    }
    let n = errs.len();
    let mut i: usize = 0;
    while i < n
        invariant
            n == errs@.len(),
            i <= n,
            out@ == "{\"status:\":\"validation failed\",\"errors\":["@ + spec_errors_items(
                errs@.take(i as int),
            ),
        decreases n - i,
    {
        if i > 0 {
            push_char(&mut out, ',');
        }
        let q = json_quote(errs[i].as_str());
        out.append(q.as_str());
        proof {
            assert(errs@.take(i + 1).drop_last() =~= errs@.take(i as int));
            assert(errs@.take(i + 1).last() == errs@[i as int]);
            assert(out@ =~= "{\"status:\":\"validation failed\",\"errors\":["@ + spec_errors_items(
                errs@.take(i + 1),
            ));
        }
        i += 1;
    }
    out.append("]}");
    proof {
        assert(errs@.take(n as int) =~= errs@);
        assert(out@ =~= spec_errors_body(errs@));
    }
    out
}

// ---------------------------------------------------------------------------
// Rejection replies
// ---------------------------------------------------------------------------

/// What went wrong with a request, as far as the reply is concerned.
#[derive(Debug)]
pub enum RejectionClass {
    /// The path did not match a served route.
    NotFound,
    /// The request body was larger than the service accepts.
    PayloadTooLarge,
    /// The payload broke the schema; carries the bounded violation list.
    Validation(Vec<String>),
    /// Any other fault while handling the request.
    Internal,
}

/// Sorts a library error into the rejection class its reply is built
/// from: a validation failure carries its error list over, everything
/// else is an internal fault. Transport-level causes (an unroutable
/// path, an oversized body) are classified by the caller, which alone
/// sees them.
pub fn classify_error(e: &MyError) -> (r: RejectionClass)
    ensures
        *e matches MyError::JsonValidation(l) ==> (r matches RejectionClass::Validation(errs)
            && errs.deep_view() == l.deep_view()),
        !(*e is JsonValidation) ==> r is Internal,
{
    match e {
        MyError::JsonValidation(errs) => RejectionClass::Validation(errs.clone()),
        _ => RejectionClass::Internal,
    }
}

/// Builds the status code and JSON body of the reply to a failed request.
pub fn rejection_reply(c: RejectionClass) -> (r: (u16, String))
    ensures
        c matches RejectionClass::NotFound ==> r.0 == 404 && r.1@ == spec_json_string(
            "Not Found"@,
        ),
        c matches RejectionClass::PayloadTooLarge ==> r.0 == 400 && r.1@ == spec_json_string(
            "Payload too large"@,
        ),
        c matches RejectionClass::Validation(errs) ==> r.0 == 400 && r.1@ == spec_errors_body(
            errs@,
        ),
        c matches RejectionClass::Internal ==> r.0 == 500 && r.1@ == spec_json_string(
            "Internal Server Error"@,
        ),
{
    match c {
        RejectionClass::NotFound => (404, json_quote("Not Found")),
        RejectionClass::PayloadTooLarge => (400, json_quote("Payload too large")),
        RejectionClass::Validation(errs) => (400, errors_body(&errs)),
        RejectionClass::Internal => (500, json_quote("Internal Server Error")),
    }
}

} // verus!
