use largejson::error::MyError;
use largejson::jsontext::{json_quote, u64_string};
use largejson::schema::validate;
use largejson::webservice::{
    accumulate_chunks, classify_error, errors_body, rejection_reply, reply_json, review_payload,
    RejectionClass, REVIEW_ERROR_LIMIT,
};

#[test]
fn decimal_rendering_is_exact() {
    assert_eq!(u64_string(0), "0");
    assert_eq!(u64_string(7), "7");
    assert_eq!(u64_string(42), "42");
    assert_eq!(u64_string(1234567890), "1234567890");
    assert_eq!(u64_string(u64::MAX), "18446744073709551615");
}

#[test]
fn json_quoting_escapes_what_it_must() {
    assert_eq!(json_quote("plain"), "\"plain\"");
    assert_eq!(json_quote(""), "\"\"");
    assert_eq!(json_quote("a\"b"), "\"a\\\"b\"");
    assert_eq!(json_quote("a\\b"), "\"a\\\\b\"");
    assert_eq!(json_quote("a\nb"), "\"a\\u000ab\"");
    assert_eq!(json_quote("\u{1}"), "\"\\u0001\"");
    assert_eq!(json_quote("snowman \u{2603}"), "\"snowman \u{2603}\"");
    let parsed: serde_json::Value =
        serde_json::from_str(&json_quote("tab\tquote\"end")).expect("valid JSON literal");
    assert_eq!(parsed, serde_json::Value::String("tab\tquote\"end".to_string()));
}

#[test]
fn chunks_accumulate_in_arrival_order() {
    let chunks: Vec<Vec<u8>> = vec![b"ab".to_vec(), Vec::new(), b"cde".to_vec(), b"f".to_vec()];
    assert_eq!(accumulate_chunks(&chunks), b"abcdef".to_vec());
    assert_eq!(accumulate_chunks(&Vec::new()), Vec::<u8>::new());
}

#[test]
fn review_accepts_one_record_and_reports_counts() {
    let body: &[u8] = br#"[{"name":"name-00000000","age":0}]"#;
    let rep = review_payload(body).expect("validated");
    assert!(rep.validate);
    assert_eq!(rep.size, body.len());
    assert_eq!(rep.length, 1);
    let expected = format!("{{\"size\":{},\"length\":1,\"validate\":true}}", body.len());
    assert_eq!(reply_json(&rep), expected);
}

#[test]
fn review_rejects_a_record_missing_its_age() {
    let body: &[u8] = br#"[{"name":"x"}]"#;
    let errs = match review_payload(body) {
        Err(MyError::JsonValidation(errs)) => errs,
        other => panic!("expected a validation failure, got {other:?}"),
    };
    assert!(!errs.is_empty());
    assert!(errs.len() <= REVIEW_ERROR_LIMIT);
    assert!(errs.iter().any(|e| e.contains("age")));
}

#[test]
fn missing_age_with_small_limit_keeps_at_most_two_errors() {
    let schema = largejson::schema::schema_person_list_string().expect("got schema");
    let errs = match validate(&schema, br#"[{"name":"x"}]"#, 2) {
        Err(MyError::JsonValidation(errs)) => errs,
        other => panic!("expected a validation failure, got {other:?}"),
    };
    assert!(!errs.is_empty());
    assert!(errs.len() <= 2);
    assert!(errs.iter().any(|e| e.contains("age")));
    let (status, body) = rejection_reply(RejectionClass::Validation(errs));
    assert_eq!(status, 400);
    assert!(body.starts_with("{\"status:\":\"validation failed\",\"errors\":["));
    assert!(body.contains("age"));
}

#[test]
fn errors_classify_to_their_rejection_class() {
    let validation = MyError::JsonValidation(vec!["bad field".to_string()]);
    match classify_error(&validation) {
        RejectionClass::Validation(errs) => assert_eq!(errs, vec!["bad field".to_string()]),
        other => panic!("expected the validation class, got {other:?}"),
    }
    assert!(matches!(classify_error(&MyError::Cancelled), RejectionClass::Internal));
    assert!(matches!(
        classify_error(&MyError::Io("lost stream".to_string())),
        RejectionClass::Internal
    ));
    assert!(matches!(
        classify_error(&MyError::Serde("bad json".to_string())),
        RejectionClass::Internal
    ));
}

#[test]
fn rejection_replies_carry_the_right_status_and_body() {
    let (status, body) = rejection_reply(RejectionClass::NotFound);
    assert_eq!((status, body.as_str()), (404, "\"Not Found\""));
    let (status, body) = rejection_reply(RejectionClass::PayloadTooLarge);
    assert_eq!((status, body.as_str()), (400, "\"Payload too large\""));
    let (status, body) = rejection_reply(RejectionClass::Internal);
    assert_eq!((status, body.as_str()), (500, "\"Internal Server Error\""));
    let (status, body) = rejection_reply(RejectionClass::Validation(Vec::new()));
    assert_eq!(status, 400);
    assert_eq!(body, "{\"status:\":\"validation failed\",\"errors\":[]}");
}

#[test]
fn error_bodies_quote_each_entry() {
    let errs = vec!["first \"problem\"".to_string(), "second".to_string()];
    let body = errors_body(&errs);
    assert_eq!(
        body,
        "{\"status:\":\"validation failed\",\"errors\":[\"first \\\"problem\\\"\",\"second\"]}"
    );
    let parsed: serde_json::Value = serde_json::from_str(&body).expect("valid JSON");
    assert_eq!(parsed["errors"][1], serde_json::Value::String("second".to_string()));
}

#[test]
fn non_array_payload_is_rejected_by_the_schema() {
    let body: &[u8] = br#"{"name":"name-00000000","age":0}"#;
    match review_payload(body) {
        Err(MyError::JsonValidation(errs)) => assert!(!errs.is_empty()),
        other => panic!("expected a validation failure, got {other:?}"),
    }
}
