use largejson::error::MyError;
use largejson::schema::{
    compile, make_records, person_from_value, persons_from_value, record_name, records_json,
    schema_person_list_string, schema_person_string, validate, validate_compiled, validate_records,
};

#[test]
fn validate_vec() {
    let schema = schema_person_list_string().expect("got schema");

    println!("my schema is {schema}");

    let error_limit = 2;

    let size = 220;

    let my_data_vec = make_records(size);
    let my_data_string = records_json(&my_data_vec);
    let my_data_bytes = my_data_string.as_bytes();
    let validated = validate(&schema, my_data_bytes, error_limit).expect("validated");

    let validated_typed = persons_from_value(&validated).expect("conversion to Explicit Type");
    assert!(validated_typed.len() == usize::try_from(size).unwrap());

    println!("There are {} records", validated_typed.len());
}

#[test]
fn valid_arrays_keep_their_length() {
    let schema = schema_person_list_string().expect("got schema");
    for n in [0u32, 1, 3, 17] {
        let records = make_records(n);
        let text = records_json(&records);
        let validated = validate(&schema, text.as_bytes(), 5).expect("validated");
        let typed = persons_from_value(&validated).expect("typed records");
        assert_eq!(typed.len(), n as usize);
    }
}

#[test]
fn generated_records_have_padded_names_and_indexed_ages() {
    let records = make_records(3);
    assert_eq!(records[0].name, "name-00000000");
    assert_eq!(records[1].name, "name-00000001");
    assert_eq!(records[2].name, "name-00000002");
    assert_eq!(records[0].age, 0);
    assert_eq!(records[2].age, 2);
    assert_eq!(record_name(123456789), "name-123456789");
    assert_eq!(record_name(99999999), "name-99999999");
}

#[test]
fn schemas_are_valid_json() {
    let person: serde_json::Value =
        serde_json::from_str(&schema_person_string().expect("person schema")).expect("parses");
    assert_eq!(person["title"], serde_json::Value::String("Person".to_string()));
    let list: serde_json::Value =
        serde_json::from_str(&schema_person_list_string().expect("list schema")).expect("parses");
    assert_eq!(list["type"], serde_json::Value::String("array".to_string()));
    assert_eq!(list["items"], person);
}

#[test]
fn error_list_is_truncated_to_the_limit_in_order() {
    let schema = schema_person_list_string().expect("got schema");
    let payload = br#"[{"name":1,"age":"x"},{"name":2},{"age":-5}]"#;

    let all = match validate(&schema, payload, 1000) {
        Err(MyError::JsonValidation(errs)) => errs,
        other => panic!("expected a validation failure, got {other:?}"),
    };
    assert!(all.len() > 2, "expected more than two violations, got {}", all.len());

    let capped = match validate(&schema, payload, 2) {
        Err(MyError::JsonValidation(errs)) => errs,
        other => panic!("expected a validation failure, got {other:?}"),
    };
    assert_eq!(capped.len(), 2);
    assert_eq!(capped[0], all[0]);
    assert_eq!(capped[1], all[1]);
}

#[test]
fn zero_error_limit_still_fails_with_empty_list() {
    let schema = schema_person_list_string().expect("got schema");
    let payload = br#"[{"name":1}]"#;
    match validate(&schema, payload, 0) {
        Err(MyError::JsonValidation(errs)) => assert!(errs.is_empty()),
        other => panic!("expected a validation failure, got {other:?}"),
    }
}

#[test]
fn round_trip_single_record_validates() {
    let records = make_records(1);
    let text = records_json(&records);
    let typed = validate_records(text.as_bytes(), 2).expect("round trip validated");
    assert_eq!(typed.len(), 1);
    assert_eq!(typed[0].name, "name-00000000");
    assert_eq!(typed[0].age, 0);
}

#[test]
fn unparseable_payload_is_a_parse_error() {
    let schema = schema_person_list_string().expect("got schema");
    match validate(&schema, b"this is not json", 5) {
        Err(MyError::Serde(msg)) => assert!(!msg.is_empty()),
        other => panic!("expected a parse error, got {other:?}"),
    }
}

#[test]
fn bad_schema_is_a_schema_error() {
    match validate("{\"type\":\"nonsense\"}", b"[]", 5) {
        Err(MyError::ValidationError(msg)) => assert!(!msg.is_empty()),
        other => panic!("expected a schema error, got {other:?}"),
    }
}

#[test]
fn a_compiled_schema_is_reusable_across_payloads() {
    let schema = schema_person_list_string().expect("got schema");
    let compiled = compile(&schema).expect("compiled");
    let good = records_json(&make_records(2));
    let v = validate_compiled(&compiled, good.as_bytes(), 5).expect("valid payload");
    assert!(persons_from_value(&v).is_some());
    match validate_compiled(&compiled, br#"[{"name":"x"}]"#, 5) {
        Err(MyError::JsonValidation(errs)) => assert!(!errs.is_empty()),
        other => panic!("expected a validation failure, got {other:?}"),
    }
    match validate_compiled(&compiled, b"not json", 5) {
        Err(MyError::Serde(_)) => {}
        other => panic!("expected a parse error, got {other:?}"),
    }
    match compile("]not a schema[") {
        Err(MyError::Serde(_)) => {}
        Err(other) => panic!("expected a parse error, got {other:?}"),
        Ok(_) => panic!("expected a parse error, got a compiled schema"),
    }
}

#[test]
fn record_conversion_requires_name_and_bounded_age() {
    let with_big_age: serde_json::Value =
        serde_json::from_str(r#"{"name":"x","age":4294967296}"#).expect("parses");
    assert!(person_from_value(&with_big_age).is_none());

    let missing_name: serde_json::Value = serde_json::from_str(r#"{"age":1}"#).expect("parses");
    assert!(person_from_value(&missing_name).is_none());

    let good: serde_json::Value =
        serde_json::from_str(r#"{"name":"x","age":4294967295}"#).expect("parses");
    let p = person_from_value(&good).expect("a record");
    assert_eq!(p.name, "x");
    assert_eq!(p.age, u32::MAX);
}
