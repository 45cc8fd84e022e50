//! Streaming-export computations: decimal cursors, parameter assembly,
//! column derivation, and response classification.

use isolate_host::streaming_export::classify_response;
use isolate_host::streaming_export::columns_for_table;
use isolate_host::streaming_export::decimal_string_i64;
use isolate_host::streaming_export::decimal_string_u64;
use isolate_host::streaming_export::document_deltas_parameters;
use isolate_host::streaming_export::list_snapshot_parameters;
use isolate_host::streaming_export::non_null_parameters;
use isolate_host::streaming_export::ApiError;
use isolate_host::streaming_export::DocumentDeltasCursor;
use isolate_host::streaming_export::ListSnapshotCursor;

#[test]
fn unsigned_decimal_formatting() {
    assert_eq!(decimal_string_u64(0), "0");
    assert_eq!(decimal_string_u64(7), "7");
    assert_eq!(decimal_string_u64(10), "10");
    assert_eq!(decimal_string_u64(100), "100");
    assert_eq!(decimal_string_u64(10016), "10016");
    assert_eq!(decimal_string_u64(1_000_000), "1000000");
    assert_eq!(decimal_string_u64(u64::MAX), "18446744073709551615");
}

#[test]
fn signed_decimal_formatting() {
    assert_eq!(decimal_string_i64(0), "0");
    assert_eq!(decimal_string_i64(42), "42");
    assert_eq!(decimal_string_i64(-1), "-1");
    assert_eq!(decimal_string_i64(-10), "-10");
    assert_eq!(decimal_string_i64(i64::MAX), "9223372036854775807");
    assert_eq!(decimal_string_i64(i64::MIN), "-9223372036854775808");
}

#[test]
fn absent_parameters_are_dropped_in_order() {
    let params = vec![
        ("cursor".to_string(), None),
        ("format".to_string(), Some("convex_encoded_json".to_string())),
        ("snapshot".to_string(), Some("17".to_string())),
        ("tableName".to_string(), None),
    ];
    let present = non_null_parameters(params);
    assert_eq!(
        present,
        vec![
            ("format".to_string(), "convex_encoded_json".to_string()),
            ("snapshot".to_string(), "17".to_string()),
        ]
    );

    assert_eq!(non_null_parameters(vec![]), vec![]);
}

#[test]
fn snapshot_parameters_carry_cursor_format_snapshot_and_table() {
    let params = list_snapshot_parameters(
        Some(123),
        Some(ListSnapshotCursor("abc".to_string())),
        Some("messages".to_string()),
    );
    assert_eq!(
        params,
        vec![
            ("cursor".to_string(), Some("abc".to_string())),
            ("format".to_string(), Some("convex_encoded_json".to_string())),
            ("snapshot".to_string(), Some("123".to_string())),
            ("tableName".to_string(), Some("messages".to_string())),
        ]
    );

    let first_page = list_snapshot_parameters(None, None, None);
    assert_eq!(
        first_page,
        vec![
            ("cursor".to_string(), None),
            ("format".to_string(), Some("convex_encoded_json".to_string())),
            ("snapshot".to_string(), None),
            ("tableName".to_string(), None),
        ]
    );
}

#[test]
fn delta_parameters_always_carry_their_cursor() {
    let params = document_deltas_parameters(DocumentDeltasCursor(-9), None);
    assert_eq!(
        params,
        vec![
            ("cursor".to_string(), Some("-9".to_string())),
            ("format".to_string(), Some("convex_encoded_json".to_string())),
            ("tableName".to_string(), None),
        ]
    );
}

#[test]
fn exported_columns_start_with_the_system_columns() {
    let columns = columns_for_table(vec![
        "author".to_string(),
        "_ts".to_string(),
        "body".to_string(),
        "_deleted".to_string(),
    ]);
    let names: Vec<&str> = columns.iter().map(|c| c.0.as_str()).collect();
    assert_eq!(names, vec!["_id", "_creationTime", "author", "body"]);

    let only_system = columns_for_table(vec!["_table".to_string()]);
    let names: Vec<&str> = only_system.iter().map(|c| c.0.as_str()).collect();
    assert_eq!(names, vec!["_id", "_creationTime"]);
}

#[test]
fn responses_are_classified_by_status_and_body() {
    assert!(classify_response(true, None).is_ok());
    assert!(classify_response(true, Some("ignored".to_string())).is_ok());
    match classify_response(false, Some("backend says no".to_string())) {
        Err(ApiError::UnsuccessfulResponse { text }) => assert_eq!(text, "backend says no"),
        _ => panic!("an unsuccessful response keeps its body"),
    }
    match classify_response(false, None) {
        Err(ApiError::NoResponseBody) => {}
        _ => panic!("an unreadable body is its own failure"),
    }
}

#[test]
fn snapshot_values_carry_structured_fields_through() {
    // a structured payload passes through the export vocabulary untouched
    let payload: serde_json::Value = serde_json::from_str("{\"body\": \"hi\"}").unwrap();
    let value = isolate_host::streaming_export::SnapshotValue {
        table: "messages".to_string(),
        deleted: false,
        fields: vec![("body".to_string(), payload.clone())],
    };
    assert_eq!(value.fields[0].1, payload);
    assert!(!value.deleted);
}
