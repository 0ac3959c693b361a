use chrono::NaiveDateTime;
use wp_data_fmt::{
    DataFormat, DataRecord, FieldStorage, ObjectValue, Raw, RecordFormatter, Timestamp,
};

fn raw_time(text: &str) -> Timestamp {
    let at = NaiveDateTime::parse_from_str(text, "%Y-%m-%d %H:%M:%S").unwrap().and_utc();
    Timestamp::new(at.timestamp(), at.timestamp_subsec_nanos())
}

#[test]
fn test_raw_new() {
    let raw = Raw::new();
    assert_eq!(raw.format_null(), "");
}

#[test]
fn test_raw_default() {
    let raw = Raw;
    assert_eq!(raw.format_null(), "");
}

#[test]
fn raw_test_format_null() {
    let raw = Raw;
    assert_eq!(raw.format_null(), "");
}

#[test]
fn raw_test_format_bool() {
    let raw = Raw;
    assert_eq!(raw.format_bool(&true), "true");
    assert_eq!(raw.format_bool(&false), "false");
}

#[test]
fn raw_test_format_string() {
    let raw = Raw;
    assert_eq!(raw.format_string("hello"), "hello");
    assert_eq!(raw.format_string("world"), "world");
    assert_eq!(raw.format_string(""), "");
}

#[test]
fn raw_test_format_i64() {
    let raw = Raw;
    assert_eq!(raw.format_i64(&0), "0");
    assert_eq!(raw.format_i64(&42), "42");
    assert_eq!(raw.format_i64(&-100), "-100");
    assert_eq!(raw.format_i64(&i64::MAX), i64::MAX.to_string());
}

#[test]
fn raw_test_format_f64() {
    let raw = Raw;
    assert_eq!(raw.format_f64(&3.24f64.to_string()), "3.24");
    assert_eq!(raw.format_f64(&0.0f64.to_string()), "0");
    assert_eq!(raw.format_f64(&(-2.5f64).to_string()), "-2.5");
}

#[test]
fn raw_test_format_ip() {
    let raw = Raw;
    assert_eq!(raw.format_ip("192.168.1.1"), "192.168.1.1");
    assert_eq!(raw.format_ip("::1"), "::1");
}

#[test]
fn raw_test_format_datetime() {
    let raw = Raw;
    let dt = raw_time("2024-01-15 10:30:45");
    let result = raw.format_datetime(&dt);
    assert!(result.contains("2024"));
    assert!(result.contains("01"));
    assert!(result.contains("15"));
    assert_eq!(result, "2024-01-15 10:30:45");
}

#[test]
fn test_format_field_chars() {
    let raw = Raw;
    let field = FieldStorage::from_chars("name", "Alice");
    let result = raw.format_field(&field);
    assert_eq!(result, "Alice");
}

#[test]
fn raw_test_format_field_digit() {
    let raw = Raw;
    let field = FieldStorage::from_digit("age", 30);
    let result = raw.format_field(&field);
    assert_eq!(result, "30");
}

#[test]
fn raw_test_format_record() {
    let raw = Raw;
    let record = DataRecord {
        id: Default::default(),
        items: vec![
            FieldStorage::from_chars("name", "Alice"),
            FieldStorage::from_digit("age", 30),
        ],
    };
    let result = raw.format_record(&record);
    assert_eq!(result, "Alice 30");
}

#[test]
fn test_format_array_empty() {
    let raw = Raw;
    let arr: Vec<FieldStorage> = vec![];
    assert_eq!(raw.format_array(&arr), "[]");
}

#[test]
fn test_format_array_with_values() {
    let raw = Raw;
    let arr = vec![
        FieldStorage::from_digit("", 1),
        FieldStorage::from_digit("", 2),
        FieldStorage::from_digit("", 3),
    ];
    let result = raw.format_array(&arr);
    assert_eq!(result, "[1, 2, 3]");
}

#[test]
fn test_format_object_empty() {
    let raw = Raw;
    let obj = ObjectValue::new();
    assert_eq!(raw.format_object(&obj), "{}");
}

fn raw_record_with_obj() -> DataRecord {
    let mut obj = ObjectValue::new();
    obj.insert("ssl_cipher", FieldStorage::from_chars("ssl_cipher", "ECDHE"));
    DataRecord {
        id: Default::default(),
        items: vec![
            FieldStorage::from_digit("status", 200),
            FieldStorage::from_obj("extends", obj),
            FieldStorage::from_digit("length", 50),
        ],
    }
}

#[test]
fn raw_test_format_record_with_obj_no_newlines() {
    let raw = Raw;
    let record = raw_record_with_obj();
    let result = raw.format_record(&record);
    assert!(!result.contains('\n'), "record output should not contain newlines: {}", result);
    assert!(result.contains("ECDHE"));
    assert_eq!(result, "200 {ssl_cipher=ECDHE} 50");
}

#[test]
fn raw_test_fmt_record_with_obj_no_newlines() {
    let raw = Raw;
    let record = raw_record_with_obj();
    let result = raw.fmt_record(&record);
    assert!(!result.contains('\n'), "record output should not contain newlines: {}", result);
}

#[test]
fn raw_test_old_new_api_consistency_nested() {
    let raw = Raw;
    let record = raw_record_with_obj();
    assert_eq!(raw.format_record(&record), raw.fmt_record(&record));
}
