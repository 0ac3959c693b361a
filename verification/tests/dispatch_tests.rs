use wp_data_fmt::{
    DataRecord, FieldStorage, FormatType, RecordFormatter, SqlFormat, TextFmt, Value,
    ValueFormatter,
};

#[test]
fn test_format_type_from_text_fmt_json() {
    let fmt = FormatType::from(&TextFmt::Json);
    assert!(matches!(fmt, FormatType::Json(_)));
}

#[test]
fn test_format_type_from_text_fmt_csv() {
    let fmt = FormatType::from(&TextFmt::Csv);
    assert!(matches!(fmt, FormatType::Csv(_)));
}

#[test]
fn test_format_type_from_text_fmt_kv() {
    let fmt = FormatType::from(&TextFmt::Kv);
    assert!(matches!(fmt, FormatType::Kv(_)));
}

#[test]
fn test_format_type_from_text_fmt_raw() {
    let fmt = FormatType::from(&TextFmt::Raw);
    assert!(matches!(fmt, FormatType::Raw(_)));
}

#[test]
fn test_format_type_from_text_fmt_proto_text() {
    let fmt = FormatType::from(&TextFmt::ProtoText);
    assert!(matches!(fmt, FormatType::ProtoText(_)));
}

#[test]
fn test_format_type_from_text_fmt_show() {
    let fmt = FormatType::from(&TextFmt::Show);
    assert!(matches!(fmt, FormatType::Raw(_)));
}

#[test]
fn test_format_type_from_text_fmt_proto() {
    let fmt = FormatType::from(&TextFmt::Proto);
    assert!(matches!(fmt, FormatType::ProtoText(_)));
}

#[test]
fn test_sql_format_from_text_fmt_json() {
    let fmt = SqlFormat::from(&TextFmt::Json);
    assert!(matches!(fmt, SqlFormat::Json(_)));
}

#[test]
fn test_sql_format_from_text_fmt_kv() {
    let fmt = SqlFormat::from(&TextFmt::Kv);
    assert!(matches!(fmt, SqlFormat::Kv(_)));
}

#[test]
fn test_sql_format_from_text_fmt_raw() {
    let fmt = SqlFormat::from(&TextFmt::Raw);
    assert!(matches!(fmt, SqlFormat::Raw(_)));
}

#[test]
fn test_sql_format_from_text_fmt_proto_text() {
    let fmt = SqlFormat::from(&TextFmt::ProtoText);
    assert!(matches!(fmt, SqlFormat::ProtoText(_)));
}

#[test]
fn test_sql_format_from_text_fmt_csv_fallback() {
    let fmt = SqlFormat::from(&TextFmt::Csv);
    assert!(matches!(fmt, SqlFormat::Raw(_)));
}

#[test]
fn test_format_type_dataformat_null() {
    let fmt = FormatType::from(&TextFmt::Json);
    assert_eq!(fmt.format_value(&Value::Null), "null");

    let fmt = FormatType::from(&TextFmt::Csv);
    assert_eq!(fmt.format_value(&Value::Null), "");

    let fmt = FormatType::from(&TextFmt::Raw);
    assert_eq!(fmt.format_value(&Value::Null), "");
}

#[test]
fn test_format_type_dataformat_bool() {
    let fmt = FormatType::from(&TextFmt::Json);
    assert_eq!(fmt.format_value(&Value::Bool(true)), "true");
    assert_eq!(fmt.format_value(&Value::Bool(false)), "false");
}

#[test]
fn test_format_type_dataformat_string() {
    let json_fmt = FormatType::from(&TextFmt::Json);
    assert_eq!(json_fmt.format_value(&Value::Chars("hello".into())), "\"hello\"");

    let raw_fmt = FormatType::from(&TextFmt::Raw);
    assert_eq!(raw_fmt.format_value(&Value::Chars("hello".into())), "hello");
}

#[test]
fn test_format_type_dataformat_i64() {
    let fmt = FormatType::from(&TextFmt::Json);
    assert_eq!(fmt.format_value(&Value::Digit(42)), "42");
    assert_eq!(fmt.format_value(&Value::Digit(-100)), "-100");
}

#[test]
fn test_format_type_dataformat_f64() {
    let fmt = FormatType::from(&TextFmt::Json);
    assert_eq!(fmt.format_value(&Value::Float(3.24f64.to_string())), "3.24");
}

#[test]
fn test_format_type_format_record() {
    let json_fmt = FormatType::from(&TextFmt::Json);
    let record = DataRecord {
        id: Default::default(),
        items: vec![
            FieldStorage::from_chars("name", "Alice"),
            FieldStorage::from_digit("age", 30),
        ],
    };
    let result = json_fmt.fmt_record(&record);
    assert!(result.starts_with('{'));
    assert!(result.ends_with('}'));
    assert!(result.contains("\"name\":\"Alice\""));
}

#[test]
fn test_format_type_format_field() {
    let fmt = FormatType::from(&TextFmt::Json);
    let field = FieldStorage::from_chars("key", "value");
    let result = fmt.fmt_field(&field);
    assert!(result.contains("key"));
    assert!(result.contains("value"));
}

#[test]
fn test_csv_format_type() {
    let csv_fmt = FormatType::from(&TextFmt::Csv);
    let record = DataRecord {
        id: Default::default(),
        items: vec![FieldStorage::from_chars("a", "x"), FieldStorage::from_chars("b", "y")],
    };
    let result = csv_fmt.fmt_record(&record);
    assert_eq!(result, "x,y");
}

#[test]
fn test_kv_format_type() {
    let kv_fmt = FormatType::from(&TextFmt::Kv);
    let record = DataRecord {
        id: Default::default(),
        items: vec![FieldStorage::from_chars("name", "Alice")],
    };
    let result = kv_fmt.fmt_record(&record);
    assert!(result.contains("name"));
    assert!(result.contains("Alice"));
}
