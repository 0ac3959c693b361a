use chrono::NaiveDateTime;
use wp_data_fmt::{DataFormat, DataRecord, DataType, FieldStorage, Json, Timestamp, Value};

fn json_time(text: &str) -> Timestamp {
    let at = NaiveDateTime::parse_from_str(text, "%Y-%m-%d %H:%M:%S").unwrap().and_utc();
    Timestamp::new(at.timestamp(), at.timestamp_subsec_nanos())
}

#[test]
fn nginx_access_log_json_snapshot() {
    let ts = json_time("2019-08-06 12:12:19");

    let record = DataRecord {
        id: Default::default(),
        items: vec![
            FieldStorage::from_ip("ip", "192.168.1.2"),
            FieldStorage::from_time("time", ts),
            FieldStorage::from_chars("http/request", "GET /nginx-logo.png HTTP/1.1"),
            FieldStorage::from_digit("http/status", 200),
            FieldStorage::from_digit("length", 368),
            FieldStorage::from_chars("chars", "http://119.122.1.4/"),
            FieldStorage::from_chars(
                "http/agent",
                "Mozilla/5.0(Macintosh; Intel Mac OS X 10_14_5) AppleWebKit/537.36 (KHTML, like Gecko) Chrome/75.0.3770.142 Safari/537.36 ",
            ),
            FieldStorage::from_chars("src_key", "_"),
        ],
    };

    let f = Json;
    let out = f.format_record(&record);

    let expected = r#"{"ip":"192.168.1.2","time":"2019-08-06 12:12:19","http/request":"GET /nginx-logo.png HTTP/1.1","http/status":200,"length":368,"chars":"http://119.122.1.4/","http/agent":"Mozilla/5.0(Macintosh; Intel Mac OS X 10_14_5) AppleWebKit/537.36 (KHTML, like Gecko) Chrome/75.0.3770.142 Safari/537.36 ","src_key":"_"}"#;

    assert_eq!(out, expected);
}

#[test]
fn json_string_escape() {
    let record = DataRecord {
        id: Default::default(),
        items: vec![
            FieldStorage::from_chars("msg", "He said \"hi\""),
            FieldStorage::from_digit("n", 1),
        ],
    };
    let f = Json;
    let out = f.format_record(&record);
    let expected = r#"{"msg":"He said \"hi\"","n":1}"#;
    assert_eq!(out, expected);
}

#[test]
fn json_null_and_float_precision() {
    let record = DataRecord {
        id: Default::default(),
        items: vec![
            FieldStorage::new(DataType::Auto, "maybe", Value::Null),
            FieldStorage::from_float("pi", &std::f64::consts::PI.to_string()),
        ],
    };

    let f = Json;
    let out = f.format_record(&record);

    assert!(out.contains("\"maybe\":null"));
    assert!(out.contains("\"pi\":3.1415926535"));
}
