use wp_data_fmt::{
    Csv, DataFormat, DataRecord, DataType, FieldStorage, FormatType, Json, KeyValue, ObjectValue,
    ProtoTxt, Raw, RecordFormatter, SqlFormat, SqlInsert, StaticDataFormatter, TextFmt, Timestamp,
    Value, ValueFormatter,
};

fn sample_object() -> ObjectValue {
    let mut object = ObjectValue::new();
    object.insert("x", FieldStorage::from_digit("x", 1));
    object.insert("y", FieldStorage::from_chars("y", "q"));
    object
}

fn sample_array() -> Vec<FieldStorage> {
    vec![FieldStorage::from_digit("first", 1), FieldStorage::from_chars("second", "z")]
}

fn sample_record() -> DataRecord {
    DataRecord {
        id: 7,
        items: vec![
            FieldStorage::new(DataType::Auto, "n", Value::Null),
            FieldStorage::from_bool("b", true),
            FieldStorage::from_chars("s", "a\"b"),
            FieldStorage::from_digit("d", -7),
            FieldStorage::from_float("f", "2.5"),
            FieldStorage::from_ip("ip", "10.0.0.1"),
            FieldStorage::from_time("t", Timestamp::new(0, 0)),
            FieldStorage::from_obj("o", sample_object()),
            FieldStorage::from_arr("a", sample_array()),
            FieldStorage::new(DataType::Auto, "h", Value::Other("0xFF".to_string())),
            FieldStorage::new(DataType::Ignore, "skip", Value::Chars("hidden".to_string())),
        ],
    }
}

fn all_encoders() -> Vec<FormatType> {
    vec![
        FormatType::Json(Json),
        FormatType::Csv(Csv::new()),
        FormatType::Kv(KeyValue),
        FormatType::Sql(SqlInsert::new("logs", SqlFormat::Json(Json))),
        FormatType::Raw(Raw),
        FormatType::ProtoText(ProtoTxt),
    ]
}

#[test]
fn raw_writes_every_kind() {
    assert_eq!(
        Raw.fmt_record(&sample_record()),
        " true a\"b -7 2.5 10.0.0.1 1970-01-01 00:00:00 {x=1, y=q} [1, z] 0xFF"
    );
}

#[test]
fn json_writes_every_kind() {
    assert_eq!(
        Json.fmt_record(&sample_record()),
        r#"{"n":null,"b":true,"s":"a\"b","d":-7,"f":2.5,"ip":"10.0.0.1","t":"1970-01-01 00:00:00","o":{"x":1,"y":"q"},"a":[1,"z"],"h":"0xFF"}"#
    );
}

#[test]
fn proto_writes_every_kind() {
    assert_eq!(
        ProtoTxt.fmt_record(&sample_record()),
        r#"{ n:  b: true s: "a\"b" d: -7 f: 2.5 ip: "10.0.0.1" t: "1970-01-01 00:00:00" o: x: 1 y: "q" a: [1, "z"] h: "0xFF" }"#
    );
}

#[test]
fn kv_writes_every_kind() {
    assert_eq!(
        KeyValue.fmt_record(&sample_record()),
        r#"n: , b: true, s: "a\"b", d: -7, f: 2.5, ip: 10.0.0.1, t: 1970-01-01 00:00:00, o: "x": 1, "y": "q", a: [1, "z"], h: "0xFF""#
    );
}

#[test]
fn csv_writes_every_kind() {
    assert_eq!(
        Csv::new().fmt_record(&sample_record()),
        ",true,a\"b,-7,2.5,10.0.0.1,1970-01-01 00:00:00,{x=1, y=q},[1, z],0xFF"
    );
}

#[test]
fn csv_uses_its_separator() {
    let csv = Csv::with_separator(';');
    let record = DataRecord {
        id: 0,
        items: vec![FieldStorage::from_chars("a", "x"), FieldStorage::from_digit("b", 10)],
    };
    assert_eq!(csv.fmt_record(&record), "x;10");
    assert_eq!(csv.fmt_field(&record.items[0]), "x");
    assert_eq!(Csv::default().fmt_record(&record), "x,10");
}

#[test]
fn sql_writes_an_insert_statement() {
    let sql = SqlInsert::new("logs", SqlFormat::Json(Json));
    assert_eq!(
        sql.fmt_record(&sample_record()),
        r#"INSERT INTO logs (n, b, s, d, f, ip, t, o, a, h) VALUES (null, true, "a\"b", -7, 2.5, "10.0.0.1", "1970-01-01 00:00:00", {"x":1,"y":"q"}, [1,"z"], "0xFF");"#
    );
    let raw = SqlInsert::new("t", SqlFormat::from(&TextFmt::Csv));
    let record = DataRecord {
        id: 0,
        items: vec![FieldStorage::from_chars("name", "Alice"), FieldStorage::from_digit("age", 30)],
    };
    assert_eq!(raw.fmt_record(&record), "INSERT INTO t (name, age) VALUES (Alice, 30);");
    assert_eq!(raw.fmt_field(&record.items[0]), "Alice");
    assert_eq!(sql.format_value(&Value::Chars("x".to_string())), "\"x\"");
    let empty = DataRecord { id: 0, items: vec![] };
    assert_eq!(raw.fmt_record(&empty), "INSERT INTO t () VALUES ();");
}

#[test]
fn every_kind_of_value_has_a_text_in_every_encoder() {
    let values = vec![
        Value::Null,
        Value::Bool(false),
        Value::Chars(String::new()),
        Value::Digit(i64::MIN),
        Value::Float("NaN".to_string()),
        Value::IpAddr("::1".to_string()),
        Value::Time(Timestamp::new(i64::MAX, 0)),
        Value::Obj(ObjectValue::new()),
        Value::Array(vec![]),
        Value::Other("anything".to_string()),
    ];
    let expected: Vec<Vec<&str>> = vec![
        vec!["null", "false", "\"\"", "-9223372036854775808", "NaN", "\"::1\"", "\"\"", "{}", "[]", "\"anything\""],
        vec!["", "false", "", "-9223372036854775808", "NaN", "::1", "", "{}", "[]", "anything"],
        vec!["", "false", "\"\"", "-9223372036854775808", "NaN", "::1", "", "", "[]", "\"anything\""],
        vec!["null", "false", "\"\"", "-9223372036854775808", "NaN", "\"::1\"", "\"\"", "{}", "[]", "\"anything\""],
        vec!["", "false", "", "-9223372036854775808", "NaN", "::1", "", "{}", "[]", "anything"],
        vec!["", "false", "\"\"", "-9223372036854775808", "NaN", "\"::1\"", "\"\"", "", "[]", "\"anything\""],
    ];
    for (encoder, row) in all_encoders().iter().zip(expected.iter()) {
        for (value, text) in values.iter().zip(row.iter()) {
            assert_eq!(&encoder.format_value(value), text);
        }
    }
}

#[test]
fn a_single_field_by_every_encoder() {
    let field = FieldStorage::from_chars("name", "Alice");
    let expected = vec![
        "\"name\":\"Alice\"",
        "Alice",
        "name: \"Alice\"",
        "\"Alice\"",
        "Alice",
        "name: \"Alice\"",
    ];
    for (encoder, text) in all_encoders().iter().zip(expected.iter()) {
        assert_eq!(&encoder.fmt_field(&field), text);
    }
}

#[test]
fn a_single_ignored_field() {
    let field = FieldStorage::new(DataType::Ignore, "skip", Value::Digit(5));
    assert_eq!(ProtoTxt.fmt_field(&field), "");
    assert_eq!(ProtoTxt.format_field(&field), "");
    assert_eq!(Raw.fmt_field(&field), "5");
    assert_eq!(Json.fmt_field(&field), "\"skip\":5");
    assert_eq!(KeyValue.fmt_field(&field), "skip: 5");
    assert_eq!(Csv::new().fmt_field(&field), "5");
    assert_eq!(Json.format_value(field.get_value()), "5");
}

#[test]
fn ignored_fields_leave_no_trace_in_a_record() {
    let with = sample_record();
    let mut without = sample_record();
    without.items.pop();
    let mut leading = sample_record();
    leading.items.insert(0, FieldStorage::new(DataType::Ignore, "lead", Value::Digit(1)));
    leading.items.insert(5, FieldStorage::new(DataType::Ignore, "mid", Value::Null));
    for encoder in all_encoders().iter() {
        let text = encoder.fmt_record(&with);
        assert_eq!(text, encoder.fmt_record(&without));
        assert_eq!(text, encoder.fmt_record(&leading));
        assert!(!text.contains("skip"));
        assert!(!text.contains("hidden"));
    }
    let only = DataRecord {
        id: 0,
        items: vec![FieldStorage::new(DataType::Ignore, "skip", Value::Digit(1))],
    };
    assert_eq!(Raw.fmt_record(&only), "");
    assert_eq!(Json.fmt_record(&only), "{}");
    assert_eq!(ProtoTxt.fmt_record(&only), "{  }");
    assert_eq!(KeyValue.fmt_record(&only), "");
    assert_eq!(Csv::new().fmt_record(&only), "");
}

#[test]
fn ignored_members_leave_no_trace_in_objects_and_arrays() {
    let mut object = sample_object();
    object.insert("gone", FieldStorage::new(DataType::Ignore, "gone", Value::Digit(9)));
    let mut array = sample_array();
    array.insert(1, FieldStorage::new(DataType::Ignore, "gone", Value::Digit(9)));
    for encoder in all_encoders().iter() {
        assert_eq!(
            encoder.format_value(&Value::Obj(object.clone())),
            encoder.format_value(&Value::Obj(sample_object()))
        );
        assert_eq!(
            encoder.format_value(&Value::Array(array.clone())),
            encoder.format_value(&Value::Array(sample_array()))
        );
    }
    assert_eq!(Raw.format_value(&Value::Obj(object)), "{x=1, y=q}");
    assert_eq!(Json.format_value(&Value::Array(array)), "[1,\"z\"]");
}

#[test]
fn the_name_shown_is_the_name_written() {
    let mut inner = FieldStorage::from_digit("inner_made", 1);
    inner.set_name("inner_shown");
    let mut object = ObjectValue::new();
    object.insert("inner_key", inner);
    let mut outer = FieldStorage::from_obj("outer_made", object);
    outer.set_name("outer_shown");
    let renamed = DataRecord { id: 0, items: vec![outer] };

    let mut object = ObjectValue::new();
    object.insert("inner_shown", FieldStorage::from_digit("inner_shown", 1));
    let made = DataRecord { id: 0, items: vec![FieldStorage::from_obj("outer_shown", object)] };

    for encoder in all_encoders().iter() {
        let text = encoder.fmt_record(&renamed);
        assert_eq!(text, encoder.fmt_record(&made));
        assert!(!text.contains("made"));
        assert!(!text.contains("key"));
        assert_eq!(encoder.fmt_field(&renamed.items[0]), encoder.fmt_field(&made.items[0]));
    }
    assert_eq!(Json.fmt_record(&renamed), r#"{"outer_shown":{"inner_shown":1}}"#);
    assert_eq!(ProtoTxt.fmt_record(&renamed), "{ outer_shown: inner_shown: 1 }");
    assert_eq!(KeyValue.fmt_record(&renamed), "outer_shown: \"inner_shown\": 1");
    assert_eq!(Raw.fmt_record(&renamed), "{inner_shown=1}");
    assert_eq!(
        SqlInsert::new("t", SqlFormat::Raw(Raw)).fmt_record(&renamed),
        "INSERT INTO t (outer_shown) VALUES ({inner_shown=1});"
    );
}

#[test]
fn the_names_of_array_items_are_not_written() {
    let plain = sample_array();
    let mut renamed = sample_array();
    renamed[0].set_name("other");
    renamed[1].set_name("names");
    for encoder in all_encoders().iter() {
        let text = encoder.format_value(&Value::Array(renamed.clone()));
        assert_eq!(text, encoder.format_value(&Value::Array(plain.clone())));
        assert!(!text.contains("other"));
        assert!(!text.contains("names"));
        assert!(!text.contains("first"));
    }
}

#[test]
fn a_quoted_text_reads_back() {
    let texts = vec!["", "\"", "say \"hi\"", "\\\"", "a\\b", "\"\"\"", "tail\\"];
    for text in texts.iter() {
        for written in vec![
            Json.format_value(&Value::Chars(text.to_string())),
            ProtoTxt.format_value(&Value::Chars(text.to_string())),
        ] {
            assert!(written.starts_with('"'));
            assert!(written.ends_with('"'));
            let inner = &written[1..written.len() - 1];
            let chars: Vec<char> = inner.chars().collect();
            for (at, c) in chars.iter().enumerate() {
                if *c == '"' {
                    assert!(at > 0 && chars[at - 1] == '\\');
                }
            }
            assert_eq!(inner.len(), text.len() + text.matches('"').count());
            assert_eq!(&inner.replace("\\\"", "\""), text);
        }
    }
    assert_eq!(Json.format_value(&Value::Chars("say \"hi\"".to_string())), "\"say \\\"hi\\\"\"");
}

#[test]
fn the_older_interface_writes_the_same() {
    let record = sample_record();
    for encoder in all_encoders().iter() {
        assert_eq!(encoder.format_record(&record), encoder.fmt_record(&record));
        for field in record.items.iter() {
            assert_eq!(encoder.format_field(field), encoder.fmt_field(field));
            assert_eq!(encoder.fmt_value(field.get_value()), encoder.format_value(field.get_value()));
        }
        assert_eq!(encoder.format_null(), encoder.format_value(&Value::Null));
        assert_eq!(encoder.format_bool(&true), encoder.format_value(&Value::Bool(true)));
        assert_eq!(
            encoder.format_string("a\"b"),
            encoder.format_value(&Value::Chars("a\"b".to_string()))
        );
        assert_eq!(encoder.format_i64(&-7), encoder.format_value(&Value::Digit(-7)));
        assert_eq!(encoder.format_f64("2.5"), encoder.format_value(&Value::Float("2.5".to_string())));
        assert_eq!(
            encoder.format_ip("10.0.0.1"),
            encoder.format_value(&Value::IpAddr("10.0.0.1".to_string()))
        );
        assert_eq!(
            encoder.format_datetime(&Timestamp::new(0, 0)),
            encoder.format_value(&Value::Time(Timestamp::new(0, 0)))
        );
        assert_eq!(
            encoder.format_object(&sample_object()),
            encoder.format_value(&Value::Obj(sample_object()))
        );
        assert_eq!(
            encoder.format_array(&sample_array()),
            encoder.format_value(&Value::Array(sample_array()))
        );
    }
    for encoder in vec![
        SqlFormat::Json(Json),
        SqlFormat::Kv(KeyValue),
        SqlFormat::Raw(Raw),
        SqlFormat::ProtoText(ProtoTxt),
    ] {
        assert_eq!(encoder.format_record(&record), encoder.fmt_record(&record));
        for field in record.items.iter() {
            assert_eq!(encoder.format_field(field), encoder.fmt_field(field));
            assert_eq!(encoder.fmt_value(field.get_value()), encoder.format_value(field.get_value()));
        }
    }
}

#[test]
fn the_functions_without_an_encoder_write_the_same() {
    let record = sample_record();
    assert_eq!(<Raw as StaticDataFormatter>::stdfmt_record(&record), Raw.fmt_record(&record));
    assert_eq!(<Json as StaticDataFormatter>::stdfmt_record(&record), Json.fmt_record(&record));
    assert_eq!(
        <ProtoTxt as StaticDataFormatter>::stdfmt_record(&record),
        ProtoTxt.fmt_record(&record)
    );
    assert_eq!(
        <KeyValue as StaticDataFormatter>::stdfmt_record(&record),
        KeyValue.fmt_record(&record)
    );
    for field in record.items.iter() {
        assert_eq!(<Json as StaticDataFormatter>::stdfmt_field(field), Json.fmt_field(field));
        assert_eq!(
            <Json as StaticDataFormatter>::stdfmt_value(field.get_value()),
            Json.format_value(field.get_value())
        );
        assert_eq!(
            <ProtoTxt as StaticDataFormatter>::stdfmt_value(field.get_value()),
            ProtoTxt.format_value(field.get_value())
        );
    }
    assert_eq!(<Json as StaticDataFormatter>::stdfmt_null(), "null");
    assert_eq!(<Raw as StaticDataFormatter>::stdfmt_string("a\"b"), "a\"b");
    assert_eq!(<KeyValue as StaticDataFormatter>::stdfmt_ip_addr("10.0.0.1"), "10.0.0.1");
    assert_eq!(<ProtoTxt as StaticDataFormatter>::stdfmt_i64(&12), "12");
}

#[test]
fn a_field_without_a_rule_is_written_by_its_value() {
    let field = FieldStorage::from_chars("name", "Alice");
    assert_eq!(wp_data_fmt::default_fmt_field(&Json, &field), "\"Alice\"");
    assert_eq!(wp_data_fmt::default_fmt_field(&Raw, &field), "Alice");
}

#[test]
fn the_format_chooses_the_encoder() {
    let record = DataRecord {
        id: 0,
        items: vec![FieldStorage::from_chars("name", "Alice"), FieldStorage::from_digit("age", 30)],
    };
    let cases = vec![
        (TextFmt::Json, "{\"name\":\"Alice\",\"age\":30}", "{\"name\":\"Alice\",\"age\":30}"),
        (TextFmt::Csv, "Alice,30", "Alice 30"),
        (TextFmt::Show, "Alice 30", "Alice 30"),
        (TextFmt::Kv, "name: \"Alice\", age: 30", "name: \"Alice\", age: 30"),
        (TextFmt::Raw, "Alice 30", "Alice 30"),
        (TextFmt::Proto, "{ name: \"Alice\" age: 30 }", "Alice 30"),
        (TextFmt::ProtoText, "{ name: \"Alice\" age: 30 }", "{ name: \"Alice\" age: 30 }"),
    ];
    for (fmt, general, for_sql) in cases.iter() {
        assert_eq!(&FormatType::from(fmt).fmt_record(&record), general);
        assert_eq!(&SqlFormat::from(fmt).fmt_record(&record), for_sql);
    }
}
