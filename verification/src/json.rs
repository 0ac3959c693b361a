//! The JSON encoder.

use vstd::prelude::*;
use crate::formatter::{DataFormat, RecordFormatter, StaticDataFormatter, ValueFormatter};
use crate::model::{
    DataRecord, FieldStorage, FieldView, ObjectValue, RecordView, Value, ValueView, fields_view,
};
use crate::syntax::{
    Label, LabelView, Syntax, SyntaxView, Wrap, WrapView, field_texts, item_texts, member_texts,
    render_address, render_array, render_field, render_object, render_record, render_string,
    render_time, render_value, text_of_field, text_of_record, text_of_value, wrapped,
};
use crate::text::{bool_text, decimal_text, join, owned, quoted};
use crate::time::{Timestamp, time_text};

verus! {

/// Writes the null value as `null`, texts, addresses and times between
/// double quotes, an object and a record as `{"name":value,"name":value}` and
/// an array as `[value,value]`.
#[derive(Clone, Copy, Debug, Default, PartialEq, Eq, Structural)]
pub struct Json;

/// The rules of JSON.
pub open spec fn json_syntax() -> SyntaxView {
    SyntaxView {
        null: "null"@,
        quote_text: true,
        quote_address: true,
        object: WrapView { open: "{"@, sep: ","@, close: "}"@ },
        member: LabelView { quoted: true, sep: ":"@ },
        array: WrapView { open: "["@, sep: ","@, close: "]"@ },
        record: WrapView { open: "{"@, sep: ","@, close: "}"@ },
        field: Some(LabelView { quoted: true, sep: ":"@ }),
        blank_ignored: false,
    }
}

impl Json {
    /// The JSON encoder.
    pub fn new() -> (out: Json)
        ensures
            out == Json,
    {
        Json
    }

    /// The rules of this encoder.
    pub fn syntax(&self) -> (out: Syntax)
        ensures
            out@ == json_syntax(),
    {
        Syntax {
            null: owned("null"),
            quote_text: true,
            quote_address: true,
            object: Wrap { open: owned("{"), sep: owned(","), close: owned("}") },
            member: Label { quoted: true, sep: owned(":") },
            array: Wrap { open: owned("["), sep: owned(","), close: owned("]") },
            record: Wrap { open: owned("{"), sep: owned(","), close: owned("}") },
            field: Some(Label { quoted: true, sep: owned(":") }),
            blank_ignored: false,
        }
    }
}

impl ValueFormatter for Json {
    open spec fn value_text(&self, value: ValueView) -> Seq<char> {
        text_of_value(json_syntax(), value)
    }

    fn format_value(&self, value: &Value) -> (out: String)
        ensures
            out@ == text_of_value(json_syntax(), value@),
    {
        render_value(&self.syntax(), value)
    }
}

impl RecordFormatter for Json {
    open spec fn field_text(&self, field: FieldView) -> Seq<char> {
        text_of_field(json_syntax(), field)
    }

    open spec fn record_text(&self, record: RecordView) -> Seq<char> {
        text_of_record(json_syntax(), record.items)
    }

    fn fmt_field(&self, field: &FieldStorage) -> (out: String)
        ensures
            out@ == text_of_field(json_syntax(), field@),
    {
        render_field(&self.syntax(), field)
    }

    fn fmt_record(&self, record: &DataRecord) -> (out: String)
        ensures
            out@ == text_of_record(json_syntax(), record@.items),
    {
        render_record(&self.syntax(), record)
    }
}

impl DataFormat for Json {
    fn format_null(&self) -> (out: String)
        ensures
            out@ == "null"@,
    {
        render_value(&self.syntax(), &Value::Null)
    }

    fn format_bool(&self, value: &bool) -> (out: String)
        ensures
            out@ == bool_text(*value),
    {
        render_value(&self.syntax(), &Value::Bool(*value))
    }

    fn format_string(&self, value: &str) -> (out: String)
        ensures
            out@ == quoted(value@),
    {
        render_string(&self.syntax(), value)
    }

    fn format_i64(&self, value: &i64) -> (out: String)
        ensures
            out@ == decimal_text(*value as int),
    {
        render_value(&self.syntax(), &Value::Digit(*value))
    }

    fn format_f64(&self, decimal: &str) -> (out: String)
        ensures
            out@ == decimal@,
    {
        owned(decimal)
    }

    fn format_ip(&self, address: &str) -> (out: String)
        ensures
            out@ == quoted(address@),
    {
        render_address(&self.syntax(), address)
    }

    fn format_datetime(&self, value: &Timestamp) -> (out: String)
        ensures
            out@ == quoted(time_text(*value)),
    {
        render_time(&self.syntax(), value)
    }

    fn format_object(&self, value: &ObjectValue) -> (out: String)
        ensures
            out@ == wrapped(json_syntax().object, member_texts(json_syntax(), value@)),
    {
        render_object(&self.syntax(), value)
    }

    fn format_array(&self, value: &[FieldStorage]) -> (out: String)
        ensures
            out@ == wrapped(json_syntax().array, item_texts(json_syntax(), fields_view(value@))),
    {
        render_array(&self.syntax(), value)
    }

    proof fn other_is_text(&self, text: Seq<char>) {
    }

    fn format_field(&self, field: &FieldStorage) -> (out: String)
        ensures
            out@ == text_of_field(json_syntax(), field@),
    {
        render_field(&self.syntax(), field)
    }

    fn format_record(&self, record: &DataRecord) -> (out: String)
        ensures
            out@ == text_of_record(json_syntax(), record@.items),
    {
        render_record(&self.syntax(), record)
    }
}

impl StaticDataFormatter for Json {
    open spec fn static_value_text(value: ValueView) -> Seq<char> {
        Json.value_text(value)
    }

    open spec fn static_field_text(field: FieldView) -> Seq<char> {
        Json.field_text(field)
    }

    open spec fn static_record_text(record: RecordView) -> Seq<char> {
        Json.record_text(record)
    }

    fn stdfmt_null() -> (out: String)
        ensures
            out@ == "null"@,
    {
        Json.format_null()
    }

    fn stdfmt_bool(value: &bool) -> (out: String)
        ensures
            out@ == bool_text(*value),
    {
        Json.format_bool(value)
    }

    fn stdfmt_string(value: &str) -> (out: String)
        ensures
            out@ == quoted(value@),
    {
        Json.format_string(value)
    }

    fn stdfmt_i64(value: &i64) -> (out: String)
        ensures
            out@ == decimal_text(*value as int),
    {
        Json.format_i64(value)
    }

    fn stdfmt_f64(decimal: &str) -> (out: String)
        ensures
            out@ == decimal@,
    {
        Json.format_f64(decimal)
    }

    fn stdfmt_ip_addr(address: &str) -> (out: String)
        ensures
            out@ == quoted(address@),
    {
        Json.format_ip(address)
    }

    fn stdfmt_datetime(value: &Timestamp) -> (out: String)
        ensures
            out@ == quoted(time_text(*value)),
    {
        Json.format_datetime(value)
    }

    fn stdfmt_object(value: &ObjectValue) -> (out: String)
        ensures
            out@ == wrapped(json_syntax().object, member_texts(json_syntax(), value@)),
    {
        Json.format_object(value)
    }

    fn stdfmt_array(value: &[FieldStorage]) -> (out: String)
        ensures
            out@ == wrapped(json_syntax().array, item_texts(json_syntax(), fields_view(value@))),
    {
        Json.format_array(value)
    }

    proof fn static_other_is_text(text: Seq<char>) {
    }

    fn stdfmt_field(field: &FieldStorage) -> (out: String)
        ensures
            out@ == text_of_field(json_syntax(), field@),
    {
        Json.format_field(field)
    }

    fn stdfmt_record(record: &DataRecord) -> (out: String)
        ensures
            out@ == text_of_record(json_syntax(), record@.items),
    {
        Json.format_record(record)
    }
}

/// What this encoder writes, kind by kind: the text of each kind of value,
/// of one member of an object, of a single field and of a record.
pub proof fn lemma_json_texts(
    b: bool,
    n: int,
    s: Seq<char>,
    t: Timestamp,
    fields: Seq<FieldView>,
    field: FieldView,
    record: RecordView,
)
    ensures
        Json.value_text(ValueView::Null) == "null"@,
        Json.value_text(ValueView::Bool(b)) == bool_text(b),
        Json.value_text(ValueView::Chars(s)) == quoted(s),
        Json.value_text(ValueView::Digit(n)) == decimal_text(n),
        Json.value_text(ValueView::Float(s)) == s,
        Json.value_text(ValueView::IpAddr(s)) == quoted(s),
        Json.value_text(ValueView::Time(t)) == quoted(time_text(t)),
        Json.value_text(ValueView::Obj(fields)) == "{"@ + join(
            member_texts(json_syntax(), fields),
            ","@,
        ) + "}"@,
        Json.value_text(ValueView::Array(fields)) == "["@ + join(
            item_texts(json_syntax(), fields),
            ","@,
        ) + "]"@,
        Json.value_text(ValueView::Other(s)) == quoted(s),
        !field.ignored() ==> member_texts(json_syntax(), seq![field]) == seq![
            quoted(field.name) + ":"@ + Json.value_text(field.value),
        ],
        Json.field_text(field) == quoted(field.name) + ":"@ + Json.value_text(field.value),
        Json.record_text(record) == "{"@ + join(
            field_texts(json_syntax(), record.items),
            ","@,
        ) + "}"@,
{
    reveal_strlit("{");
    reveal_strlit("}");
    reveal_strlit("[");
    reveal_strlit("]");
    reveal_strlit(",");
    reveal_strlit(":");
    reveal_with_fuel(member_texts, 2);
}

} // verus!
