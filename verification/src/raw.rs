//! The plain encoder: every scalar as its bare text.

use vstd::prelude::*;
use crate::formatter::{DataFormat, RecordFormatter, StaticDataFormatter, ValueFormatter};
use crate::model::{
    DataRecord, FieldStorage, FieldView, ObjectValue, RecordView, Value, ValueView, fields_view,
};
use crate::syntax::{
    Syntax, field_texts, item_texts, member_texts, plain, plain_syntax, render_address,
    render_array, render_field, render_object, render_record, render_string, render_time,
    render_value, text_of_field, text_of_record, text_of_value, wrapped,
};
use crate::text::{bool_text, decimal_text, join, owned};
use crate::time::{Timestamp, time_text};

verus! {

/// Writes texts, addresses and times bare, an object as
/// `{name=value, name=value}`, an array as `[value, value]` and a record as
/// its values with one space between them.
#[derive(Clone, Copy, Debug, Default, PartialEq, Eq, Structural)]
pub struct Raw;

impl Raw {
    /// The plain encoder.
    pub fn new() -> (out: Raw)
        ensures
            out == Raw,
    {
        Raw
    }

    /// The rules of this encoder.
    pub fn syntax(&self) -> (out: Syntax)
        ensures
            out@ == plain_syntax(),
    {
        plain()
    }
}

impl ValueFormatter for Raw {
    open spec fn value_text(&self, value: ValueView) -> Seq<char> {
        text_of_value(plain_syntax(), value)
    }

    fn format_value(&self, value: &Value) -> (out: String)
        ensures
            out@ == text_of_value(plain_syntax(), value@),
    {
        render_value(&self.syntax(), value)
    }
}

impl RecordFormatter for Raw {
    open spec fn field_text(&self, field: FieldView) -> Seq<char> {
        text_of_field(plain_syntax(), field)
    }

    open spec fn record_text(&self, record: RecordView) -> Seq<char> {
        text_of_record(plain_syntax(), record.items)
    }

    fn fmt_field(&self, field: &FieldStorage) -> (out: String)
        ensures
            out@ == text_of_field(plain_syntax(), field@),
    {
        render_field(&self.syntax(), field)
    }

    fn fmt_record(&self, record: &DataRecord) -> (out: String)
        ensures
            out@ == text_of_record(plain_syntax(), record@.items),
    {
        render_record(&self.syntax(), record)
    }
}

impl DataFormat for Raw {
    fn format_null(&self) -> (out: String)
        ensures
            out@ == ""@,
    {
        render_value(&self.syntax(), &Value::Null)
    }

    fn format_bool(&self, value: &bool) -> (out: String)
        ensures
            out@ == bool_text(*value),
    {
        render_value(&self.syntax(), &Value::Bool(*value))
    }

    fn format_string(&self, value: &str) -> (out: String)
        ensures
            out@ == value@,
    {
        render_string(&self.syntax(), value)
    }

    fn format_i64(&self, value: &i64) -> (out: String)
        ensures
            out@ == decimal_text(*value as int),
    {
        render_value(&self.syntax(), &Value::Digit(*value))
    }

    fn format_f64(&self, decimal: &str) -> (out: String)
        ensures
            out@ == decimal@,
    {
        owned(decimal)
    }

    fn format_ip(&self, address: &str) -> (out: String)
        ensures
            out@ == address@,
    {
        render_address(&self.syntax(), address)
    }

    fn format_datetime(&self, value: &Timestamp) -> (out: String)
        ensures
            out@ == time_text(*value),
    {
        render_time(&self.syntax(), value)
    }

    fn format_object(&self, value: &ObjectValue) -> (out: String)
        ensures
            out@ == wrapped(plain_syntax().object, member_texts(plain_syntax(), value@)),
    {
        render_object(&self.syntax(), value)
    }

    fn format_array(&self, value: &[FieldStorage]) -> (out: String)
        ensures
            out@ == wrapped(plain_syntax().array, item_texts(plain_syntax(), fields_view(value@))),
    {
        render_array(&self.syntax(), value)
    }

    proof fn other_is_text(&self, text: Seq<char>) {
    }

    fn format_field(&self, field: &FieldStorage) -> (out: String)
        ensures
            out@ == text_of_field(plain_syntax(), field@),
    {
        render_field(&self.syntax(), field)
    }

    fn format_record(&self, record: &DataRecord) -> (out: String)
        ensures
            out@ == text_of_record(plain_syntax(), record@.items),
    {
        render_record(&self.syntax(), record)
    }
}

impl StaticDataFormatter for Raw {
    open spec fn static_value_text(value: ValueView) -> Seq<char> {
        Raw.value_text(value)
    }

    open spec fn static_field_text(field: FieldView) -> Seq<char> {
        Raw.field_text(field)
    }

    open spec fn static_record_text(record: RecordView) -> Seq<char> {
        Raw.record_text(record)
    }

    fn stdfmt_null() -> (out: String)
        ensures
            out@ == ""@,
    {
        Raw.format_null()
    }

    fn stdfmt_bool(value: &bool) -> (out: String)
        ensures
            out@ == bool_text(*value),
    {
        Raw.format_bool(value)
    }

    fn stdfmt_string(value: &str) -> (out: String)
        ensures
            out@ == value@,
    {
        Raw.format_string(value)
    }

    fn stdfmt_i64(value: &i64) -> (out: String)
        ensures
            out@ == decimal_text(*value as int),
    {
        Raw.format_i64(value)
    }

    fn stdfmt_f64(decimal: &str) -> (out: String)
        ensures
            out@ == decimal@,
    {
        Raw.format_f64(decimal)
    }

    fn stdfmt_ip_addr(address: &str) -> (out: String)
        ensures
            out@ == address@,
    {
        Raw.format_ip(address)
    }

    fn stdfmt_datetime(value: &Timestamp) -> (out: String)
        ensures
            out@ == time_text(*value),
    {
        Raw.format_datetime(value)
    }

    fn stdfmt_object(value: &ObjectValue) -> (out: String)
        ensures
            out@ == wrapped(plain_syntax().object, member_texts(plain_syntax(), value@)),
    {
        Raw.format_object(value)
    }

    fn stdfmt_array(value: &[FieldStorage]) -> (out: String)
        ensures
            out@ == wrapped(plain_syntax().array, item_texts(plain_syntax(), fields_view(value@))),
    {
        Raw.format_array(value)
    }

    proof fn static_other_is_text(text: Seq<char>) {
    }

    fn stdfmt_field(field: &FieldStorage) -> (out: String)
        ensures
            out@ == text_of_field(plain_syntax(), field@),
    {
        Raw.format_field(field)
    }

    fn stdfmt_record(record: &DataRecord) -> (out: String)
        ensures
            out@ == text_of_record(plain_syntax(), record@.items),
    {
        Raw.format_record(record)
    }
}

/// What this encoder writes, kind by kind: the text of each kind of value,
/// of one member of an object, of a single field and of a record.
pub proof fn lemma_raw_texts(
    b: bool,
    n: int,
    s: Seq<char>,
    t: Timestamp,
    fields: Seq<FieldView>,
    field: FieldView,
    record: RecordView,
)
    ensures
        Raw.value_text(ValueView::Null) == Seq::<char>::empty(),
        Raw.value_text(ValueView::Bool(b)) == bool_text(b),
        Raw.value_text(ValueView::Chars(s)) == s,
        Raw.value_text(ValueView::Digit(n)) == decimal_text(n),
        Raw.value_text(ValueView::Float(s)) == s,
        Raw.value_text(ValueView::IpAddr(s)) == s,
        Raw.value_text(ValueView::Time(t)) == time_text(t),
        Raw.value_text(ValueView::Obj(fields)) == "{"@ + join(
            member_texts(plain_syntax(), fields),
            ", "@,
        ) + "}"@,
        Raw.value_text(ValueView::Array(fields)) == "["@ + join(
            item_texts(plain_syntax(), fields),
            ", "@,
        ) + "]"@,
        Raw.value_text(ValueView::Other(s)) == s,
        !field.ignored() ==> member_texts(plain_syntax(), seq![field]) == seq![
            field.name + "="@ + Raw.value_text(field.value),
        ],
        Raw.field_text(field) == Raw.value_text(field.value),
        Raw.record_text(record) == join(field_texts(plain_syntax(), record.items), " "@),
{
    reveal_strlit("");
    reveal_strlit("{");
    reveal_strlit("}");
    reveal_strlit("[");
    reveal_strlit("]");
    reveal_strlit(", ");
    reveal_strlit(" ");
    reveal_strlit("=");
    reveal_with_fuel(member_texts, 2);
}

} // verus!
