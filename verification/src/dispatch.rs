//! The choice of an encoder at run time: the formats a configuration can
//! name, and the two sums of encoders that are made from them and pass every
//! call on to the encoder they hold.

use vstd::prelude::*;
use vstd::std_specs::convert::FromSpecImpl;
use crate::csv::Csv;
use crate::formatter::{DataFormat, RecordFormatter, ValueFormatter};
use crate::json::{Json, json_syntax};
use crate::kv::{KeyValue, kv_syntax};
use crate::model::{
    DataRecord, FieldStorage, FieldView, ObjectValue, RecordView, Value, ValueView, fields_view,
};
use crate::proto::{ProtoTxt, proto_syntax};
use crate::raw::Raw;
use crate::sql::SqlInsert;
use crate::syntax::{Syntax, SyntaxView, plain_syntax};
use crate::time::Timestamp;

verus! {

/// The formats a configuration can name.
#[derive(Clone, Copy, Debug, PartialEq, Eq, Structural)]
pub enum TextFmt {
    Json,
    Csv,
    Show,
    Kv,
    Raw,
    Proto,
    ProtoText,
}

/// The encoder in use, of all six.
#[derive(Debug)]
pub enum FormatType {
    Json(Json),
    Csv(Csv),
    Kv(KeyValue),
    Sql(SqlInsert),
    Raw(Raw),
    ProtoText(ProtoTxt),
}

/// The encoder in use, of those that can write a value inside an SQL
/// statement.
#[derive(Clone, Copy, Debug, PartialEq, Eq, Structural)]
pub enum SqlFormat {
    Json(Json),
    Kv(KeyValue),
    Raw(Raw),
    ProtoText(ProtoTxt),
}

/// The encoder for a format: `Show` is written by the plain encoder and
/// `Proto` by the proto-text encoder; the comma-separated encoder is made
/// with a comma.
pub open spec fn format_type_for(fmt: TextFmt) -> FormatType {
    match fmt {
        TextFmt::Json => FormatType::Json(Json),
        TextFmt::Csv => FormatType::Csv(Csv { separator: ',' }),
        TextFmt::Kv => FormatType::Kv(KeyValue),
        TextFmt::Raw => FormatType::Raw(Raw),
        TextFmt::ProtoText => FormatType::ProtoText(ProtoTxt),
        TextFmt::Show => FormatType::Raw(Raw),
        TextFmt::Proto => FormatType::ProtoText(ProtoTxt),
    }
}

/// The encoder for a format where a value goes into an SQL statement: the
/// encoder of the format for `Json`, `Kv`, `Raw` and `ProtoText`, the plain
/// encoder for every other format.
pub open spec fn sql_format_for(fmt: TextFmt) -> SqlFormat {
    match fmt {
        TextFmt::Json => SqlFormat::Json(Json),
        TextFmt::Kv => SqlFormat::Kv(KeyValue),
        TextFmt::Raw => SqlFormat::Raw(Raw),
        TextFmt::ProtoText => SqlFormat::ProtoText(ProtoTxt),
        _ => SqlFormat::Raw(Raw),
    }
}

impl From<&TextFmt> for FormatType {
    fn from(fmt: &TextFmt) -> (out: FormatType)
        ensures
            out == format_type_for(*fmt),
    {
        match fmt {
            TextFmt::Json => FormatType::Json(Json),
            TextFmt::Csv => FormatType::Csv(Csv::new()),
            TextFmt::Kv => FormatType::Kv(KeyValue),
            TextFmt::Raw => FormatType::Raw(Raw),
            TextFmt::ProtoText => FormatType::ProtoText(ProtoTxt),
            TextFmt::Show => FormatType::Raw(Raw),
            TextFmt::Proto => FormatType::ProtoText(ProtoTxt),
        }
    }
}

impl FromSpecImpl<&TextFmt> for FormatType {
    open spec fn obeys_from_spec() -> bool {
        true
    }

    open spec fn from_spec(fmt: &TextFmt) -> FormatType {
        format_type_for(*fmt)
    }
}

impl From<&TextFmt> for SqlFormat {
    fn from(fmt: &TextFmt) -> (out: SqlFormat)
        ensures
            out == sql_format_for(*fmt),
    {
        match fmt {
            TextFmt::Json => SqlFormat::Json(Json),
            TextFmt::Kv => SqlFormat::Kv(KeyValue),
            TextFmt::Raw => SqlFormat::Raw(Raw),
            TextFmt::ProtoText => SqlFormat::ProtoText(ProtoTxt),
            _ => SqlFormat::Raw(Raw),
        }
    }
}

impl FromSpecImpl<&TextFmt> for SqlFormat {
    open spec fn obeys_from_spec() -> bool {
        true
    }

    open spec fn from_spec(fmt: &TextFmt) -> SqlFormat {
        sql_format_for(*fmt)
    }
}

impl SqlFormat {
    /// The rules of the encoder in use.
    pub open spec fn rules(&self) -> SyntaxView {
        match self {
            SqlFormat::Json(_) => json_syntax(),
            SqlFormat::Kv(_) => kv_syntax(),
            SqlFormat::Raw(_) => plain_syntax(),
            SqlFormat::ProtoText(_) => proto_syntax(),
        }
    }

    /// The rules of the encoder in use.
    pub fn syntax(&self) -> (out: Syntax)
        ensures
            out@ == self.rules(),
    {
        match self {
            SqlFormat::Json(f) => f.syntax(),
            SqlFormat::Kv(f) => f.syntax(),
            SqlFormat::Raw(f) => f.syntax(),
            SqlFormat::ProtoText(f) => f.syntax(),
        }
    }
}

impl ValueFormatter for FormatType {
    open spec fn value_text(&self, value: ValueView) -> Seq<char> {
        match self {
            FormatType::Json(f) => f.value_text(value),
            FormatType::Csv(f) => f.value_text(value),
            FormatType::Kv(f) => f.value_text(value),
            FormatType::Sql(f) => f.value_text(value),
            FormatType::Raw(f) => f.value_text(value),
            FormatType::ProtoText(f) => f.value_text(value),
        }
    }

    fn format_value(&self, value: &Value) -> (out: String)
        ensures
            out@ == self.value_text(value@),
    {
        match self {
            FormatType::Json(f) => f.format_value(value),
            FormatType::Csv(f) => f.format_value(value),
            FormatType::Kv(f) => f.format_value(value),
            FormatType::Sql(f) => f.format_value(value),
            FormatType::Raw(f) => f.format_value(value),
            FormatType::ProtoText(f) => f.format_value(value),
        }
    }
}

impl RecordFormatter for FormatType {
    open spec fn field_text(&self, field: FieldView) -> Seq<char> {
        match self {
            FormatType::Json(f) => f.field_text(field),
            FormatType::Csv(f) => f.field_text(field),
            FormatType::Kv(f) => f.field_text(field),
            FormatType::Sql(f) => f.field_text(field),
            FormatType::Raw(f) => f.field_text(field),
            FormatType::ProtoText(f) => f.field_text(field),
        }
    }

    open spec fn record_text(&self, record: RecordView) -> Seq<char> {
        match self {
            FormatType::Json(f) => f.record_text(record),
            FormatType::Csv(f) => f.record_text(record),
            FormatType::Kv(f) => f.record_text(record),
            FormatType::Sql(f) => f.record_text(record),
            FormatType::Raw(f) => f.record_text(record),
            FormatType::ProtoText(f) => f.record_text(record),
        }
    }

    fn fmt_field(&self, field: &FieldStorage) -> (out: String)
        ensures
            out@ == self.field_text(field@),
    {
        match self {
            FormatType::Json(f) => f.fmt_field(field),
            FormatType::Csv(f) => f.fmt_field(field),
            FormatType::Kv(f) => f.fmt_field(field),
            FormatType::Sql(f) => f.fmt_field(field),
            FormatType::Raw(f) => f.fmt_field(field),
            FormatType::ProtoText(f) => f.fmt_field(field),
        }
    }

    fn fmt_record(&self, record: &DataRecord) -> (out: String)
        ensures
            out@ == self.record_text(record@),
    {
        match self {
            FormatType::Json(f) => f.fmt_record(record),
            FormatType::Csv(f) => f.fmt_record(record),
            FormatType::Kv(f) => f.fmt_record(record),
            FormatType::Sql(f) => f.fmt_record(record),
            FormatType::Raw(f) => f.fmt_record(record),
            FormatType::ProtoText(f) => f.fmt_record(record),
        }
    }
}

impl DataFormat for FormatType {
    fn format_null(&self) -> (out: String)
        ensures
            out@ == self.value_text(ValueView::Null),
    {
        match self {
            FormatType::Json(f) => f.format_null(),
            FormatType::Csv(f) => f.format_null(),
            FormatType::Kv(f) => f.format_null(),
            FormatType::Sql(f) => f.format_null(),
            FormatType::Raw(f) => f.format_null(),
            FormatType::ProtoText(f) => f.format_null(),
        }
    }

    fn format_bool(&self, value: &bool) -> (out: String)
        ensures
            out@ == self.value_text(ValueView::Bool(*value)),
    {
        match self {
            FormatType::Json(f) => f.format_bool(value),
            FormatType::Csv(f) => f.format_bool(value),
            FormatType::Kv(f) => f.format_bool(value),
            FormatType::Sql(f) => f.format_bool(value),
            FormatType::Raw(f) => f.format_bool(value),
            FormatType::ProtoText(f) => f.format_bool(value),
        }
    }

    fn format_string(&self, value: &str) -> (out: String)
        ensures
            out@ == self.value_text(ValueView::Chars(value@)),
    {
        match self {
            FormatType::Json(f) => f.format_string(value),
            FormatType::Csv(f) => f.format_string(value),
            FormatType::Kv(f) => f.format_string(value),
            FormatType::Sql(f) => f.format_string(value),
            FormatType::Raw(f) => f.format_string(value),
            FormatType::ProtoText(f) => f.format_string(value),
        }
    }

    fn format_i64(&self, value: &i64) -> (out: String)
        ensures
            out@ == self.value_text(ValueView::Digit(*value as int)),
    {
        match self {
            FormatType::Json(f) => f.format_i64(value),
            FormatType::Csv(f) => f.format_i64(value),
            FormatType::Kv(f) => f.format_i64(value),
            FormatType::Sql(f) => f.format_i64(value),
            FormatType::Raw(f) => f.format_i64(value),
            FormatType::ProtoText(f) => f.format_i64(value),
        }
    }

    fn format_f64(&self, decimal: &str) -> (out: String)
        ensures
            out@ == self.value_text(ValueView::Float(decimal@)),
    {
        match self {
            FormatType::Json(f) => f.format_f64(decimal),
            FormatType::Csv(f) => f.format_f64(decimal),
            FormatType::Kv(f) => f.format_f64(decimal),
            FormatType::Sql(f) => f.format_f64(decimal),
            FormatType::Raw(f) => f.format_f64(decimal),
            FormatType::ProtoText(f) => f.format_f64(decimal),
        }
    }

    fn format_ip(&self, address: &str) -> (out: String)
        ensures
            out@ == self.value_text(ValueView::IpAddr(address@)),
    {
        match self {
            FormatType::Json(f) => f.format_ip(address),
            FormatType::Csv(f) => f.format_ip(address),
            FormatType::Kv(f) => f.format_ip(address),
            FormatType::Sql(f) => f.format_ip(address),
            FormatType::Raw(f) => f.format_ip(address),
            FormatType::ProtoText(f) => f.format_ip(address),
        }
    }

    fn format_datetime(&self, value: &Timestamp) -> (out: String)
        ensures
            out@ == self.value_text(ValueView::Time(*value)),
    {
        match self {
            FormatType::Json(f) => f.format_datetime(value),
            FormatType::Csv(f) => f.format_datetime(value),
            FormatType::Kv(f) => f.format_datetime(value),
            FormatType::Sql(f) => f.format_datetime(value),
            FormatType::Raw(f) => f.format_datetime(value),
            FormatType::ProtoText(f) => f.format_datetime(value),
        }
    }

    fn format_object(&self, value: &ObjectValue) -> (out: String)
        ensures
            out@ == self.value_text(ValueView::Obj(value@)),
    {
        match self {
            FormatType::Json(f) => f.format_object(value),
            FormatType::Csv(f) => f.format_object(value),
            FormatType::Kv(f) => f.format_object(value),
            FormatType::Sql(f) => f.format_object(value),
            FormatType::Raw(f) => f.format_object(value),
            FormatType::ProtoText(f) => f.format_object(value),
        }
    }

    fn format_array(&self, value: &[FieldStorage]) -> (out: String)
        ensures
            out@ == self.value_text(ValueView::Array(fields_view(value@))),
    {
        match self {
            FormatType::Json(f) => f.format_array(value),
            FormatType::Csv(f) => f.format_array(value),
            FormatType::Kv(f) => f.format_array(value),
            FormatType::Sql(f) => f.format_array(value),
            FormatType::Raw(f) => f.format_array(value),
            FormatType::ProtoText(f) => f.format_array(value),
        }
    }

    proof fn other_is_text(&self, text: Seq<char>) {
        match self {
            FormatType::Json(f) => f.other_is_text(text),
            FormatType::Csv(f) => f.other_is_text(text),
            FormatType::Kv(f) => f.other_is_text(text),
            FormatType::Sql(f) => f.other_is_text(text),
            FormatType::Raw(f) => f.other_is_text(text),
            FormatType::ProtoText(f) => f.other_is_text(text),
        }
    }

    fn format_field(&self, field: &FieldStorage) -> (out: String)
        ensures
            out@ == self.field_text(field@),
    {
        match self {
            FormatType::Json(f) => f.format_field(field),
            FormatType::Csv(f) => f.format_field(field),
            FormatType::Kv(f) => f.format_field(field),
            FormatType::Sql(f) => f.format_field(field),
            FormatType::Raw(f) => f.format_field(field),
            FormatType::ProtoText(f) => f.format_field(field),
        }
    }

    fn format_record(&self, record: &DataRecord) -> (out: String)
        ensures
            out@ == self.record_text(record@),
    {
        match self {
            FormatType::Json(f) => f.format_record(record),
            FormatType::Csv(f) => f.format_record(record),
            FormatType::Kv(f) => f.format_record(record),
            FormatType::Sql(f) => f.format_record(record),
            FormatType::Raw(f) => f.format_record(record),
            FormatType::ProtoText(f) => f.format_record(record),
        }
    }
}

impl ValueFormatter for SqlFormat {
    open spec fn value_text(&self, value: ValueView) -> Seq<char> {
        match self {
            SqlFormat::Json(f) => f.value_text(value),
            SqlFormat::Kv(f) => f.value_text(value),
            SqlFormat::Raw(f) => f.value_text(value),
            SqlFormat::ProtoText(f) => f.value_text(value),
        }
    }

    fn format_value(&self, value: &Value) -> (out: String)
        ensures
            out@ == self.value_text(value@),
    {
        match self {
            SqlFormat::Json(f) => f.format_value(value),
            SqlFormat::Kv(f) => f.format_value(value),
            SqlFormat::Raw(f) => f.format_value(value),
            SqlFormat::ProtoText(f) => f.format_value(value),
        }
    }
}

impl RecordFormatter for SqlFormat {
    open spec fn field_text(&self, field: FieldView) -> Seq<char> {
        match self {
            SqlFormat::Json(f) => f.field_text(field),
            SqlFormat::Kv(f) => f.field_text(field),
            SqlFormat::Raw(f) => f.field_text(field),
            SqlFormat::ProtoText(f) => f.field_text(field),
        }
    }

    open spec fn record_text(&self, record: RecordView) -> Seq<char> {
        match self {
            SqlFormat::Json(f) => f.record_text(record),
            SqlFormat::Kv(f) => f.record_text(record),
            SqlFormat::Raw(f) => f.record_text(record),
            SqlFormat::ProtoText(f) => f.record_text(record),
        }
    }

    fn fmt_field(&self, field: &FieldStorage) -> (out: String)
        ensures
            out@ == self.field_text(field@),
    {
        match self {
            SqlFormat::Json(f) => f.fmt_field(field),
            SqlFormat::Kv(f) => f.fmt_field(field),
            SqlFormat::Raw(f) => f.fmt_field(field),
            SqlFormat::ProtoText(f) => f.fmt_field(field),
        }
    }

    fn fmt_record(&self, record: &DataRecord) -> (out: String)
        ensures
            out@ == self.record_text(record@),
    {
        match self {
            SqlFormat::Json(f) => f.fmt_record(record),
            SqlFormat::Kv(f) => f.fmt_record(record),
            SqlFormat::Raw(f) => f.fmt_record(record),
            SqlFormat::ProtoText(f) => f.fmt_record(record),
        }
    }
}

impl DataFormat for SqlFormat {
    fn format_null(&self) -> (out: String)
        ensures
            out@ == self.value_text(ValueView::Null),
    {
        match self {
            SqlFormat::Json(f) => f.format_null(),
            SqlFormat::Kv(f) => f.format_null(),
            SqlFormat::Raw(f) => f.format_null(),
            SqlFormat::ProtoText(f) => f.format_null(),
        }
    }

    fn format_bool(&self, value: &bool) -> (out: String)
        ensures
            out@ == self.value_text(ValueView::Bool(*value)),
    {
        match self {
            SqlFormat::Json(f) => f.format_bool(value),
            SqlFormat::Kv(f) => f.format_bool(value),
            SqlFormat::Raw(f) => f.format_bool(value),
            SqlFormat::ProtoText(f) => f.format_bool(value),
        }
    }

    fn format_string(&self, value: &str) -> (out: String)
        ensures
            out@ == self.value_text(ValueView::Chars(value@)),
    {
        match self {
            SqlFormat::Json(f) => f.format_string(value),
            SqlFormat::Kv(f) => f.format_string(value),
            SqlFormat::Raw(f) => f.format_string(value),
            SqlFormat::ProtoText(f) => f.format_string(value),
        }
    }

    fn format_i64(&self, value: &i64) -> (out: String)
        ensures
            out@ == self.value_text(ValueView::Digit(*value as int)),
    {
        match self {
            SqlFormat::Json(f) => f.format_i64(value),
            SqlFormat::Kv(f) => f.format_i64(value),
            SqlFormat::Raw(f) => f.format_i64(value),
            SqlFormat::ProtoText(f) => f.format_i64(value),
        }
    }

    fn format_f64(&self, decimal: &str) -> (out: String)
        ensures
            out@ == self.value_text(ValueView::Float(decimal@)),
    {
        match self {
            SqlFormat::Json(f) => f.format_f64(decimal),
            SqlFormat::Kv(f) => f.format_f64(decimal),
            SqlFormat::Raw(f) => f.format_f64(decimal),
            SqlFormat::ProtoText(f) => f.format_f64(decimal),
        }
    }

    fn format_ip(&self, address: &str) -> (out: String)
        ensures
            out@ == self.value_text(ValueView::IpAddr(address@)),
    {
        match self {
            SqlFormat::Json(f) => f.format_ip(address),
            SqlFormat::Kv(f) => f.format_ip(address),
            SqlFormat::Raw(f) => f.format_ip(address),
            SqlFormat::ProtoText(f) => f.format_ip(address),
        }
    }

    fn format_datetime(&self, value: &Timestamp) -> (out: String)
        ensures
            out@ == self.value_text(ValueView::Time(*value)),
    {
        match self {
            SqlFormat::Json(f) => f.format_datetime(value),
            SqlFormat::Kv(f) => f.format_datetime(value),
            SqlFormat::Raw(f) => f.format_datetime(value),
            SqlFormat::ProtoText(f) => f.format_datetime(value),
        }
    }

    fn format_object(&self, value: &ObjectValue) -> (out: String)
        ensures
            out@ == self.value_text(ValueView::Obj(value@)),
    {
        match self {
            SqlFormat::Json(f) => f.format_object(value),
            SqlFormat::Kv(f) => f.format_object(value),
            SqlFormat::Raw(f) => f.format_object(value),
            SqlFormat::ProtoText(f) => f.format_object(value),
        }
    }

    fn format_array(&self, value: &[FieldStorage]) -> (out: String)
        ensures
            out@ == self.value_text(ValueView::Array(fields_view(value@))),
    {
        match self {
            SqlFormat::Json(f) => f.format_array(value),
            SqlFormat::Kv(f) => f.format_array(value),
            SqlFormat::Raw(f) => f.format_array(value),
            SqlFormat::ProtoText(f) => f.format_array(value),
        }
    }

    proof fn other_is_text(&self, text: Seq<char>) {
        match self {
            SqlFormat::Json(f) => f.other_is_text(text),
            SqlFormat::Kv(f) => f.other_is_text(text),
            SqlFormat::Raw(f) => f.other_is_text(text),
            SqlFormat::ProtoText(f) => f.other_is_text(text),
        }
    }

    fn format_field(&self, field: &FieldStorage) -> (out: String)
        ensures
            out@ == self.field_text(field@),
    {
        match self {
            SqlFormat::Json(f) => f.format_field(field),
            SqlFormat::Kv(f) => f.format_field(field),
            SqlFormat::Raw(f) => f.format_field(field),
            SqlFormat::ProtoText(f) => f.format_field(field),
        }
    }

    fn format_record(&self, record: &DataRecord) -> (out: String)
        ensures
            out@ == self.record_text(record@),
    {
        match self {
            SqlFormat::Json(f) => f.format_record(record),
            SqlFormat::Kv(f) => f.format_record(record),
            SqlFormat::Raw(f) => f.format_record(record),
            SqlFormat::ProtoText(f) => f.format_record(record),
        }
    }
}

} // verus!
