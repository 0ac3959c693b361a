//! The two capabilities of an encoder, and the older single interface that
//! is kept beside them.

use vstd::prelude::*;
use crate::model::{
    DataRecord, FieldStorage, FieldView, ObjectValue, RecordView, Value, ValueView, fields_view,
};
use crate::time::Timestamp;

verus! {

/// Writes a value as text.
pub trait ValueFormatter {
    /// The text this encoder gives `value`.
    spec fn value_text(&self, value: ValueView) -> Seq<char>;

    /// Writes any value. Every value has a text: there is no input on which
    /// this fails.
    fn format_value(&self, value: &Value) -> (out: String)
        ensures
            out@ == self.value_text(value@),
    ;
}

/// Writes a field and a record as text.
pub trait RecordFormatter: ValueFormatter {
    /// The text this encoder gives a single field.
    spec fn field_text(&self, field: FieldView) -> Seq<char>;

    /// The text this encoder gives a record.
    spec fn record_text(&self, record: RecordView) -> Seq<char>;

    /// Writes a single field.
    fn fmt_field(&self, field: &FieldStorage) -> (out: String)
        ensures
            out@ == self.field_text(field@),
    ;

    /// Writes a record.
    fn fmt_record(&self, record: &DataRecord) -> (out: String)
        ensures
            out@ == self.record_text(record@),
    ;
}

/// What an encoder does with a field when it has no rule of its own for
/// fields: it writes the value and leaves the name out.
pub fn default_fmt_field<F: ValueFormatter>(formatter: &F, field: &FieldStorage) -> (out: String)
    ensures
        out@ == formatter.value_text(field@.value),
{
    formatter.format_value(field.get_value())
}

/// The older interface: one method for each kind of value, and `fmt_value`,
/// which looks at the kind and calls the method for it. Every method returns
/// what the newer interface returns for the same input.
pub trait DataFormat: RecordFormatter {
    /// Writes the null value.
    fn format_null(&self) -> (out: String)
        ensures
            out@ == self.value_text(ValueView::Null),
    ;

    /// Writes a truth value.
    fn format_bool(&self, value: &bool) -> (out: String)
        ensures
            out@ == self.value_text(ValueView::Bool(*value)),
    ;

    /// Writes a text value.
    fn format_string(&self, value: &str) -> (out: String)
        ensures
            out@ == self.value_text(ValueView::Chars(value@)),
    ;

    /// Writes an integer.
    fn format_i64(&self, value: &i64) -> (out: String)
        ensures
            out@ == self.value_text(ValueView::Digit(*value as int)),
    ;

    /// Writes a floating-point number, given by its decimal text.
    fn format_f64(&self, decimal: &str) -> (out: String)
        ensures
            out@ == self.value_text(ValueView::Float(decimal@)),
    ;

    /// Writes a network address, given by its text form.
    fn format_ip(&self, address: &str) -> (out: String)
        ensures
            out@ == self.value_text(ValueView::IpAddr(address@)),
    ;

    /// Writes a point in time.
    fn format_datetime(&self, value: &Timestamp) -> (out: String)
        ensures
            out@ == self.value_text(ValueView::Time(*value)),
    ;

    /// Writes an object.
    fn format_object(&self, value: &ObjectValue) -> (out: String)
        ensures
            out@ == self.value_text(ValueView::Obj(value@)),
    ;

    /// Writes an array.
    fn format_array(&self, value: &[FieldStorage]) -> (out: String)
        ensures
            out@ == self.value_text(ValueView::Array(fields_view(value@))),
    ;

    /// A value of a kind without a method of its own is written as the text
    /// value that holds its plain text.
    proof fn other_is_text(&self, text: Seq<char>)
        ensures
            self.value_text(ValueView::Other(text)) == self.value_text(ValueView::Chars(text)),
    ;

    /// Looks at the kind of `value` and calls the method for it.
    fn fmt_value(&self, value: &Value) -> (out: String)
        ensures
            out@ == self.value_text(value@),
    {
        match value {
            Value::Null => self.format_null(),
            Value::Bool(v) => self.format_bool(v),
            Value::Chars(v) => self.format_string(v.as_str()),
            Value::Digit(v) => self.format_i64(v),
            Value::Float(v) => self.format_f64(v.as_str()),
            Value::IpAddr(v) => self.format_ip(v.as_str()),
            Value::Time(v) => self.format_datetime(v),
            Value::Obj(v) => self.format_object(v),
            Value::Array(v) => self.format_array(v.as_slice()),
            Value::Other(v) => {
                proof {
                    self.other_is_text(v@);
                }
                self.format_string(v.as_str())
            },
        }
    }

    /// Writes a single field, as `fmt_field` does.
    fn format_field(&self, field: &FieldStorage) -> (out: String)
        ensures
            out@ == self.field_text(field@),
    ;

    /// Writes a record, as `fmt_record` does.
    fn format_record(&self, record: &DataRecord) -> (out: String)
        ensures
            out@ == self.record_text(record@),
    ;
}

/// The older interface for an encoder that holds nothing: the same methods
/// as associated functions, and `stdfmt_value`, which looks at the kind of a
/// value and calls the function for it.
pub trait StaticDataFormatter {
    /// The text this encoder gives `value`.
    spec fn static_value_text(value: ValueView) -> Seq<char>;

    /// The text this encoder gives a single field.
    spec fn static_field_text(field: FieldView) -> Seq<char>;

    /// The text this encoder gives a record.
    spec fn static_record_text(record: RecordView) -> Seq<char>;

    /// Writes the null value.
    fn stdfmt_null() -> (out: String)
        ensures
            out@ == Self::static_value_text(ValueView::Null),
    ;

    /// Writes a truth value.
    fn stdfmt_bool(value: &bool) -> (out: String)
        ensures
            out@ == Self::static_value_text(ValueView::Bool(*value)),
    ;

    /// Writes a text value.
    fn stdfmt_string(value: &str) -> (out: String)
        ensures
            out@ == Self::static_value_text(ValueView::Chars(value@)),
    ;

    /// Writes an integer.
    fn stdfmt_i64(value: &i64) -> (out: String)
        ensures
            out@ == Self::static_value_text(ValueView::Digit(*value as int)),
    ;

    /// Writes a floating-point number, given by its decimal text.
    fn stdfmt_f64(decimal: &str) -> (out: String)
        ensures
            out@ == Self::static_value_text(ValueView::Float(decimal@)),
    ;

    /// Writes a network address, given by its text form.
    fn stdfmt_ip_addr(address: &str) -> (out: String)
        ensures
            out@ == Self::static_value_text(ValueView::IpAddr(address@)),
    ;

    /// Writes a point in time.
    fn stdfmt_datetime(value: &Timestamp) -> (out: String)
        ensures
            out@ == Self::static_value_text(ValueView::Time(*value)),
    ;

    /// Writes an object.
    fn stdfmt_object(value: &ObjectValue) -> (out: String)
        ensures
            out@ == Self::static_value_text(ValueView::Obj(value@)),
    ;

    /// Writes an array.
    fn stdfmt_array(value: &[FieldStorage]) -> (out: String)
        ensures
            out@ == Self::static_value_text(ValueView::Array(fields_view(value@))),
    ;

    /// A value of a kind without a function of its own is written as the
    /// text value that holds its plain text.
    proof fn static_other_is_text(text: Seq<char>)
        ensures
            Self::static_value_text(ValueView::Other(text)) == Self::static_value_text(
                ValueView::Chars(text),
            ),
    ;

    /// Looks at the kind of `value` and calls the function for it.
    fn stdfmt_value(value: &Value) -> (out: String)
        ensures
            out@ == Self::static_value_text(value@),
    {
        match value {
            Value::Null => Self::stdfmt_null(),
            Value::Bool(v) => Self::stdfmt_bool(v),
            Value::Chars(v) => Self::stdfmt_string(v.as_str()),
            Value::Digit(v) => Self::stdfmt_i64(v),
            Value::Float(v) => Self::stdfmt_f64(v.as_str()),
            Value::IpAddr(v) => Self::stdfmt_ip_addr(v.as_str()),
            Value::Time(v) => Self::stdfmt_datetime(v),
            Value::Obj(v) => Self::stdfmt_object(v),
            Value::Array(v) => Self::stdfmt_array(v.as_slice()),
            Value::Other(v) => {
                proof {
                    Self::static_other_is_text(v@);
                }
                Self::stdfmt_string(v.as_str())
            },
        }
    }

    /// Writes a single field.
    fn stdfmt_field(field: &FieldStorage) -> (out: String)
        ensures
            out@ == Self::static_field_text(field@),
    ;

    /// Writes a record.
    fn stdfmt_record(record: &DataRecord) -> (out: String)
        ensures
            out@ == Self::static_record_text(record@),
    ;
}

} // verus!
