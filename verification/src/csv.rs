//! The comma-separated encoder.

use vstd::prelude::*;
use crate::formatter::{DataFormat, RecordFormatter, ValueFormatter, default_fmt_field};
use crate::model::{
    DataRecord, FieldStorage, FieldView, ObjectValue, RecordView, Value, ValueView, fields_view,
};
use crate::raw::Raw;
use crate::syntax::{
    Label, LabelView, Syntax, SyntaxView, Wrap, WrapView, field_texts, item_texts, member_texts,
    plain_syntax, render_address, render_array, render_object, render_record, render_string,
    render_time, render_value, text_of_record, text_of_value,
};
use crate::text::{bool_text, char_text, decimal_text, join, owned};
use crate::time::{Timestamp, time_text};

verus! {

/// Writes every scalar as its bare text and a record as its values with the
/// separator between them, names left out. An object and an array are
/// written as the plain encoder writes them.
#[derive(Clone, Copy, Debug, PartialEq, Eq, Structural)]
pub struct Csv {
    /// What stands between two values of a record.
    pub separator: char,
}

/// The rules of the comma-separated form with `separator` between the values
/// of a record.
pub open spec fn csv_syntax(separator: char) -> SyntaxView {
    SyntaxView {
        null: ""@,
        quote_text: false,
        quote_address: false,
        object: WrapView { open: "{"@, sep: ", "@, close: "}"@ },
        member: LabelView { quoted: false, sep: "="@ },
        array: WrapView { open: "["@, sep: ", "@, close: "]"@ },
        record: WrapView { open: ""@, sep: seq![separator], close: ""@ },
        field: None,
        blank_ignored: false,
    }
}

impl Csv {
    /// The encoder with a comma between values.
    pub fn new() -> (out: Csv)
        ensures
            out == (Csv { separator: ',' }),
    {
        Csv { separator: ',' }
    }

    /// The encoder with `separator` between values.
    pub fn with_separator(separator: char) -> (out: Csv)
        ensures
            out == (Csv { separator }),
    {
        Csv { separator }
    }

    /// The rules of this encoder.
    pub fn syntax(&self) -> (out: Syntax)
        ensures
            out@ == csv_syntax(self.separator),
    {
        Syntax {
            null: owned(""),
            quote_text: false,
            quote_address: false,
            object: Wrap { open: owned("{"), sep: owned(", "), close: owned("}") },
            member: Label { quoted: false, sep: owned("=") },
            array: Wrap { open: owned("["), sep: owned(", "), close: owned("]") },
            record: Wrap { open: owned(""), sep: char_text(self.separator), close: owned("") },
            field: None,
            blank_ignored: false,
        }
    }
}

impl Default for Csv {
    fn default() -> (out: Csv)
        ensures
            out == (Csv { separator: ',' }),
    {
        Csv::new()
    }
}

impl ValueFormatter for Csv {
    open spec fn value_text(&self, value: ValueView) -> Seq<char> {
        text_of_value(csv_syntax(self.separator), value)
    }

    fn format_value(&self, value: &Value) -> (out: String)
        ensures
            out@ == text_of_value(csv_syntax(self.separator), value@),
    {
        render_value(&self.syntax(), value)
    }
}

impl RecordFormatter for Csv {
    open spec fn field_text(&self, field: FieldView) -> Seq<char> {
        self.value_text(field.value)
    }

    open spec fn record_text(&self, record: RecordView) -> Seq<char> {
        text_of_record(csv_syntax(self.separator), record.items)
    }

    fn fmt_field(&self, field: &FieldStorage) -> (out: String)
        ensures
            out@ == text_of_value(csv_syntax(self.separator), field@.value),
    {
        default_fmt_field(self, field)
    }

    fn fmt_record(&self, record: &DataRecord) -> (out: String)
        ensures
            out@ == text_of_record(csv_syntax(self.separator), record@.items),
    {
        render_record(&self.syntax(), record)
    }
}

impl DataFormat for Csv {
    fn format_null(&self) -> (out: String)
        ensures
            out@ == ""@,
    {
        render_value(&self.syntax(), &Value::Null)
    }

    fn format_bool(&self, value: &bool) -> (out: String)
        ensures
            out@ == bool_text(*value),
    {
        render_value(&self.syntax(), &Value::Bool(*value))
    }

    fn format_string(&self, value: &str) -> (out: String)
        ensures
            out@ == value@,
    {
        render_string(&self.syntax(), value)
    }

    fn format_i64(&self, value: &i64) -> (out: String)
        ensures
            out@ == decimal_text(*value as int),
    {
        render_value(&self.syntax(), &Value::Digit(*value))
    }

    fn format_f64(&self, decimal: &str) -> (out: String)
        ensures
            out@ == decimal@,
    {
        owned(decimal)
    }

    fn format_ip(&self, address: &str) -> (out: String)
        ensures
            out@ == address@,
    {
        render_address(&self.syntax(), address)
    }

    fn format_datetime(&self, value: &Timestamp) -> (out: String)
        ensures
            out@ == time_text(*value),
    {
        render_time(&self.syntax(), value)
    }

    fn format_object(&self, value: &ObjectValue) -> (out: String)
        ensures
            out@ == text_of_value(csv_syntax(self.separator), ValueView::Obj(value@)),
    {
        render_object(&self.syntax(), value)
    }

    fn format_array(&self, value: &[FieldStorage]) -> (out: String)
        ensures
            out@ == text_of_value(
                csv_syntax(self.separator),
                ValueView::Array(fields_view(value@)),
            ),
    {
        render_array(&self.syntax(), value)
    }

    proof fn other_is_text(&self, text: Seq<char>) {
    }

    fn format_field(&self, field: &FieldStorage) -> (out: String)
        ensures
            out@ == text_of_value(csv_syntax(self.separator), field@.value),
    {
        default_fmt_field(self, field)
    }

    fn format_record(&self, record: &DataRecord) -> (out: String)
        ensures
            out@ == text_of_record(csv_syntax(self.separator), record@.items),
    {
        render_record(&self.syntax(), record)
    }
}

/// The comma-separated encoder writes every value as the plain encoder does.
pub proof fn lemma_csv_values_are_plain(csv: Csv, value: ValueView)
    ensures
        csv.value_text(value) == Raw.value_text(value),
    decreases value, 1nat,
{
    match value {
        ValueView::Obj(members) => {
            lemma_csv_lists_are_plain(csv, members);
        },
        ValueView::Array(items) => {
            lemma_csv_lists_are_plain(csv, items);
        },
        _ => {},
    }
}

/// The comma-separated encoder writes the members of an object and the items
/// of an array as the plain encoder does.
pub proof fn lemma_csv_lists_are_plain(csv: Csv, fields: Seq<FieldView>)
    ensures
        member_texts(csv_syntax(csv.separator), fields) == member_texts(plain_syntax(), fields),
        item_texts(csv_syntax(csv.separator), fields) == item_texts(plain_syntax(), fields),
    decreases fields, 0nat,
{
    if fields.len() > 0 {
        lemma_csv_lists_are_plain(csv, fields.drop_last());
        lemma_csv_values_are_plain(csv, fields.last().value);
    }
}

/// What this encoder writes: a single field by its value alone, and a record
/// as the values of its fields with the separator between them.
pub proof fn lemma_csv_texts(csv: Csv, field: FieldView, record: RecordView)
    ensures
        csv.field_text(field) == Raw.value_text(field.value),
        csv.record_text(record) == join(
            field_texts(csv_syntax(csv.separator), record.items),
            seq![csv.separator],
        ),
        csv.record_text(record) == join(item_texts(plain_syntax(), record.items), seq![
            csv.separator,
        ]),
{
    reveal_strlit("");
    lemma_csv_values_are_plain(csv, field.value);
    lemma_csv_record_by_values(csv, record.items);
}

/// The texts of a record's fields are the plain texts of their values.
proof fn lemma_csv_record_by_values(csv: Csv, fields: Seq<FieldView>)
    ensures
        field_texts(csv_syntax(csv.separator), fields) == item_texts(plain_syntax(), fields),
    decreases fields.len(),
{
    if fields.len() > 0 {
        lemma_csv_record_by_values(csv, fields.drop_last());
        lemma_csv_values_are_plain(csv, fields.last().value);
    }
}

} // verus!
