//! The encoder that writes a record as an SQL `INSERT` statement.

use vstd::prelude::*;
use vstd::string::StringExecFns;
use crate::dispatch::SqlFormat;
use crate::formatter::{DataFormat, RecordFormatter, ValueFormatter, default_fmt_field};
use crate::model::{
    DataRecord, FieldStorage, FieldView, ObjectValue, RecordView, Value, ValueView, fields_view,
};
use crate::syntax::{SyntaxView, Wrap, WrapView, item_texts, render_items, wrap_parts, wrapped};
use crate::text::{owned, texts};
use crate::time::Timestamp;

verus! {

/// Writes a record as
/// `INSERT INTO table (name, name) VALUES (value, value);`, the names and the
/// values in the order of the record's fields. The values, and every value
/// written alone, are written by the encoder in `base`.
#[derive(Debug)]
pub struct SqlInsert {
    /// The table the statement inserts into, written as it is.
    pub table: String,
    /// The encoder that writes the values.
    pub base: SqlFormat,
}

/// The names of the fields in order, the fields tagged `Ignore` left out.
pub open spec fn kept_names(fields: Seq<FieldView>) -> Seq<Seq<char>>
    decreases fields.len(),
{
    if fields.len() == 0 {
        Seq::empty()
    } else if fields.last().ignored() {
        kept_names(fields.drop_last())
    } else {
        kept_names(fields.drop_last()).push(fields.last().name)
    }
}

/// How the statement lists names and values: `(part, part)`.
pub open spec fn list_wrap() -> WrapView {
    WrapView { open: "("@, sep: ", "@, close: ")"@ }
}

/// The statement that inserts `fields` into `table`, the values written
/// under `rules`.
pub open spec fn insert_text(table: Seq<char>, rules: SyntaxView, fields: Seq<FieldView>) -> Seq<
    char,
> {
    "INSERT INTO "@ + table + " "@ + wrapped(list_wrap(), kept_names(fields)) + " VALUES "@
        + wrapped(list_wrap(), item_texts(rules, fields)) + ";"@
}

/// The names of the fields that are not tagged `Ignore`.
fn names_of(fields: &[FieldStorage]) -> (names: Vec<String>)
    ensures
        texts(names@) == kept_names(fields_view(fields@)),
{
    let ghost all = fields_view(fields@);
    let mut names: Vec<String> = Vec::new();
    let mut i: usize = 0;
    while i < fields.len()
        invariant
            i <= fields.len(),
            all == fields_view(fields@),
            texts(names@) == kept_names(all.take(i as int)),
        decreases fields.len() - i,
    {
        let field = &fields[i];
        proof {
            assert(all.take(i + 1).drop_last() =~= all.take(i as int));
        }
        if !field.is_ignored() {
            let name = owned(field.get_name());
            names.push(name);
        }
        i += 1;
    }
    proof {
        assert(all.take(fields.len() as int) =~= all);
    }
    names
}

impl SqlInsert {
    /// The encoder that inserts into `table` and writes values as `base`
    /// does.
    pub fn new(table: &str, base: SqlFormat) -> (out: SqlInsert)
        ensures
            out.table@ == table@,
            out.base == base,
    {
        SqlInsert { table: owned(table), base }
    }
}

impl ValueFormatter for SqlInsert {
    open spec fn value_text(&self, value: ValueView) -> Seq<char> {
        self.base.value_text(value)
    }

    fn format_value(&self, value: &Value) -> (out: String)
        ensures
            out@ == self.base.value_text(value@),
    {
        self.base.format_value(value)
    }
}

impl RecordFormatter for SqlInsert {
    open spec fn field_text(&self, field: FieldView) -> Seq<char> {
        self.value_text(field.value)
    }

    open spec fn record_text(&self, record: RecordView) -> Seq<char> {
        insert_text(self.table@, self.base.rules(), record.items)
    }

    fn fmt_field(&self, field: &FieldStorage) -> (out: String)
        ensures
            out@ == self.base.value_text(field@.value),
    {
        default_fmt_field(self, field)
    }

    fn fmt_record(&self, record: &DataRecord) -> (out: String)
        ensures
            out@ == insert_text(self.table@, self.base.rules(), record@.items),
    {
        let rules = self.base.syntax();
        let list = Wrap { open: owned("("), sep: owned(", "), close: owned(")") };
        let names = names_of(record.items.as_slice());
        let values = render_items(&rules, record.items.as_slice());
        let mut out = owned("INSERT INTO ");
        out.append(self.table.as_str());
        out.append(" ");
        out.append(wrap_parts(&list, &names).as_str());
        out.append(" VALUES ");
        out.append(wrap_parts(&list, &values).as_str());
        out.append(";");
        out
    }
}

impl DataFormat for SqlInsert {
    fn format_null(&self) -> (out: String)
        ensures
            out@ == self.base.value_text(ValueView::Null),
    {
        self.base.format_null()
    }

    fn format_bool(&self, value: &bool) -> (out: String)
        ensures
            out@ == self.base.value_text(ValueView::Bool(*value)),
    {
        self.base.format_bool(value)
    }

    fn format_string(&self, value: &str) -> (out: String)
        ensures
            out@ == self.base.value_text(ValueView::Chars(value@)),
    {
        self.base.format_string(value)
    }

    fn format_i64(&self, value: &i64) -> (out: String)
        ensures
            out@ == self.base.value_text(ValueView::Digit(*value as int)),
    {
        self.base.format_i64(value)
    }

    fn format_f64(&self, decimal: &str) -> (out: String)
        ensures
            out@ == self.base.value_text(ValueView::Float(decimal@)),
    {
        self.base.format_f64(decimal)
    }

    fn format_ip(&self, address: &str) -> (out: String)
        ensures
            out@ == self.base.value_text(ValueView::IpAddr(address@)),
    {
        self.base.format_ip(address)
    }

    fn format_datetime(&self, value: &Timestamp) -> (out: String)
        ensures
            out@ == self.base.value_text(ValueView::Time(*value)),
    {
        self.base.format_datetime(value)
    }

    fn format_object(&self, value: &ObjectValue) -> (out: String)
        ensures
            out@ == self.base.value_text(ValueView::Obj(value@)),
    {
        self.base.format_object(value)
    }

    fn format_array(&self, value: &[FieldStorage]) -> (out: String)
        ensures
            out@ == self.base.value_text(ValueView::Array(fields_view(value@))),
    {
        self.base.format_array(value)
    }

    proof fn other_is_text(&self, text: Seq<char>) {
        self.base.other_is_text(text);
    }

    fn format_field(&self, field: &FieldStorage) -> (out: String)
        ensures
            out@ == self.base.value_text(field@.value),
    {
        default_fmt_field(self, field)
    }

    fn format_record(&self, record: &DataRecord) -> (out: String)
        ensures
            out@ == insert_text(self.table@, self.base.rules(), record@.items),
    {
        self.fmt_record(record)
    }
}

} // verus!
