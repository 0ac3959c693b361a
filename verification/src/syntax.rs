//! The rules by which an encoder writes a value, a field and a record, as a
//! table (`Syntax`), the text that a table gives a value (`text_of_value` and
//! its companions), and the functions that compute that text.

use vstd::prelude::*;
use vstd::string::StringExecFns;
use crate::model::{DataRecord, FieldStorage, FieldView, ObjectValue, Value, ValueView, fields_view};
use crate::text::{
    bool_text, bool_word, decimal, decimal_text, join, join_texts, owned, quote, quoted, texts,
};
use crate::time::{Timestamp, time_text};

verus! {

/// How a list of parts is written: what opens it, what stands between two
/// parts, what closes it.
#[derive(Debug)]
pub struct Wrap {
    pub open: String,
    pub sep: String,
    pub close: String,
}

/// How a name is written before a value: between double quotes or bare, and
/// what stands between the name and the value.
#[derive(Debug)]
pub struct Label {
    pub quoted: bool,
    pub sep: String,
}

/// One encoder's rules.
#[derive(Debug)]
pub struct Syntax {
    /// The text of the null value.
    pub null: String,
    /// Whether a text value stands between double quotes.
    pub quote_text: bool,
    /// Whether a network address and a point in time stand between double
    /// quotes.
    pub quote_address: bool,
    /// How the members of an object are listed.
    pub object: Wrap,
    /// How a member's name is written before its value.
    pub member: Label,
    /// How the items of an array are listed.
    pub array: Wrap,
    /// How the fields of a record are listed.
    pub record: Wrap,
    /// How a field's name is written before its value in a record. `None`:
    /// the value stands alone.
    pub field: Option<Label>,
    /// Whether a single field tagged `Ignore` is written as the empty text.
    pub blank_ignored: bool,
}

/// What a `Wrap` is, mathematically.
pub struct WrapView {
    pub open: Seq<char>,
    pub sep: Seq<char>,
    pub close: Seq<char>,
}

/// What a `Label` is, mathematically.
pub struct LabelView {
    pub quoted: bool,
    pub sep: Seq<char>,
}

/// What a `Syntax` is, mathematically.
pub struct SyntaxView {
    pub null: Seq<char>,
    pub quote_text: bool,
    pub quote_address: bool,
    pub object: WrapView,
    pub member: LabelView,
    pub array: WrapView,
    pub record: WrapView,
    pub field: Option<LabelView>,
    pub blank_ignored: bool,
}

impl View for Wrap {
    type V = WrapView;

    open spec fn view(&self) -> WrapView {
        WrapView { open: self.open@, sep: self.sep@, close: self.close@ }
    }
}

impl View for Label {
    type V = LabelView;

    open spec fn view(&self) -> LabelView {
        LabelView { quoted: self.quoted, sep: self.sep@ }
    }
}

/// The view of a name rule that may be missing.
pub open spec fn label_view(label: Option<Label>) -> Option<LabelView> {
    match label {
        Some(l) => Some(l@),
        None => None,
    }
}

impl View for Syntax {
    type V = SyntaxView;

    open spec fn view(&self) -> SyntaxView {
        SyntaxView {
            null: self.null@,
            quote_text: self.quote_text,
            quote_address: self.quote_address,
            object: self.object@,
            member: self.member@,
            array: self.array@,
            record: self.record@,
            field: label_view(self.field),
            blank_ignored: self.blank_ignored,
        }
    }
}

/// The plain rules: texts, addresses and times bare; an object as
/// `{name=value, name=value}`; an array as `[value, value]`; a record as its
/// values with one space between them.
pub open spec fn plain_syntax() -> SyntaxView {
    SyntaxView {
        null: ""@,
        quote_text: false,
        quote_address: false,
        object: WrapView { open: "{"@, sep: ", "@, close: "}"@ },
        member: LabelView { quoted: false, sep: "="@ },
        array: WrapView { open: "["@, sep: ", "@, close: "]"@ },
        record: WrapView { open: ""@, sep: " "@, close: ""@ },
        field: None,
        blank_ignored: false,
    }
}

/// A text value under the rules: between double quotes with its own double
/// quotes escaped, or as it is.
pub open spec fn text_of_string(syntax: SyntaxView, s: Seq<char>) -> Seq<char> {
    if syntax.quote_text {
        quoted(s)
    } else {
        s
    }
}

/// The text form of an address or a time under the rules.
pub open spec fn text_of_address(syntax: SyntaxView, s: Seq<char>) -> Seq<char> {
    if syntax.quote_address {
        quoted(s)
    } else {
        s
    }
}

/// A name as the rule writes it before a value.
pub open spec fn text_of_label(label: LabelView, name: Seq<char>) -> Seq<char> {
    if label.quoted {
        quoted(name) + label.sep
    } else {
        name + label.sep
    }
}

/// The parts between what opens and what closes the list.
pub open spec fn wrapped(wrap: WrapView, parts: Seq<Seq<char>>) -> Seq<char> {
    wrap.open + join(parts, wrap.sep) + wrap.close
}

/// The text of a value under the rules.
pub open spec fn text_of_value(syntax: SyntaxView, value: ValueView) -> Seq<char>
    decreases value,
{
    match value {
        ValueView::Null => syntax.null,
        ValueView::Bool(b) => bool_text(b),
        ValueView::Chars(s) => text_of_string(syntax, s),
        ValueView::Digit(n) => decimal_text(n),
        ValueView::Float(s) => s,
        ValueView::IpAddr(s) => text_of_address(syntax, s),
        ValueView::Time(t) => text_of_address(syntax, time_text(t)),
        ValueView::Obj(members) => wrapped(syntax.object, member_texts(syntax, members)),
        ValueView::Array(items) => wrapped(syntax.array, item_texts(syntax, items)),
        ValueView::Other(s) => text_of_string(syntax, s),
    }
}

/// The texts of an object's members in order, each as name and value, the
/// members tagged `Ignore` left out.
pub open spec fn member_texts(syntax: SyntaxView, members: Seq<FieldView>) -> Seq<Seq<char>>
    decreases members,
{
    if members.len() == 0 {
        Seq::empty()
    } else if members.last().ignored() {
        member_texts(syntax, members.drop_last())
    } else {
        member_texts(syntax, members.drop_last()).push(
            text_of_label(syntax.member, members.last().name) + text_of_value(
                syntax,
                members.last().value,
            ),
        )
    }
}

/// The texts of an array's items in order, each as its value alone, the
/// items tagged `Ignore` left out.
pub open spec fn item_texts(syntax: SyntaxView, items: Seq<FieldView>) -> Seq<Seq<char>>
    decreases items,
{
    if items.len() == 0 {
        Seq::empty()
    } else if items.last().ignored() {
        item_texts(syntax, items.drop_last())
    } else {
        item_texts(syntax, items.drop_last()).push(text_of_value(syntax, items.last().value))
    }
}

/// The text of a field of a record under the rules, whatever its tag: the
/// value, with the name before it where the rules name fields.
pub open spec fn text_of_named(syntax: SyntaxView, field: FieldView) -> Seq<char> {
    match syntax.field {
        Some(label) => text_of_label(label, field.name) + text_of_value(syntax, field.value),
        None => text_of_value(syntax, field.value),
    }
}

/// The text of a single field under the rules.
pub open spec fn text_of_field(syntax: SyntaxView, field: FieldView) -> Seq<char> {
    if syntax.blank_ignored && field.ignored() {
        Seq::empty()
    } else {
        text_of_named(syntax, field)
    }
}

/// The texts of a record's fields in order, the fields tagged `Ignore` left
/// out.
pub open spec fn field_texts(syntax: SyntaxView, fields: Seq<FieldView>) -> Seq<Seq<char>>
    decreases fields.len(),
{
    if fields.len() == 0 {
        Seq::empty()
    } else if fields.last().ignored() {
        field_texts(syntax, fields.drop_last())
    } else {
        field_texts(syntax, fields.drop_last()).push(text_of_named(syntax, fields.last()))
    }
}

/// The text of a record under the rules.
pub open spec fn text_of_record(syntax: SyntaxView, fields: Seq<FieldView>) -> Seq<char> {
    wrapped(syntax.record, field_texts(syntax, fields))
}

/// The plain rules.
pub fn plain() -> (out: Syntax)
    ensures
        out@ == plain_syntax(),
{
    Syntax {
        null: owned(""),
        quote_text: false,
        quote_address: false,
        object: Wrap { open: owned("{"), sep: owned(", "), close: owned("}") },
        member: Label { quoted: false, sep: owned("=") },
        array: Wrap { open: owned("["), sep: owned(", "), close: owned("]") },
        record: Wrap { open: owned(""), sep: owned(" "), close: owned("") },
        field: None,
        blank_ignored: false,
    }
}

/// Writes a text value.
pub fn render_string(syntax: &Syntax, s: &str) -> (out: String)
    ensures
        out@ == text_of_string(syntax@, s@),
{
    if syntax.quote_text {
        quote(s)
    } else {
        owned(s)
    }
}

/// Writes an address or a time, given by its text form.
pub fn render_address(syntax: &Syntax, s: &str) -> (out: String)
    ensures
        out@ == text_of_address(syntax@, s@),
{
    if syntax.quote_address {
        quote(s)
    } else {
        owned(s)
    }
}

/// Writes a point in time.
pub fn render_time(syntax: &Syntax, at: &Timestamp) -> (out: String)
    ensures
        out@ == text_of_address(syntax@, time_text(*at)),
{
    let text = at.text();
    render_address(syntax, text.as_str())
}

/// Writes a name as it stands before a value.
pub fn render_label(label: &Label, name: &str) -> (out: String)
    ensures
        out@ == text_of_label(label@, name@),
{
    let mut out = if label.quoted {
        quote(name)
    } else {
        owned(name)
    };
    out.append(label.sep.as_str());
    out
}

/// Puts `parts` between what opens and what closes the list.
pub fn wrap_parts(wrap: &Wrap, parts: &Vec<String>) -> (out: String)
    ensures
        out@ == wrapped(wrap@, texts(parts@)),
{
    let mut out = wrap.open.clone();
    let inner = join_texts(parts, wrap.sep.as_str());
    out.append(inner.as_str());
    out.append(wrap.close.as_str());
    out
}

/// Writes a value.
pub fn render_value(syntax: &Syntax, value: &Value) -> (out: String)
    ensures
        out@ == text_of_value(syntax@, value@),
    decreases value@, 2nat,
{
    match value {
        Value::Null => syntax.null.clone(),
        Value::Bool(b) => bool_word(*b),
        Value::Chars(s) => render_string(syntax, s.as_str()),
        Value::Digit(n) => decimal(*n),
        Value::Float(s) => s.clone(),
        Value::IpAddr(s) => render_address(syntax, s.as_str()),
        Value::Time(t) => render_time(syntax, t),
        Value::Obj(o) => render_object(syntax, o),
        Value::Array(items) => render_array(syntax, items.as_slice()),
        Value::Other(s) => render_string(syntax, s.as_str()),
    }
}

/// Writes an object.
pub fn render_object(syntax: &Syntax, object: &ObjectValue) -> (out: String)
    ensures
        out@ == text_of_value(syntax@, ValueView::Obj(object@)),
    decreases ValueView::Obj(object@), 1nat,
{
    let members = object.members();
    let parts = render_members(syntax, members.as_slice());
    wrap_parts(&syntax.object, &parts)
}

/// Writes an array.
pub fn render_array(syntax: &Syntax, items: &[FieldStorage]) -> (out: String)
    ensures
        out@ == text_of_value(syntax@, ValueView::Array(fields_view(items@))),
    decreases ValueView::Array(fields_view(items@)), 1nat,
{
    let parts = render_items(syntax, items);
    wrap_parts(&syntax.array, &parts)
}

/// Writes the members of an object that are not tagged `Ignore`, each as
/// name and value.
fn render_members(syntax: &Syntax, members: &[FieldStorage]) -> (parts: Vec<String>)
    ensures
        texts(parts@) == member_texts(syntax@, fields_view(members@)),
    decreases fields_view(members@), 0nat,
{
    let mut parts: Vec<String> = Vec::new();
    let mut i: usize = 0;
    while i < members.len()
        invariant
            i <= members.len(),
            texts(parts@) == member_texts(syntax@, fields_view(members@).take(i as int)),
        decreases members.len() - i,
    {
        let field = &members[i];
        proof {
            let all = fields_view(members@);
            assert(all.take(i + 1).drop_last() =~= all.take(i as int));
            assert(all.take(i + 1).last() == field@);
        }
        if !field.is_ignored() {
            let mut part = render_label(&syntax.member, field.get_name());
            let value = render_value(syntax, field.get_value());
            part.append(value.as_str());
            parts.push(part);
        }
        i += 1;
    }
    proof {
        assert(fields_view(members@).take(members.len() as int) =~= fields_view(members@));
    }
    parts
}

/// Writes the items of an array that are not tagged `Ignore`, each as its
/// value.
pub fn render_items(syntax: &Syntax, items: &[FieldStorage]) -> (parts: Vec<String>)
    ensures
        texts(parts@) == item_texts(syntax@, fields_view(items@)),
    decreases fields_view(items@), 0nat,
{
    let mut parts: Vec<String> = Vec::new();
    let mut i: usize = 0;
    while i < items.len()
        invariant
            i <= items.len(),
            texts(parts@) == item_texts(syntax@, fields_view(items@).take(i as int)),
        decreases items.len() - i,
    {
        let field = &items[i];
        proof {
            let all = fields_view(items@);
            assert(all.take(i + 1).drop_last() =~= all.take(i as int));
            assert(all.take(i + 1).last() == field@);
        }
        if !field.is_ignored() {
            let part = render_value(syntax, field.get_value());
            parts.push(part);
        }
        i += 1;
    }
    proof {
        assert(fields_view(items@).take(items.len() as int) =~= fields_view(items@));
    }
    parts
}

/// Writes a field of a record whatever its tag.
fn render_named(syntax: &Syntax, field: &FieldStorage) -> (out: String)
    ensures
        out@ == text_of_named(syntax@, field@),
{
    match &syntax.field {
        Some(label) => {
            let mut out = render_label(label, field.get_name());
            let value = render_value(syntax, field.get_value());
            out.append(value.as_str());
            out
        },
        None => render_value(syntax, field.get_value()),
    }
}

/// Writes a single field.
pub fn render_field(syntax: &Syntax, field: &FieldStorage) -> (out: String)
    ensures
        out@ == text_of_field(syntax@, field@),
{
    if syntax.blank_ignored && field.is_ignored() {
        String::new()
    } else {
        render_named(syntax, field)
    }
}

/// Writes a record.
pub fn render_record(syntax: &Syntax, record: &DataRecord) -> (out: String)
    ensures
        out@ == text_of_record(syntax@, record@.items),
{
    let mut parts: Vec<String> = Vec::new();
    let mut i: usize = 0;
    while i < record.items.len()
        invariant
            i <= record.items.len(),
            texts(parts@) == field_texts(syntax@, record@.items.take(i as int)),
        decreases record.items.len() - i,
    {
        let field = &record.items[i];
        proof {
            let all = record@.items;
            assert(all.take(i + 1).drop_last() =~= all.take(i as int));
        }
        if !field.is_ignored() {
            let part = render_named(syntax, field);
            parts.push(part);
        }
        i += 1;
    }
    proof {
        assert(record@.items.take(record.items.len() as int) =~= record@.items);
    }
    wrap_parts(&syntax.record, &parts)
}

} // verus!
