//! What holds of every encoder, proved: fields tagged `Ignore` leave no
//! trace, the name shown is the name written, the items of an array are
//! written without their names, and a quoted text can be read back.

use vstd::prelude::*;
use crate::csv::csv_syntax;
use crate::dispatch::FormatType;
use crate::formatter::{RecordFormatter, ValueFormatter};
use crate::json::{Json, json_syntax};
use crate::kv::kv_syntax;
use crate::model::{FieldView, RecordView, ValueView};
use crate::proto::{ProtoTxt, proto_syntax};
use crate::sql::kept_names;
use crate::syntax::{
    SyntaxView, field_texts, item_texts, member_texts, plain_syntax, text_of_label, text_of_named,
    text_of_value,
};
use crate::text::{count_quotes, escape_quotes, quoted, unescape_quotes};

verus! {

/// The fields that are not tagged `Ignore`, in order.
pub open spec fn without_ignored(fields: Seq<FieldView>) -> Seq<FieldView> {
    fields.filter(|f: FieldView| !f.ignored())
}

/// A value as it is shown: every field in it, at every depth, stored under
/// the name it is shown under.
pub open spec fn shown_value(value: ValueView) -> ValueView
    decreases value,
{
    match value {
        ValueView::Obj(members) => ValueView::Obj(shown_fields(members)),
        ValueView::Array(items) => ValueView::Array(shown_fields(items)),
        _ => value,
    }
}

/// A field as it is shown: stored under the name it is shown under, its value
/// as it is shown.
pub open spec fn shown_field(field: FieldView) -> FieldView
    decreases field,
{
    FieldView {
        key: field.name,
        name: field.name,
        meta: field.meta,
        value: shown_value(field.value),
    }
}

/// Fields as they are shown, one for one.
pub open spec fn shown_fields(fields: Seq<FieldView>) -> Seq<FieldView>
    decreases fields,
{
    Seq::new(
        fields.len(),
        |i: int|
            if 0 <= i < fields.len() {
                shown_field(fields[i])
            } else {
                arbitrary()
            },
    )
}

/// Two sequences of fields hold the same values under the same tags, place
/// by place, whatever the names and keys are.
pub open spec fn same_items(a: Seq<FieldView>, b: Seq<FieldView>) -> bool {
    &&& a.len() == b.len()
    &&& forall|i: int|
        0 <= i < a.len() ==> (#[trigger] a[i]).value == b[i].value && a[i].meta == b[i].meta
}

/// The rules of the encoder that `fmt` holds, for the values it writes.
pub open spec fn rules_of(fmt: FormatType) -> SyntaxView {
    match fmt {
        FormatType::Json(_) => json_syntax(),
        FormatType::Csv(f) => csv_syntax(f.separator),
        FormatType::Kv(_) => kv_syntax(),
        FormatType::Sql(f) => f.base.rules(),
        FormatType::Raw(_) => plain_syntax(),
        FormatType::ProtoText(_) => proto_syntax(),
    }
}

/// Every encoder writes a value by its rules.
pub proof fn lemma_value_text_by_rules(fmt: FormatType, value: ValueView)
    ensures
        fmt.value_text(value) == text_of_value(rules_of(fmt), value),
{
}

/// Under any rules, the lists of texts that are put together for a record,
/// an object and an array are those of the fields that are not tagged
/// `Ignore`.
pub proof fn lemma_texts_skip_ignored(syntax: SyntaxView, fields: Seq<FieldView>)
    ensures
        field_texts(syntax, fields) == field_texts(syntax, without_ignored(fields)),
        member_texts(syntax, fields) == member_texts(syntax, without_ignored(fields)),
        item_texts(syntax, fields) == item_texts(syntax, without_ignored(fields)),
        kept_names(fields) == kept_names(without_ignored(fields)),
    decreases fields.len(),
{
    reveal(Seq::filter);
    if fields.len() > 0 {
        let rest = fields.drop_last();
        lemma_texts_skip_ignored(syntax, rest);
        if !fields.last().ignored() {
            assert(without_ignored(fields).drop_last() =~= without_ignored(rest));
        }
    }
}

/// Under any rules, the texts that are put together are those of the fields
/// that are not tagged `Ignore`, one text for each such field and in the
/// order of the fields.
pub proof fn lemma_one_text_per_kept_field(syntax: SyntaxView, fields: Seq<FieldView>)
    ensures
        field_texts(syntax, fields) == without_ignored(fields).map_values(
            |f: FieldView| text_of_named(syntax, f),
        ),
        member_texts(syntax, fields) == without_ignored(fields).map_values(
            |f: FieldView| text_of_label(syntax.member, f.name) + text_of_value(syntax, f.value),
        ),
        item_texts(syntax, fields) == without_ignored(fields).map_values(
            |f: FieldView| text_of_value(syntax, f.value),
        ),
        kept_names(fields) == without_ignored(fields).map_values(|f: FieldView| f.name),
    decreases fields.len(),
{
    reveal(Seq::filter);
    if fields.len() > 0 {
        lemma_one_text_per_kept_field(syntax, fields.drop_last());
    }
    assert(field_texts(syntax, fields) =~= without_ignored(fields).map_values(
        |f: FieldView| text_of_named(syntax, f),
    ));
    assert(member_texts(syntax, fields) =~= without_ignored(fields).map_values(
        |f: FieldView| text_of_label(syntax.member, f.name) + text_of_value(syntax, f.value),
    ));
    assert(item_texts(syntax, fields) =~= without_ignored(fields).map_values(
        |f: FieldView| text_of_value(syntax, f.value),
    ));
}

/// A record's text is the text of the record without its fields tagged
/// `Ignore`: such a field, whatever its name and value, leaves no trace in
/// what any encoder writes for the record.
pub proof fn law_ignored_fields_leave_no_trace(fmt: FormatType, record: RecordView)
    ensures
        fmt.record_text(record) == fmt.record_text(
            RecordView { id: record.id, items: without_ignored(record.items) },
        ),
{
    lemma_texts_skip_ignored(rules_of(fmt), record.items);
}

/// Two records whose fields agree but for those tagged `Ignore` are written
/// alike by every encoder.
pub proof fn law_records_differ_only_in_kept_fields(
    fmt: FormatType,
    first: RecordView,
    second: RecordView,
)
    requires
        without_ignored(first.items) == without_ignored(second.items),
    ensures
        fmt.record_text(first) == fmt.record_text(second),
{
    lemma_texts_skip_ignored(rules_of(fmt), first.items);
    lemma_texts_skip_ignored(rules_of(fmt), second.items);
}

/// An object's and an array's text is that of the object or array without
/// its members tagged `Ignore`.
pub proof fn law_ignored_members_leave_no_trace(fmt: FormatType, fields: Seq<FieldView>)
    ensures
        fmt.value_text(ValueView::Obj(fields)) == fmt.value_text(
            ValueView::Obj(without_ignored(fields)),
        ),
        fmt.value_text(ValueView::Array(fields)) == fmt.value_text(
            ValueView::Array(without_ignored(fields)),
        ),
{
    lemma_texts_skip_ignored(rules_of(fmt), fields);
}

/// Under any rules the text of a value is the text of the value as it is
/// shown: no key is written at any depth.
pub proof fn lemma_value_as_shown(syntax: SyntaxView, value: ValueView)
    ensures
        text_of_value(syntax, value) == text_of_value(syntax, shown_value(value)),
    decreases value, 1nat,
{
    match value {
        ValueView::Obj(members) => {
            lemma_fields_as_shown(syntax, members);
        },
        ValueView::Array(items) => {
            lemma_fields_as_shown(syntax, items);
        },
        _ => {},
    }
}

/// Under any rules the texts of fields are the texts of the fields as they
/// are shown.
pub proof fn lemma_fields_as_shown(syntax: SyntaxView, fields: Seq<FieldView>)
    ensures
        member_texts(syntax, fields) == member_texts(syntax, shown_fields(fields)),
        item_texts(syntax, fields) == item_texts(syntax, shown_fields(fields)),
        field_texts(syntax, fields) == field_texts(syntax, shown_fields(fields)),
        kept_names(fields) == kept_names(shown_fields(fields)),
    decreases fields, 0nat,
{
    if fields.len() > 0 {
        let rest = fields.drop_last();
        lemma_fields_as_shown(syntax, rest);
        lemma_value_as_shown(syntax, fields.last().value);
        assert(shown_fields(fields).drop_last() =~= shown_fields(rest));
    }
}

/// What every encoder writes for a value, a field and a record is what it
/// writes for them as they are shown. A name that was changed after the
/// field was made is the name written, at every depth; the key the field was
/// made under is written nowhere.
pub proof fn law_shown_names_are_written(fmt: FormatType, record: RecordView)
    ensures
        fmt.record_text(record) == fmt.record_text(
            RecordView { id: record.id, items: shown_fields(record.items) },
        ),
        forall|value: ValueView| #[trigger]
            fmt.value_text(value) == fmt.value_text(shown_value(value)),
        forall|field: FieldView| #[trigger]
            fmt.field_text(field) == fmt.field_text(shown_field(field)),
{
    let syntax = rules_of(fmt);
    lemma_fields_as_shown(syntax, record.items);
    assert forall|value: ValueView| #[trigger]
        fmt.value_text(value) == fmt.value_text(shown_value(value)) by {
        lemma_value_as_shown(syntax, value);
    }
    assert forall|field: FieldView| #[trigger]
        fmt.field_text(field) == fmt.field_text(shown_field(field)) by {
        lemma_value_as_shown(syntax, field.value);
    }
}

/// A field whose name was changed is written as a field that was made under
/// the new name.
pub proof fn law_renamed_field_reads_as_made(fmt: FormatType, field: FieldView, name: Seq<char>)
    ensures
        fmt.field_text(field.renamed(name)) == fmt.field_text(
            FieldView { key: name, name, meta: field.meta, value: field.value },
        ),
{
}

/// Under any rules the texts of an array's items depend on the values and
/// tags of the items alone.
pub proof fn lemma_items_unnamed(syntax: SyntaxView, a: Seq<FieldView>, b: Seq<FieldView>)
    requires
        same_items(a, b),
    ensures
        item_texts(syntax, a) == item_texts(syntax, b),
    decreases a.len(),
{
    if a.len() > 0 {
        lemma_items_unnamed(syntax, a.drop_last(), b.drop_last());
    }
}

/// Two arrays that hold the same values under the same tags are written
/// alike by every encoder, whatever names their items are shown under: the
/// names of an array's items are never written.
pub proof fn law_array_items_are_unnamed(fmt: FormatType, a: Seq<FieldView>, b: Seq<FieldView>)
    requires
        same_items(a, b),
    ensures
        fmt.value_text(ValueView::Array(a)) == fmt.value_text(ValueView::Array(b)),
{
    lemma_items_unnamed(rules_of(fmt), a, b);
}

/// Escaping puts one backslash in front of each double quote and changes
/// nothing else: the text grows by the number of its double quotes, every
/// double quote of the escaped text has a backslash before it, and the pass
/// that takes those backslashes away gives the text back.
pub proof fn lemma_escape_quotes(s: Seq<char>)
    ensures
        escape_quotes(s).len() == s.len() + count_quotes(s),
        forall|i: int|
            0 <= i < escape_quotes(s).len() && #[trigger] escape_quotes(s)[i] == '"' ==> i > 0
                && escape_quotes(s)[i - 1] == '\\',
        unescape_quotes(escape_quotes(s)) == s,
    decreases s.len(),
{
    if s.len() > 0 {
        let rest = s.drop_last();
        lemma_escape_quotes(rest);
        let inner = escape_quotes(rest);
        let whole = escape_quotes(s);
        if s.last() == '"' {
            assert(whole.take(whole.len() - 2) =~= inner);
        } else {
            assert(whole.drop_last() =~= inner);
        }
    }
}

/// A text that the JSON or the proto-text encoder writes stands between two
/// double quotes; each double quote of the text has one backslash before it;
/// and one pass that takes those backslashes away gives the text back.
pub proof fn law_quoted_text_reads_back(s: Seq<char>)
    ensures
        Json.value_text(ValueView::Chars(s)) == quoted(s),
        ProtoTxt.value_text(ValueView::Chars(s)) == quoted(s),
        ({
            let written = quoted(s);
            let inner = written.subrange(1, written.len() - 1);
            &&& written.len() == s.len() + count_quotes(s) + 2
            &&& written.first() == '"'
            &&& written.last() == '"'
            &&& forall|i: int|
                0 <= i < inner.len() && #[trigger] inner[i] == '"' ==> i > 0 && inner[i - 1]
                    == '\\'
            &&& unescape_quotes(inner) == s
        }),
{
    lemma_escape_quotes(s);
    let written = quoted(s);
    assert(written.subrange(1, written.len() - 1) =~= escape_quotes(s));
}

} // verus!
