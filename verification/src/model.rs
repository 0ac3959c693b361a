//! The record model that the encoders read: values, named fields, objects and
//! records, each with the mathematical view that the contracts speak of.

use vstd::prelude::*;
use crate::text::owned;
use crate::time::Timestamp;

verus! {

/// The tag a field carries beside its value. Only `Ignore` matters to the
/// encoders: a field tagged with it is left out wherever a list of fields is
/// put together.
#[derive(Clone, Copy, Debug, PartialEq, Eq, Structural)]
pub enum DataType {
    Auto,
    Bool,
    Chars,
    Digit,
    Float,
    Ip,
    Time,
    Obj,
    Array,
    Ignore,
}

/// One value of a record: a scalar, an object or an array.
///
/// A floating-point number and a network address are held by their plain
/// text forms. `Other` holds, by its plain text form, a value of any kind
/// the other variants do not cover.
#[derive(Debug)]
pub enum Value {
    Null,
    Bool(bool),
    Chars(String),
    Digit(i64),
    Float(String),
    IpAddr(String),
    Time(Timestamp),
    Obj(ObjectValue),
    Array(Vec<FieldStorage>),
    Other(String),
}

/// A value with the key it is stored under, the name it is shown under and
/// its tag. The key is fixed when the field is made; the name starts out as
/// the key and can be changed on its own.
#[derive(Debug)]
pub struct FieldStorage {
    key: String,
    name: String,
    meta: DataType,
    value: Value,
}

/// The members of an object in the order in which their keys first came in.
/// No two members have the same key.
#[derive(Debug)]
pub struct ObjectValue {
    members: Vec<FieldStorage>,
}

/// A record: an identifier and its fields in order.
#[derive(Debug)]
pub struct DataRecord {
    pub id: u64,
    pub items: Vec<FieldStorage>,
}

/// What a `Value` is, mathematically.
pub enum ValueView {
    Null,
    Bool(bool),
    Chars(Seq<char>),
    Digit(int),
    Float(Seq<char>),
    IpAddr(Seq<char>),
    Time(Timestamp),
    Obj(Seq<FieldView>),
    Array(Seq<FieldView>),
    Other(Seq<char>),
}

/// What a `FieldStorage` is, mathematically.
pub struct FieldView {
    pub key: Seq<char>,
    pub name: Seq<char>,
    pub meta: DataType,
    pub value: ValueView,
}

/// What a `DataRecord` is, mathematically.
pub struct RecordView {
    pub id: u64,
    pub items: Seq<FieldView>,
}

impl FieldView {
    /// The field is tagged `Ignore`.
    pub open spec fn ignored(self) -> bool {
        self.meta == DataType::Ignore
    }

    /// The same field shown under another name.
    pub open spec fn renamed(self, name: Seq<char>) -> FieldView {
        FieldView { name, ..self }
    }

    /// The same field stored under another key.
    pub open spec fn rekeyed(self, key: Seq<char>) -> FieldView {
        FieldView { key, ..self }
    }
}

/// The views of a sequence of fields, one for one.
pub open spec fn fields_view(fields: Seq<FieldStorage>) -> Seq<FieldView>
    decreases fields,
{
    Seq::new(
        fields.len(),
        |i: int|
            if 0 <= i < fields.len() {
                fields[i].view()
            } else {
                arbitrary()
            },
    )
}

/// No key occurs twice among `members`.
pub open spec fn distinct_keys(members: Seq<FieldView>) -> bool {
    forall|i: int, j: int|
        0 <= i < j < members.len() ==> (#[trigger] members[i]).key != (#[trigger] members[j]).key
}

/// The place of the member stored under `key`, or the length of `members`
/// where none is.
pub open spec fn position_of(members: Seq<FieldView>, key: Seq<char>) -> int
    decreases members.len(),
{
    if members.len() == 0 {
        0
    } else if position_of(members.drop_last(), key) < members.len() - 1 {
        position_of(members.drop_last(), key)
    } else if members.last().key == key {
        members.len() - 1
    } else {
        members.len() as int
    }
}

/// `members` after `field` was stored under `key`: it takes the place of the
/// member that had the key before, or comes last where none had it.
pub open spec fn inserted(members: Seq<FieldView>, key: Seq<char>, field: FieldView) -> Seq<
    FieldView,
> {
    let at: int = position_of(members, key);
    if at < members.len() {
        members.update(at, field.rekeyed(key))
    } else {
        members.push(field.rekeyed(key))
    }
}

impl View for Value {
    type V = ValueView;

    open spec fn view(&self) -> ValueView
        decreases self,
    {
        match self {
            Value::Null => ValueView::Null,
            Value::Bool(b) => ValueView::Bool(*b),
            Value::Chars(s) => ValueView::Chars(s@),
            Value::Digit(n) => ValueView::Digit(*n as int),
            Value::Float(s) => ValueView::Float(s@),
            Value::IpAddr(s) => ValueView::IpAddr(s@),
            Value::Time(t) => ValueView::Time(*t),
            Value::Obj(o) => ValueView::Obj(o.view()),
            Value::Array(items) => ValueView::Array(fields_view(items@)),
            Value::Other(s) => ValueView::Other(s@),
        }
    }
}

impl View for FieldStorage {
    type V = FieldView;

    closed spec fn view(&self) -> FieldView
        decreases self,
    {
        FieldView { key: self.key@, name: self.name@, meta: self.meta, value: self.value.view() }
    }
}

impl View for ObjectValue {
    type V = Seq<FieldView>;

    closed spec fn view(&self) -> Seq<FieldView>
        decreases self,
    {
        fields_view(self.members@)
    }
}

impl View for DataRecord {
    type V = RecordView;

    open spec fn view(&self) -> RecordView {
        RecordView { id: self.id, items: fields_view(self.items@) }
    }
}

impl FieldStorage {
    /// A field stored and shown under `name`.
    pub fn new(meta: DataType, name: &str, value: Value) -> (out: FieldStorage)
        ensures
            out@ == (FieldView { key: name@, name: name@, meta, value: value@ }),
    {
        FieldStorage { key: owned(name), name: owned(name), meta, value }
    }

    /// A text field.
    pub fn from_chars(name: &str, text: &str) -> (out: FieldStorage)
        ensures
            out@ == (FieldView {
                key: name@,
                name: name@,
                meta: DataType::Chars,
                value: ValueView::Chars(text@),
            }),
    {
        FieldStorage::new(DataType::Chars, name, Value::Chars(owned(text)))
    }

    /// An integer field.
    pub fn from_digit(name: &str, number: i64) -> (out: FieldStorage)
        ensures
            out@ == (FieldView {
                key: name@,
                name: name@,
                meta: DataType::Digit,
                value: ValueView::Digit(number as int),
            }),
    {
        FieldStorage::new(DataType::Digit, name, Value::Digit(number))
    }

    /// A truth-value field.
    pub fn from_bool(name: &str, truth: bool) -> (out: FieldStorage)
        ensures
            out@ == (FieldView {
                key: name@,
                name: name@,
                meta: DataType::Bool,
                value: ValueView::Bool(truth),
            }),
    {
        FieldStorage::new(DataType::Bool, name, Value::Bool(truth))
    }

    /// A field that holds a floating-point number, given by its decimal text.
    pub fn from_float(name: &str, decimal: &str) -> (out: FieldStorage)
        ensures
            out@ == (FieldView {
                key: name@,
                name: name@,
                meta: DataType::Float,
                value: ValueView::Float(decimal@),
            }),
    {
        FieldStorage::new(DataType::Float, name, Value::Float(owned(decimal)))
    }

    /// A field that holds a network address, given by its text form.
    pub fn from_ip(name: &str, address: &str) -> (out: FieldStorage)
        ensures
            out@ == (FieldView {
                key: name@,
                name: name@,
                meta: DataType::Ip,
                value: ValueView::IpAddr(address@),
            }),
    {
        FieldStorage::new(DataType::Ip, name, Value::IpAddr(owned(address)))
    }

    /// A field that holds a point in time.
    pub fn from_time(name: &str, time: Timestamp) -> (out: FieldStorage)
        ensures
            out@ == (FieldView {
                key: name@,
                name: name@,
                meta: DataType::Time,
                value: ValueView::Time(time),
            }),
    {
        FieldStorage::new(DataType::Time, name, Value::Time(time))
    }

    /// A field that holds an object.
    pub fn from_obj(name: &str, object: ObjectValue) -> (out: FieldStorage)
        ensures
            out@ == (FieldView {
                key: name@,
                name: name@,
                meta: DataType::Obj,
                value: ValueView::Obj(object@),
            }),
    {
        FieldStorage::new(DataType::Obj, name, Value::Obj(object))
    }

    /// A field that holds an array.
    pub fn from_arr(name: &str, items: Vec<FieldStorage>) -> (out: FieldStorage)
        ensures
            out@ == (FieldView {
                key: name@,
                name: name@,
                meta: DataType::Array,
                value: ValueView::Array(fields_view(items@)),
            }),
    {
        FieldStorage::new(DataType::Array, name, Value::Array(items))
    }

    /// Shows the field under `name` from now on. Its key, tag and value stay.
    pub fn set_name(&mut self, name: &str)
        ensures
            final(self)@ == old(self)@.renamed(name@),
    {
        self.name = owned(name);
    }

    /// The name the field is shown under.
    pub fn get_name(&self) -> (out: &str)
        ensures
            out@ == self@.name,
    {
        self.name.as_str()
    }

    /// The key the field is stored under.
    pub fn get_key(&self) -> (out: &str)
        ensures
            out@ == self@.key,
    {
        self.key.as_str()
    }

    /// The field's tag.
    pub fn get_meta(&self) -> (out: &DataType)
        ensures
            *out == self@.meta,
    {
        &self.meta
    }

    /// The field's value.
    pub fn get_value(&self) -> (out: &Value)
        ensures
            out@ == self@.value,
    {
        &self.value
    }

    /// Whether the field is tagged `Ignore`.
    pub fn is_ignored(&self) -> (out: bool)
        ensures
            out == self@.ignored(),
    {
        match self.meta {
            DataType::Ignore => true,
            _ => false,
        }
    }
}

impl ObjectValue {
    /// No key occurs twice. This holds of every object.
    #[verifier::type_invariant]
    closed spec fn keys_differ(&self) -> bool {
        distinct_keys(self@)
    }

    /// An object without members.
    pub fn new() -> (out: ObjectValue)
        ensures
            out@ == Seq::<FieldView>::empty(),
    {
        ObjectValue { members: Vec::new() }
    }

    /// Whether the object has no members.
    pub fn is_empty(&self) -> (out: bool)
        ensures
            out == (self@.len() == 0),
    {
        self.members.len() == 0
    }

    /// The number of members.
    pub fn len(&self) -> (out: usize)
        ensures
            out == self@.len(),
    {
        self.members.len()
    }

    /// The members in order. No two of them have the same key.
    pub fn members(&self) -> (out: &Vec<FieldStorage>)
        ensures
            fields_view(out@) == self@,
            distinct_keys(self@),
    {
        proof {
            use_type_invariant(self);
        }
        &self.members
    }

    /// The place of the member stored under `key`, or the number of members
    /// where none is.
    fn find(&self, key: &String) -> (at: usize)
        ensures
            at == position_of(self@, key@),
            at <= self@.len(),
    {
        let mut at: usize = self.members.len();
        let mut i: usize = 0;
        while i < self.members.len()
            invariant
                i <= self.members.len(),
                at <= self.members.len(),
                at < self.members.len() ==> at < i,
                (if at < self.members.len() {
                    at as int
                } else {
                    i as int
                }) == position_of(self@.take(i as int), key@),
            decreases self.members.len() - i,
        {
            proof {
                assert(self@.take(i + 1).drop_last() =~= self@.take(i as int));
            }
            if at == self.members.len() && self.members[i].key == *key {
                at = i;
            }
            i += 1;
        }
        proof {
            assert(self@.take(self.members.len() as int) =~= self@);
        }
        at
    }

    /// The member stored under `key`, if there is one.
    pub fn get(&self, key: &str) -> (out: Option<&FieldStorage>)
        ensures
            match out {
                Some(field) => position_of(self@, key@) < self@.len() && field@
                    == self@[position_of(self@, key@)],
                None => position_of(self@, key@) == self@.len(),
            },
    {
        let key = owned(key);
        let at: usize = self.find(&key);
        if at < self.members.len() {
            Some(&self.members[at])
        } else {
            None
        }
    }

    /// Stores `field` under `key`. A member that had the key before is
    /// replaced where it stands; otherwise the field becomes the last member.
    pub fn insert(&mut self, key: &str, field: FieldStorage)
        ensures
            final(self)@ == inserted(old(self)@, key@, field@),
    {
        let key = owned(key);
        let at: usize = self.find(&key);
        let mut field = field;
        field.key = key;
        proof {
            use_type_invariant(&*self);
            lemma_position_of(old(self)@, key@);
        }
        let mut members: Vec<FieldStorage> = Vec::new();
        core::mem::swap(&mut self.members, &mut members);
        if at < members.len() {
            members.set(at, field);
        } else {
            members.push(field);
        }
        assert(fields_view(members@) =~= inserted(old(self)@, key@, field@));
        self.members = members;
    }
}

/// A copy of `value`, member by member.
fn copy_value(value: &Value) -> (out: Value)
    ensures
        out@ == value@,
    decreases value,
{
    match value {
        Value::Null => Value::Null,
        Value::Bool(b) => Value::Bool(*b),
        Value::Chars(s) => Value::Chars(s.clone()),
        Value::Digit(n) => Value::Digit(*n),
        Value::Float(s) => Value::Float(s.clone()),
        Value::IpAddr(s) => Value::IpAddr(s.clone()),
        Value::Time(t) => Value::Time(*t),
        Value::Obj(o) => {
            proof {
                use_type_invariant(o);
            }
            Value::Obj(ObjectValue { members: copy_fields(&o.members) })
        },
        Value::Array(items) => Value::Array(copy_fields(items)),
        Value::Other(s) => Value::Other(s.clone()),
    }
}

/// A copy of `field`.
fn copy_field(field: &FieldStorage) -> (out: FieldStorage)
    ensures
        out@ == field@,
    decreases field,
{
    FieldStorage {
        key: field.key.clone(),
        name: field.name.clone(),
        meta: field.meta,
        value: copy_value(&field.value),
    }
}

/// A copy of `fields`, one for one.
fn copy_fields(fields: &Vec<FieldStorage>) -> (out: Vec<FieldStorage>)
    ensures
        fields_view(out@) == fields_view(fields@),
    decreases fields,
{
    let mut out: Vec<FieldStorage> = Vec::new();
    let mut i: usize = 0;
    while i < fields.len()
        invariant
            i <= fields.len(),
            out@.len() == i,
            forall|j: int| 0 <= j < i ==> (#[trigger] out@[j])@ == fields@[j]@,
        decreases fields.len() - i,
    {
        out.push(copy_field(&fields[i]));
        i += 1;
    }
    out
}

impl Clone for Value {
    fn clone(&self) -> (out: Value)
        ensures
            out@ == self@,
    {
        copy_value(self)
    }
}

impl Clone for FieldStorage {
    fn clone(&self) -> (out: FieldStorage)
        ensures
            out@ == self@,
    {
        copy_field(self)
    }
}

impl Clone for ObjectValue {
    fn clone(&self) -> (out: ObjectValue)
        ensures
            out@ == self@,
    {
        proof {
            use_type_invariant(self);
        }
        ObjectValue { members: copy_fields(&self.members) }
    }
}

impl Clone for DataRecord {
    fn clone(&self) -> (out: DataRecord)
        ensures
            out@ == self@,
    {
        DataRecord { id: self.id, items: copy_fields(&self.items) }
    }
}

/// What `position_of` finds: the first member with the key, and no member
/// with the key where it finds none.
pub proof fn lemma_position_of(members: Seq<FieldView>, key: Seq<char>)
    ensures
        0 <= position_of(members, key) <= members.len(),
        position_of(members, key) < members.len() ==> members[position_of(members, key)].key
            == key,
        forall|i: int| 0 <= i < position_of(members, key) ==> (#[trigger] members[i]).key != key,
    decreases members.len(),
{
    if members.len() > 0 {
        lemma_position_of(members.drop_last(), key);
        assert(forall|i: int|
            0 <= i < members.len() - 1 ==> members.drop_last()[i] == #[trigger] members[i]);
    }
}

} // verus!
