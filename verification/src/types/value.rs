//! The dynamically typed values that properties hold.

use vstd::prelude::*;
use crate::codec::text::utf8_len;
use crate::object::Object;
use crate::request::reference::ResultReference;
use crate::request::reference::ResultReferenceView;
use crate::types::blob::BlobId;
use crate::types::date::UTCDate;
use crate::types::id::Id;
use crate::types::keyword::Keyword;
use crate::types::keyword::KeywordView;
use crate::types::property::Property;
use crate::types::property::PropertyView;

verus! {

/// A value of one of eleven kinds. Lists and objects nest: a value is a
/// finite tree.
#[derive(Debug, PartialEq, Eq)]
pub enum Value {
    Text(String),
    UnsignedInt(u64),
    Bool(bool),
    Id(Id),
    Date(UTCDate),
    BlobId(BlobId),
    Blob(Vec<u8>),
    Keyword(Keyword),
    List(Vec<Value>),
    Object(Object<Value>),
    Null,
}

/// A value as contracts see it: text as characters, lists and objects as
/// sequences, in their order.
pub enum ValueView {
    Text(Seq<char>),
    UnsignedInt(u64),
    Bool(bool),
    Id(u64),
    Date(i64),
    BlobId(BlobId),
    Blob(Seq<u8>),
    Keyword(KeywordView),
    List(Seq<ValueView>),
    Object(Seq<(PropertyView, ValueView)>),
    Null,
}

impl ValueView {
    /// Whether the value can be written to the wire: every name in it
    /// exists, and every length and count in it fits in 64 bits.
    pub open spec fn wf(self) -> bool
        decreases self,
    {
        match self {
            ValueView::Text(text) => utf8_len(text) <= u64::MAX,
            ValueView::Blob(data) => data.len() <= u64::MAX,
            ValueView::Keyword(keyword) => keyword.wf(),
            ValueView::List(items) => {
                &&& items.len() <= u64::MAX
                &&& forall|i: int| 0 <= i < items.len() ==> (#[trigger] items[i]).wf()
            },
            ValueView::Object(entries) => {
                &&& entries.len() <= u64::MAX
                &&& forall|i: int|
                    0 <= i < entries.len() ==> (#[trigger] entries[i]).0.wf() && entries[i].1.wf()
            },
            _ => true,
        }
    }

    /// Whether lists and objects nest at most `depth` deep in the value. A
    /// value that is neither nests zero deep.
    pub open spec fn nests_within(self, depth: nat) -> bool
        decreases self,
    {
        match self {
            ValueView::List(items) => {
                &&& depth > 0
                &&& forall|i: int|
                    0 <= i < items.len() ==> (#[trigger] items[i]).nests_within((depth - 1) as nat)
            },
            ValueView::Object(entries) => {
                &&& depth > 0
                &&& forall|i: int|
                    0 <= i < entries.len() ==> (#[trigger] entries[i]).1.nests_within(
                        (depth - 1) as nat,
                    )
            },
            _ => true,
        }
    }
}

/// The values of a list as contracts see them, in the list's order.
pub open spec fn list_view(items: Seq<Value>) -> Seq<ValueView>
    decreases items,
{
    Seq::new(
        items.len(),
        |i: int|
            if 0 <= i < items.len() {
                items[i].view()
            } else {
                ValueView::Null
            },
    )
}

impl View for Value {
    type V = ValueView;

    open spec fn view(&self) -> ValueView
        decreases self,
    {
        match self {
            Value::Text(text) => ValueView::Text(text@),
            Value::UnsignedInt(number) => ValueView::UnsignedInt(*number),
            Value::Bool(flag) => ValueView::Bool(*flag),
            Value::Id(id) => ValueView::Id(id@),
            Value::Date(date) => ValueView::Date(date@),
            Value::BlobId(blob) => ValueView::BlobId(*blob),
            Value::Blob(data) => ValueView::Blob(data@),
            Value::Keyword(keyword) => ValueView::Keyword(keyword@),
            Value::List(items) => ValueView::List(list_view(items@)),
            Value::Object(object) => ValueView::Object(object.view()),
            Value::Null => ValueView::Null,
        }
    }
}

impl Value {
    /// The text that the value holds, if it is text.
    pub fn as_string(&self) -> (r: Option<&str>)
        ensures
            match (self@, r) {
                (ValueView::Text(text), Some(got)) => got@ == text,
                (ValueView::Text(_), None) => false,
                (_, Some(_)) => false,
                (_, None) => true,
            },
    {
        match self {
            Value::Text(text) => Some(text.as_str()),
            _ => None,
        }
    }
}

/// A copy of a byte string.
pub fn clone_bytes(data: &Vec<u8>) -> (r: Vec<u8>)
    ensures
        r@ == data@,
{
    let mut copy: Vec<u8> = Vec::new();
    let mut i: usize = 0;
    while i < data.len()
        invariant
            i <= data@.len(),
            copy@ == data@.subrange(0, i as int),
        decreases data@.len() - i,
    {
        copy.push(data[i]);
        i += 1;
        assert(copy@ =~= data@.subrange(0, i as int));
    }
    assert(data@.subrange(0, i as int) =~= data@);
    copy
}

impl Clone for Value {
    /// A copy that holds the same value, entry for entry and in the same
    /// order.
    fn clone(&self) -> (r: Value)
        ensures
            r@ == self@,
        decreases self,
    {
        match self {
            Value::Text(text) => Value::Text(text.clone()),
            Value::UnsignedInt(number) => Value::UnsignedInt(*number),
            Value::Bool(flag) => Value::Bool(*flag),
            Value::Id(id) => Value::Id(*id),
            Value::Date(date) => Value::Date(*date),
            Value::BlobId(blob) => Value::BlobId(*blob),
            Value::Blob(data) => Value::Blob(clone_bytes(data)),
            Value::Keyword(keyword) => Value::Keyword(keyword.clone()),
            Value::List(items) => {
                let mut copy: Vec<Value> = Vec::new();
                let mut i: usize = 0;
                while i < items.len()
                    invariant
                        i <= items@.len(),
                        decreases_to!(self => items),
                        copy@.len() == i,
                        forall|j: int| 0 <= j < i ==> (#[trigger] copy@[j])@ == items@[j]@,
                    decreases items@.len() - i,
                {
                    copy.push(items[i].clone());
                    i += 1;
                }
                let r = Value::List(copy);
                assert(list_view(copy@) =~= list_view(items@));
                r
            },
            Value::Object(object) => {
                let mut copy: Vec<(Property, Value)> = Vec::new();
                let mut i: usize = 0;
                while i < object.properties.len()
                    invariant
                        i <= object.properties@.len(),
                        decreases_to!(self => object.properties),
                        copy@.len() == i,
                        forall|j: int|
                            0 <= j < i ==> (#[trigger] copy@[j]).0@ == object.properties@[j].0@
                                && copy@[j].1@ == object.properties@[j].1@,
                    decreases object.properties@.len() - i,
                {
                    let entry = &object.properties[i];
                    copy.push((entry.0.clone(), entry.1.clone()));
                    i += 1;
                }
                let r = Value::Object(Object { properties: copy });
                assert(crate::object::entries_view(copy@) =~= crate::object::entries_view(object.properties@));
                r
            },
            Value::Null => Value::Null,
        }
    }
}

/// A value as a Set call submits it for one property.
#[derive(Clone, Debug, PartialEq, Eq)]
pub enum SetValue {
    /// The value itself.
    Value(Value),
    /// A patch to a part of the property.
    Patch(Vec<Value>),
    /// `#alias`: the id that an earlier create was given.
    IdReference(String),
    /// A value in the response of an earlier call.
    ResultReference(ResultReference),
}

pub enum SetValueView {
    Value(ValueView),
    Patch(Seq<ValueView>),
    IdReference(Seq<char>),
    ResultReference(ResultReferenceView),
}

impl View for SetValue {
    type V = SetValueView;

    open spec fn view(&self) -> SetValueView {
        match self {
            SetValue::Value(value) => SetValueView::Value(value@),
            SetValue::Patch(patch) => SetValueView::Patch(list_view(patch@)),
            SetValue::IdReference(alias) => SetValueView::IdReference(alias@),
            SetValue::ResultReference(reference) => SetValueView::ResultReference(reference@),
        }
    }
}

/// A submitted value with its references resolved.
#[derive(Clone, Debug, PartialEq, Eq)]
pub enum MaybePatchValue {
    Value(Value),
    Patch(Vec<Value>),
}

pub enum MaybePatchValueView {
    Value(ValueView),
    Patch(Seq<ValueView>),
}

impl View for MaybePatchValue {
    type V = MaybePatchValueView;

    open spec fn view(&self) -> MaybePatchValueView {
        match self {
            MaybePatchValue::Value(value) => MaybePatchValueView::Value(value@),
            MaybePatchValue::Patch(patch) => MaybePatchValueView::Patch(list_view(patch@)),
        }
    }
}

} // verus!
