//! What a value contributes to the tag index of its document.

use vstd::prelude::*;
use vstd::std_specs::convert::FromSpecImpl;
use crate::types::keyword::Keyword;
use crate::types::keyword::KeywordView;
use crate::types::property::Property;
use crate::types::value::list_view;
use crate::types::value::Value;
use crate::types::value::ValueView;

verus! {

/// What a document is indexed under: a text, a keyword or a number.
#[derive(Debug, PartialEq, Eq)]
pub enum BitmapKey {
    Text(String),
    Keyword(Keyword),
    UnsignedInt(u64),
}

pub enum BitmapKeyView {
    Text(Seq<char>),
    Keyword(KeywordView),
    UnsignedInt(u64),
}

impl View for BitmapKey {
    type V = BitmapKeyView;

    open spec fn view(&self) -> BitmapKeyView {
        match self {
            BitmapKey::Text(text) => BitmapKeyView::Text(text@),
            BitmapKey::Keyword(keyword) => BitmapKeyView::Keyword(keyword@),
            BitmapKey::UnsignedInt(number) => BitmapKeyView::UnsignedInt(*number),
        }
    }
}

/// One change to the tag index: the document is put under `key` in the
/// index of `field`, or taken out from under it.
#[derive(Debug, PartialEq, Eq)]
pub struct Operation {
    pub field: u8,
    pub key: BitmapKey,
    pub set: bool,
}

pub struct OperationView {
    pub field: u8,
    pub key: BitmapKeyView,
    pub set: bool,
}

impl View for Operation {
    type V = OperationView;

    open spec fn view(&self) -> OperationView {
        OperationView { field: self.field, key: self.key@, set: self.set }
    }
}

/// Changes to the index as contracts see them, in order.
pub open spec fn operations_view(ops: Seq<Operation>) -> Seq<OperationView> {
    Seq::new(ops.len(), |i: int| ops[i]@)
}

/// The key that a value is indexed under: text, keywords and numbers have
/// one, nothing else has.
pub open spec fn bitmap_key(value: ValueView) -> Option<BitmapKeyView> {
    match value {
        ValueView::Text(text) => Some(BitmapKeyView::Text(text)),
        ValueView::Keyword(keyword) => Some(BitmapKeyView::Keyword(keyword)),
        ValueView::UnsignedInt(number) => Some(BitmapKeyView::UnsignedInt(number)),
        _ => None,
    }
}

/// The keys of the first `count` items, in order; items without a key are
/// passed over.
pub open spec fn bitmap_keys(items: Seq<ValueView>, count: nat) -> Seq<BitmapKeyView>
    decreases count,
{
    if count == 0 || count > items.len() {
        Seq::empty()
    } else {
        match bitmap_key(items[count - 1]) {
            Some(key) => bitmap_keys(items, (count - 1) as nat).push(key),
            None => bitmap_keys(items, (count - 1) as nat),
        }
    }
}

/// The keys that a value is indexed under: its own, or those of its items
/// if it is a list. Lists inside the list count for nothing.
pub open spec fn indexed_under(value: ValueView) -> Seq<BitmapKeyView> {
    match value {
        ValueView::List(items) => bitmap_keys(items, items.len()),
        _ => match bitmap_key(value) {
            Some(key) => seq![key],
            None => Seq::empty(),
        },
    }
}

/// The changes that put a document under each of the keys in the index of
/// `field`, or take it out.
pub open spec fn operations_for(keys: Seq<BitmapKeyView>, field: u8, set: bool) -> Seq<
    OperationView,
> {
    Seq::new(keys.len(), |i: int| OperationView { field, key: keys[i], set })
}

fn key_of(value: &Value) -> (r: Option<BitmapKey>)
    ensures
        match (bitmap_key(value@), r) {
            (Some(key), Some(got)) => got@ == key,
            (None, None) => true,
            _ => false,
        },
{
    match value {
        Value::Text(text) => Some(BitmapKey::Text(text.clone())),
        Value::Keyword(keyword) => Some(BitmapKey::Keyword(keyword.clone())),
        Value::UnsignedInt(number) => Some(BitmapKey::UnsignedInt(*number)),
        _ => None,
    }
}

impl Value {
    /// Adds to `ops` the changes that put a document under the keys of
    /// this value in the index of `field`, or that take it out.
    pub fn to_bitmaps(&self, ops: &mut Vec<Operation>, field: u8, set: bool)
        ensures
            operations_view(final(ops)@) == operations_view(old(ops)@) + operations_for(
                indexed_under(self@),
                field,
                set,
            ),
    {
        let ghost before = operations_view(ops@);
        match self {
            Value::List(items) => {
                let ghost model = list_view(items@);
                let mut i: usize = 0;
                assert(operations_view(ops@) =~= before + operations_for(
                    bitmap_keys(model, 0),
                    field,
                    set,
                ));
                while i < items.len()
                    invariant
                        i <= items@.len(),
                        model == list_view(items@),
                        operations_view(ops@) == before + operations_for(
                            bitmap_keys(model, i as nat),
                            field,
                            set,
                        ),
                    decreases items@.len() - i,
                {
                    assert(model[i as int] == items@[i as int]@);
                    let ghost so_far = operations_view(ops@);
                    match key_of(&items[i]) {
                        Some(key) => {
                            let ghost added = OperationView { field, key: key@, set };
                            ops.push(Operation { field, key, set });
                            assert(operations_view(ops@) =~= so_far.push(added));
                            assert(so_far.push(added) =~= before + operations_for(
                                bitmap_keys(model, (i + 1) as nat),
                                field,
                                set,
                            ));
                        },
                        None => {},
                    }
                    i += 1;
                }
            },
            _ => {
                match key_of(self) {
                    Some(key) => {
                        let ghost added = OperationView { field, key: key@, set };
                        ops.push(Operation { field, key, set });
                        assert(operations_view(ops@) =~= before.push(added));
                        assert(before.push(added) =~= before + operations_for(
                            indexed_under(self@),
                            field,
                            set,
                        ));
                    },
                    None => {
                        assert(operations_view(ops@) =~= before + operations_for(
                            indexed_under(self@),
                            field,
                            set,
                        ));
                    },
                }
            },
        }
    }
}

/// Where a value is kept in the store.
#[derive(Clone, Copy, Debug, PartialEq, Eq)]
pub enum ValueClass {
    /// Under a property of a document. The family tells apart the values
    /// kept under one property.
    Property { field: u8, family: u8 },
}

impl From<Property> for ValueClass {
    /// The place of the property's own value: under the property's tag, in
    /// family zero.
    fn from(value: Property) -> (r: ValueClass) {
        ValueClass::Property { field: value.tag(), family: 0 }
    }
}

impl FromSpecImpl<Property> for ValueClass {
    open spec fn obeys_from_spec() -> bool {
        true
    }

    open spec fn from_spec(value: Property) -> ValueClass {
        ValueClass::Property { field: value.spec_tag(), family: 0 }
    }
}

} // verus!
