//! Objects: ordered lists of properties and their values.

use vstd::prelude::*;
use crate::types::property::Property;
use crate::types::property::PropertyView;
use crate::types::value::Value;
use crate::types::value::ValueView;

pub mod format;
pub mod index;
pub mod laws;
pub mod serialize;

verus! {

/// An object holds its properties in the order in which they were added.
/// One name may stand in it more than once; the first entry is then the
/// one that counts.
#[derive(Clone, Debug, PartialEq, Eq)]
pub struct Object<T> {
    pub properties: Vec<(Property, T)>,
}

/// An object as contracts see it: its entries, in order.
pub type ObjectView = Seq<(PropertyView, ValueView)>;

/// The entries of an object as contracts see them, in the object's order.
pub open spec fn entries_view(entries: Seq<(Property, Value)>) -> ObjectView
    decreases entries,
{
    Seq::new(
        entries.len(),
        |i: int|
            if 0 <= i < entries.len() {
                (entries[i].0@, entries[i].1.view())
            } else {
                (PropertyView { tag: 0, name: Seq::empty() }, ValueView::Null)
            },
    )
}

impl View for Object<Value> {
    type V = ObjectView;

    open spec fn view(&self) -> ObjectView
        decreases self,
    {
        entries_view(self.properties@)
    }
}

/// Index of the first entry named `key` at or after `from`.
pub open spec fn position_from(entries: ObjectView, key: PropertyView, from: int) -> Option<int>
    decreases entries.len() - from,
{
    if from < 0 || from >= entries.len() {
        None
    } else if entries[from].0 == key {
        Some(from)
    } else {
        position_from(entries, key, from + 1)
    }
}

/// Index of the first entry named `key`.
pub open spec fn position(entries: ObjectView, key: PropertyView) -> Option<int> {
    position_from(entries, key, 0)
}

/// Whether some entry is named `key`.
pub open spec fn contains_key(entries: ObjectView, key: PropertyView) -> bool {
    position(entries, key) is Some
}

/// The value of the first entry named `key`; `Null` when there is none.
pub open spec fn lookup(entries: ObjectView, key: PropertyView) -> ValueView {
    match position(entries, key) {
        Some(i) => entries[i].1,
        None => ValueView::Null,
    }
}

/// The entries after `key` is set to `value`: the first entry named `key`
/// takes the value and keeps its place; without such an entry a new one
/// is added at the end.
pub open spec fn with_set(entries: ObjectView, key: PropertyView, value: ValueView) -> ObjectView {
    match position(entries, key) {
        Some(i) => entries.update(i, (key, value)),
        None => entries.push((key, value)),
    }
}

/// The entries without the first one named `key`; the others keep their
/// order.
pub open spec fn without(entries: ObjectView, key: PropertyView) -> ObjectView {
    match position(entries, key) {
        Some(i) => entries.remove(i),
        None => entries,
    }
}

/// What a position says: the entry there bears the name and none before it
/// does; no position means that no entry bears the name.
pub proof fn lemma_position(entries: ObjectView, key: PropertyView)
    ensures
        match position(entries, key) {
            Some(i) => {
                &&& 0 <= i < entries.len()
                &&& entries[i].0 == key
                &&& forall|j: int| 0 <= j < i ==> (#[trigger] entries[j]).0 != key
            },
            None => forall|j: int| 0 <= j < entries.len() ==> (#[trigger] entries[j]).0 != key,
        },
{
    lemma_position_from(entries, key, 0);
}

proof fn lemma_position_from(entries: ObjectView, key: PropertyView, from: int)
    requires
        0 <= from,
    ensures
        match position_from(entries, key, from) {
            Some(i) => {
                &&& from <= i < entries.len()
                &&& entries[i].0 == key
                &&& forall|j: int| from <= j < i ==> (#[trigger] entries[j]).0 != key
            },
            None => forall|j: int| from <= j < entries.len() ==> (#[trigger] entries[j]).0 != key,
        },
    decreases entries.len() - from,
{
    if from < entries.len() && entries[from].0 != key {
        lemma_position_from(entries, key, from + 1);
    }
}

/// An index whose entry bears the name, with none before it that does, is
/// the position of the name.
pub proof fn lemma_position_is(entries: ObjectView, key: PropertyView, i: int)
    requires
        0 <= i < entries.len(),
        entries[i].0 == key,
        forall|j: int| 0 <= j < i ==> (#[trigger] entries[j]).0 != key,
    ensures
        position(entries, key) == Some(i),
{
    lemma_position(entries, key);
}

/// Reading a property that was just set gives the value that was set.
pub proof fn lemma_get_after_set(entries: ObjectView, key: PropertyView, value: ValueView)
    ensures
        lookup(with_set(entries, key, value), key) == value,
        contains_key(with_set(entries, key, value), key),
{
    lemma_position(entries, key);
    let after = with_set(entries, key, value);
    match position(entries, key) {
        Some(i) => {
            lemma_position_is(after, key, i);
        },
        None => {
            lemma_position_is(after, key, entries.len() as int);
        },
    }
}

/// Setting one property leaves every other property as it reads.
pub proof fn lemma_get_other_after_set(
    entries: ObjectView,
    key: PropertyView,
    value: ValueView,
    other: PropertyView,
)
    requires
        other != key,
    ensures
        lookup(with_set(entries, key, value), other) == lookup(entries, other),
        contains_key(with_set(entries, key, value), other) == contains_key(entries, other),
{
    lemma_position(entries, key);
    lemma_position(entries, other);
    let after = with_set(entries, key, value);
    lemma_position(after, other);
    match position(entries, other) {
        Some(i) => {
            lemma_position_is(after, other, i);
        },
        None => {},
    }
}

/// Appending never hides an entry: a property reads as before if the object
/// had it, and reads as the appended value if it had not.
pub proof fn lemma_get_after_append(entries: ObjectView, key: PropertyView, value: ValueView)
    ensures
        lookup(entries.push((key, value)), key) == if contains_key(entries, key) {
            lookup(entries, key)
        } else {
            value
        },
        contains_key(entries.push((key, value)), key),
{
    lemma_position(entries, key);
    let after = entries.push((key, value));
    match position(entries, key) {
        Some(i) => {
            lemma_position_is(after, key, i);
        },
        None => {
            lemma_position_is(after, key, entries.len() as int);
        },
    }
}

/// Of two values appended under one name that the object did not have, the
/// first is the one that reads.
pub proof fn lemma_first_append_wins(
    entries: ObjectView,
    key: PropertyView,
    first: ValueView,
    second: ValueView,
)
    requires
        !contains_key(entries, key),
    ensures
        lookup(entries.push((key, first)).push((key, second)), key) == first,
{
    lemma_get_after_append(entries, key, first);
    lemma_get_after_append(entries.push((key, first)), key, second);
}

/// Removing a property that the object does not have changes nothing and
/// yields `Null`.
pub proof fn lemma_remove_absent(entries: ObjectView, key: PropertyView)
    requires
        !contains_key(entries, key),
    ensures
        lookup(entries, key) == ValueView::Null,
        without(entries, key) == entries,
{
}

impl<T> Default for Object<T> {
    /// An object without properties.
    fn default() -> (r: Object<T>)
        ensures
            r.properties@ == Seq::<(Property, T)>::empty(),
    {
        Object { properties: Vec::new() }
    }
}

impl Object<Value> {
    /// An empty object with room for `capacity` properties.
    pub fn with_capacity(capacity: usize) -> (r: Self)
        ensures
            r@ == ObjectView::empty(),
    {
        let r = Object { properties: Vec::with_capacity(capacity) };
        assert(r@ =~= ObjectView::empty());
        r
    }

    /// Number of entries.
    pub fn len(&self) -> (n: usize)
        ensures
            n == self@.len(),
    {
        self.properties.len()
    }

    fn find(&self, property: &Property) -> (r: Option<usize>)
        ensures
            match r {
                Some(i) => position(self@, property@) == Some(i as int) && i < self.properties@.len(),
                None => position(self@, property@) is None,
            },
    {
        let mut i: usize = 0;
        while i < self.properties.len()
            invariant
                i <= self.properties@.len(),
                self@.len() == self.properties@.len(),
                position(self@, property@) == position_from(self@, property@, i as int),
            decreases self.properties@.len() - i,
        {
            if self.properties[i].0 == *property {
                return Some(i);
            }
            i += 1;
        }
        None
    }

    /// Whether the object has a property named `property`.
    pub fn contains_key(&self, property: &Property) -> (r: bool)
        ensures
            r == contains_key(self@, property@),
    {
        self.find(property).is_some()
    }

    /// Gives `property` the value `value`: in place where the object has the
    /// property, else as a new last entry. Says whether an entry was added.
    pub fn set(&mut self, property: Property, value: Value) -> (added: bool)
        ensures
            final(self)@ == with_set(old(self)@, property@, value@),
            added == !contains_key(old(self)@, property@),
    {
        match self.find(&property) {
            Some(i) => {
                self.properties[i] = (property, value);
                assert(self@ =~= with_set(old(self)@, property@, value@));
                false
            },
            None => {
                self.properties.push((property, value));
                assert(self@ =~= with_set(old(self)@, property@, value@));
                true
            },
        }
    }

    /// Adds an entry at the end, whether or not the name is already there.
    pub fn append(&mut self, property: Property, value: Value)
        ensures
            final(self)@ == old(self)@.push((property@, value@)),
    {
        self.properties.push((property, value));
        assert(self@ =~= old(self)@.push((property@, value@)));
    }

    /// The object with one more entry at its end.
    pub fn with_property(self, property: Property, value: Value) -> (r: Self)
        ensures
            r@ == self@.push((property@, value@)),
    {
        let mut object = self;
        object.append(property, value);
        object
    }

    /// Takes the first entry named `property` out of the object and gives
    /// its value; gives `Null`, and leaves the object alone, when there is
    /// no such entry.
    pub fn remove(&mut self, property: &Property) -> (r: Value)
        ensures
            r@ == lookup(old(self)@, property@),
            final(self)@ == without(old(self)@, property@),
    {
        match self.find(property) {
            Some(i) => {
                let entry = self.properties.remove(i);
                assert(self@ =~= without(old(self)@, property@));
                entry.1
            },
            None => Value::Null,
        }
    }

    /// The value of the first entry named `property`; `Null` when there is
    /// no such entry.
    pub fn get(&self, property: &Property) -> (r: &Value)
        ensures
            r@ == lookup(self@, property@),
    {
        match self.find(property) {
            Some(i) => &self.properties[i].1,
            None => &Value::Null,
        }
    }

    /// A copy that holds the same entries in the same order.
    pub fn duplicate(&self) -> (r: Object<Value>)
        ensures
            r@ == self@,
    {
        let mut copy: Vec<(Property, Value)> = Vec::with_capacity(self.properties.len());
        let mut i: usize = 0;
        while i < self.properties.len()
            invariant
                i <= self.properties@.len(),
                copy@.len() == i,
                forall|j: int|
                    0 <= j < i ==> (#[trigger] copy@[j]).0@ == self.properties@[j].0@ && copy@[j].1@
                        == self.properties@[j].1@,
            decreases self.properties@.len() - i,
        {
            let entry = &self.properties[i];
            copy.push((entry.0.clone(), entry.1.clone()));
            i += 1;
        }
        let r = Object { properties: copy };
        assert(r@ =~= self@);
        r
    }
}

} // verus!
