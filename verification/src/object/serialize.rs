//! Writing values and objects to their persisted form and reading them
//! back.

use vstd::prelude::*;
use vstd::string::StringExecFns;
use crate::codec::leb128::next_leb128;
use crate::codec::leb128::push_leb128;
use crate::codec::text::next_bytes;
use crate::codec::text::next_text;
use crate::codec::text::push_bytes;
use crate::codec::text::push_text;
use crate::error::StoreError;
use crate::object::entries_view;
use crate::object::format::BLOB;
use crate::object::format::BLOB_ID;
use crate::object::format::BOOL_FALSE;
use crate::object::format::BOOL_TRUE;
use crate::object::format::DATE;
use crate::object::format::decode_entries;
use crate::object::format::decode_items;
use crate::object::format::decode_object;
use crate::object::format::decode_value;
use crate::object::format::encode_entries;
use crate::object::format::encode_items;
use crate::object::format::encode_object;
use crate::object::format::encode_value;
use crate::object::format::ID;
use crate::object::format::KEYWORD;
use crate::object::format::LIST;
use crate::object::format::MAX_DEPTH;
use crate::object::format::NULL;
use crate::object::format::OBJECT;
use crate::object::format::TEXT;
use crate::object::format::UNSIGNED_INT;
use crate::object::Object;
use crate::object::ObjectView;
use crate::types::blob::BlobId;
use crate::types::date::UTCDate;
use crate::types::id::Id;
use crate::types::keyword::Keyword;
use crate::types::property::Property;
use crate::types::value::list_view;
use crate::types::value::Value;
use crate::types::value::ValueView;

verus! {

/// Appends the persisted forms of `items`, one after the other.
fn push_items(items: &Vec<Value>, buf: &mut Vec<u8>)
    ensures
        final(buf)@ == old(buf)@ + encode_items(list_view(items@), 0),
        forall|i: int| 0 <= i < items@.len() ==> (#[trigger] list_view(items@)[i]).wf(),
    decreases items,
{
    let ghost model = list_view(items@);
    let mut i: usize = 0;
    while i < items.len()
        invariant
            i <= items@.len(),
            model == list_view(items@),
            old(buf)@ + encode_items(model, 0) == buf@ + encode_items(model, i as nat),
            forall|j: int| 0 <= j < i ==> (#[trigger] model[j]).wf(),
        decreases items@.len() - i,
    {
        let ghost before = buf@;
        items[i].serialize_into(buf);
        proof {
            assert(model[i as int] == items@[i as int]@);
            assert(before + encode_items(model, i as nat) =~= buf@ + encode_items(
                model,
                (i + 1) as nat,
            ));
        }
        i += 1;
    }
    assert(buf@ + encode_items(model, i as nat) =~= buf@);
}

/// Appends the persisted forms of `entries`: each name, then its value.
fn push_entries(entries: &Vec<(Property, Value)>, buf: &mut Vec<u8>)
    ensures
        final(buf)@ == old(buf)@ + encode_entries(entries_view(entries@), 0),
        forall|i: int|
            0 <= i < entries@.len() ==> (#[trigger] entries_view(entries@)[i]).0.wf()
                && entries_view(entries@)[i].1.wf(),
    decreases entries,
{
    let ghost model = entries_view(entries@);
    let mut i: usize = 0;
    while i < entries.len()
        invariant
            i <= entries@.len(),
            model == entries_view(entries@),
            old(buf)@ + encode_entries(model, 0) == buf@ + encode_entries(model, i as nat),
            forall|j: int| 0 <= j < i ==> (#[trigger] model[j]).0.wf() && model[j].1.wf(),
        decreases entries@.len() - i,
    {
        let ghost before = buf@;
        entries[i].0.serialize_into(buf);
        entries[i].1.serialize_into(buf);
        proof {
            assert(model[i as int] == (entries@[i as int].0@, entries@[i as int].1@));
            assert(before + encode_entries(model, i as nat) =~= buf@ + encode_entries(
                model,
                (i + 1) as nat,
            ));
        }
        i += 1;
    }
    assert(buf@ + encode_entries(model, i as nat) =~= buf@);
}

impl Value {
    /// Appends the persisted form of the value to `buf`.
    pub fn serialize_into(&self, buf: &mut Vec<u8>)
        ensures
            final(buf)@ == old(buf)@ + encode_value(self@),
            self@.wf(),
        decreases self,
    {
        match self {
            Value::Text(text) => {
                buf.push(TEXT);
                push_text(buf, text.as_str());
                assert(buf@ =~= old(buf)@ + encode_value(self@));
            },
            Value::UnsignedInt(number) => {
                buf.push(UNSIGNED_INT);
                push_leb128(buf, *number);
                assert(buf@ =~= old(buf)@ + encode_value(self@));
            },
            Value::Bool(flag) => {
                buf.push(if *flag {
                    BOOL_TRUE
                } else {
                    BOOL_FALSE
                });
                assert(buf@ =~= old(buf)@ + encode_value(self@));
            },
            Value::Id(id) => {
                buf.push(ID);
                push_leb128(buf, id.id());
                assert(buf@ =~= old(buf)@ + encode_value(self@));
            },
            Value::Date(date) => {
                buf.push(DATE);
                push_leb128(buf, date.to_wire());
                assert(buf@ =~= old(buf)@ + encode_value(self@));
            },
            Value::BlobId(blob) => {
                buf.push(BLOB_ID);
                blob.serialize_into(buf);
                assert(buf@ =~= old(buf)@ + encode_value(self@));
            },
            Value::Keyword(keyword) => {
                buf.push(KEYWORD);
                keyword.serialize_into(buf);
                assert(buf@ =~= old(buf)@ + encode_value(self@));
            },
            Value::List(items) => {
                buf.push(LIST);
                push_leb128(buf, items.len() as u64);
                push_items(items, buf);
                assert(buf@ =~= old(buf)@ + encode_value(self@));
            },
            Value::Object(object) => {
                buf.push(OBJECT);
                push_leb128(buf, object.properties.len() as u64);
                push_entries(&object.properties, buf);
                assert(object@ == entries_view(object.properties@));
                assert(buf@ =~= old(buf)@ + encode_value(self@));
            },
            Value::Blob(data) => {
                buf.push(BLOB);
                push_bytes(buf, data.as_slice());
                assert(buf@ =~= old(buf)@ + encode_value(self@));
            },
            Value::Null => {
                buf.push(NULL);
                assert(buf@ =~= old(buf)@ + encode_value(self@));
            },
        }
    }

    /// The persisted form of the value.
    pub fn serialize(self) -> (bytes: Vec<u8>)
        ensures
            bytes@ == encode_value(self@),
            self@.wf(),
    {
        let mut buf: Vec<u8> = Vec::with_capacity(1024);
        self.serialize_into(&mut buf);
        assert(buf@ =~= encode_value(self@));
        buf
    }
}

impl Object<Value> {
    /// Appends the persisted form of the object to `buf`.
    pub fn serialize_into(&self, buf: &mut Vec<u8>)
        ensures
            final(buf)@ == old(buf)@ + encode_object(self@),
            ValueView::Object(self@).wf(),
    {
        push_leb128(buf, self.properties.len() as u64);
        push_entries(&self.properties, buf);
        assert(buf@ =~= old(buf)@ + encode_object(self@));
    }

    /// The persisted form of the object.
    pub fn serialize(&self) -> (bytes: Vec<u8>)
        ensures
            bytes@ == encode_object(self@),
            ValueView::Object(self@).wf(),
    {
        let mut buf: Vec<u8> = Vec::with_capacity(1024);
        self.serialize_into(&mut buf);
        assert(buf@ =~= encode_object(self@));
        buf
    }
}

/// Reads `count` values in a row from `bytes[at]` on, each nesting at most
/// `depth` deep.
fn next_items(bytes: &[u8], at: usize, count: u64, depth: usize) -> (r: Option<(Vec<Value>, usize)>)
    requires
        at <= bytes@.len(),
    ensures
        match (decode_items(bytes@, at as int, count as nat, depth as nat), r) {
            (Some((items, next)), Some((got, end))) => list_view(got@) == items && end == next
                && at <= next <= bytes@.len(),
            (None, None) => true,
            _ => false,
        },
    decreases depth, 1nat,
{
    let mut items: Vec<Value> = Vec::new();
    let mut pos: usize = at;
    let mut i: u64 = 0;
    while i < count
        invariant
            i <= count,
            at <= pos <= bytes@.len(),
            decode_items(bytes@, at as int, count as nat, depth as nat) == match decode_items(
                bytes@,
                pos as int,
                (count - i) as nat,
                depth as nat,
            ) {
                Some((rest, end)) => Some((list_view(items@) + rest, end)),
                None => None,
            },
        decreases count - i,
    {
        let ghost done = list_view(items@);
        match Value::deserialize_nested(bytes, pos, depth) {
            Some((value, next)) => {
                items.push(value);
                proof {
                    assert(list_view(items@) =~= done.push(value@));
                    match decode_items(bytes@, next as int, (count - i - 1) as nat, depth as nat) {
                        Some((rest, end)) => {
                            assert(done + (seq![value@] + rest) =~= list_view(items@) + rest);
                        },
                        None => {},
                    }
                }
                pos = next;
                i += 1;
            },
            None => {
                return None;
            },
        }
    }
    assert(list_view(items@) + Seq::<ValueView>::empty() =~= list_view(items@));
    Some((items, pos))
}

/// Reads `count` entries in a row from `bytes[at]` on, each a name and a
/// value that nests at most `depth` deep.
fn next_entries(bytes: &[u8], at: usize, count: u64, depth: usize) -> (r: Option<
    (Vec<(Property, Value)>, usize),
>)
    requires
        at <= bytes@.len(),
    ensures
        match (decode_entries(bytes@, at as int, count as nat, depth as nat), r) {
            (Some((entries, next)), Some((got, end))) => entries_view(got@) == entries && end
                == next && at <= next <= bytes@.len(),
            (None, None) => true,
            _ => false,
        },
    decreases depth, 1nat,
{
    let mut entries: Vec<(Property, Value)> = Vec::new();
    let mut pos: usize = at;
    let mut i: u64 = 0;
    while i < count
        invariant
            i <= count,
            at <= pos <= bytes@.len(),
            decode_entries(bytes@, at as int, count as nat, depth as nat) == match decode_entries(
                bytes@,
                pos as int,
                (count - i) as nat,
                depth as nat,
            ) {
                Some((rest, end)) => Some((entries_view(entries@) + rest, end)),
                None => None,
            },
        decreases count - i,
    {
        let ghost done = entries_view(entries@);
        let (name, middle) = match Property::deserialize_from(bytes, pos) {
            Some(read) => read,
            None => {
                return None;
            },
        };
        match Value::deserialize_nested(bytes, middle, depth) {
            Some((value, next)) => {
                let ghost entry = (name@, value@);
                entries.push((name, value));
                proof {
                    assert(entries_view(entries@) =~= done.push(entry));
                    match decode_entries(
                        bytes@,
                        next as int,
                        (count - i - 1) as nat,
                        depth as nat,
                    ) {
                        Some((rest, end)) => {
                            assert(done + (seq![entry] + rest) =~= entries_view(entries@) + rest);
                        },
                        None => {},
                    }
                }
                pos = next;
                i += 1;
            },
            None => {
                return None;
            },
        }
    }
    assert(entries_view(entries@) + ObjectView::empty() =~= entries_view(entries@));
    Some((entries, pos))
}

impl Value {
    /// Reads the value that starts at `bytes[at]`, with lists and objects
    /// nesting at most `depth` deep.
    pub fn deserialize_nested(bytes: &[u8], at: usize, depth: usize) -> (r: Option<(Value, usize)>)
        ensures
            match (decode_value(bytes@, at as int, depth as nat), r) {
                (Some((value, next)), Some((got, end))) => got@ == value && end == next && at
                    < next <= bytes@.len(),
                (None, None) => true,
                _ => false,
            },
        decreases depth, 0nat,
    {
        if at >= bytes.len() {
            return None;
        }
        let tag: u8 = bytes[at];
        let start: usize = at + 1;
        if tag == TEXT {
            match next_text(bytes, start) {
                Some((text, next)) => Some((Value::Text(text), next)),
                None => None,
            }
        } else if tag == UNSIGNED_INT {
            match next_leb128(bytes, start) {
                Some((number, next)) => Some((Value::UnsignedInt(number), next)),
                None => None,
            }
        } else if tag == BOOL_TRUE {
            Some((Value::Bool(true), start))
        } else if tag == BOOL_FALSE {
            Some((Value::Bool(false), start))
        } else if tag == ID {
            match next_leb128(bytes, start) {
                Some((id, next)) => Some((Value::Id(Id::new(id)), next)),
                None => None,
            }
        } else if tag == DATE {
            match next_leb128(bytes, start) {
                Some((wire, next)) => Some((Value::Date(UTCDate::from_wire(wire)), next)),
                None => None,
            }
        } else if tag == BLOB_ID {
            match BlobId::deserialize_from(bytes, start) {
                Some((blob, next)) => Some((Value::BlobId(blob), next)),
                None => None,
            }
        } else if tag == BLOB {
            match next_bytes(bytes, start) {
                Some((data, next)) => Some((Value::Blob(data), next)),
                None => None,
            }
        } else if tag == KEYWORD {
            match Keyword::deserialize_from(bytes, start) {
                Some((keyword, next)) => Some((Value::Keyword(keyword), next)),
                None => None,
            }
        } else if tag == LIST {
            if depth == 0 {
                return None;
            }
            let (count, next) = match next_leb128(bytes, start) {
                Some(read) => read,
                None => {
                    return None;
                },
            };
            match next_items(bytes, next, count, depth - 1) {
                Some((items, end)) => Some((Value::List(items), end)),
                None => None,
            }
        } else if tag == OBJECT {
            if depth == 0 {
                return None;
            }
            let (count, next) = match next_leb128(bytes, start) {
                Some(read) => read,
                None => {
                    return None;
                },
            };
            match next_entries(bytes, next, count, depth - 1) {
                Some((properties, end)) => {
                    let object = Object { properties };
                    assert(object@ == entries_view(object.properties@));
                    Some((Value::Object(object), end))
                },
                None => None,
            }
        } else if tag == NULL {
            Some((Value::Null, start))
        } else {
            None
        }
    }

    /// Reads the value that starts at `bytes[at]` and gives it with the
    /// position after it. Bytes after the value are not looked at.
    pub fn deserialize_from(bytes: &[u8], at: usize) -> (r: Option<(Value, usize)>)
        ensures
            match (decode_value(bytes@, at as int, MAX_DEPTH as nat), r) {
                (Some((value, next)), Some((got, end))) => got@ == value && end == next && at
                    < next <= bytes@.len(),
                (None, None) => true,
                _ => false,
            },
    {
        Value::deserialize_nested(bytes, at, MAX_DEPTH)
    }

    /// Reads the value that `bytes` starts with; bytes after it are
    /// ignored. Fails with an internal error when no value stands there.
    pub fn deserialize(bytes: &[u8]) -> (r: Result<Value, StoreError>)
        ensures
            match (decode_value(bytes@, 0, MAX_DEPTH as nat), r) {
                (Some((value, _)), Ok(got)) => got@ == value,
                (None, Err(StoreError::InternalError(text))) => text@
                    == "Failed to deserialize value."@,
                _ => false,
            },
    {
        match Value::deserialize_from(bytes, 0) {
            Some((value, _)) => Ok(value),
            None => Err(StoreError::InternalError(String::from_str("Failed to deserialize value."))),
        }
    }
}

impl Object<Value> {
    /// Reads the object that starts at `bytes[at]` and gives it with the
    /// position after it. The object's values nest as deep as a value's
    /// may.
    pub fn deserialize_from(bytes: &[u8], at: usize) -> (r: Option<(Object<Value>, usize)>)
        ensures
            match (decode_object(bytes@, at as int, MAX_DEPTH as nat), r) {
                (Some((entries, next)), Some((got, end))) => got@ == entries && end == next
                    && at < next <= bytes@.len(),
                (None, None) => true,
                _ => false,
            },
    {
        let (count, next) = match next_leb128(bytes, at) {
            Some(read) => read,
            None => {
                return None;
            },
        };
        match next_entries(bytes, next, count, MAX_DEPTH) {
            Some((properties, end)) => {
                let object = Object { properties };
                assert(object@ == entries_view(object.properties@));
                Some((object, end))
            },
            None => None,
        }
    }

    /// Reads the object that `bytes` starts with; bytes after it are
    /// ignored. Fails with an internal error when no object stands there.
    pub fn deserialize(bytes: &[u8]) -> (r: Result<Object<Value>, StoreError>)
        ensures
            match (decode_object(bytes@, 0, MAX_DEPTH as nat), r) {
                (Some((entries, _)), Ok(got)) => got@ == entries,
                (None, Err(StoreError::InternalError(text))) => text@
                    == "Failed to deserialize object."@,
                _ => false,
            },
    {
        match Object::deserialize_from(bytes, 0) {
            Some((object, _)) => Ok(object),
            None => Err(
                StoreError::InternalError(String::from_str("Failed to deserialize object.")),
            ),
        }
    }
}

} // verus!
