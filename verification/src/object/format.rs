//! The persisted form of values and objects.
//!
//! Every value starts with one tag byte. Integers, lengths and counts are
//! LEB128 numbers; lists and objects carry the number of their entries and
//! then the entries, in order.

use vstd::prelude::*;
use crate::codec::leb128::leb128_decode;
use crate::codec::leb128::leb128_encode;
use crate::codec::text::decode_bytes;
use crate::codec::text::decode_text;
use crate::codec::text::encode_bytes;
use crate::codec::text::encode_text;
use crate::object::ObjectView;
use crate::types::blob::decode_blob_id;
use crate::types::blob::encode_blob_id;
use crate::types::date::timestamp_from_wire;
use crate::types::date::timestamp_to_wire;
use crate::types::keyword::decode_keyword;
use crate::types::keyword::encode_keyword;
use crate::types::property::decode_property;
use crate::types::property::encode_property;
use crate::types::value::ValueView;

verus! {

pub const TEXT: u8 = 0;

pub const UNSIGNED_INT: u8 = 1;

pub const BOOL_TRUE: u8 = 2;

pub const BOOL_FALSE: u8 = 3;

pub const ID: u8 = 4;

pub const DATE: u8 = 5;

pub const BLOB_ID: u8 = 6;

pub const BLOB: u8 = 7;

pub const KEYWORD: u8 = 8;

pub const LIST: u8 = 9;

pub const OBJECT: u8 = 10;

pub const NULL: u8 = 11;

/// How deep lists and objects may nest in a value that the decoder accepts.
pub const MAX_DEPTH: usize = 64;

/// The persisted form of a value.
pub open spec fn encode_value(value: ValueView) -> Seq<u8>
    decreases value, 0nat,
{
    match value {
        ValueView::Text(text) => seq![TEXT] + encode_text(text),
        ValueView::UnsignedInt(number) => seq![UNSIGNED_INT] + leb128_encode(number as nat),
        ValueView::Bool(flag) => if flag {
            seq![BOOL_TRUE]
        } else {
            seq![BOOL_FALSE]
        },
        ValueView::Id(id) => seq![ID] + leb128_encode(id as nat),
        ValueView::Date(timestamp) => seq![DATE] + leb128_encode(
            timestamp_to_wire(timestamp) as nat,
        ),
        ValueView::BlobId(blob) => seq![BLOB_ID] + encode_blob_id(blob),
        ValueView::Blob(data) => seq![BLOB] + encode_bytes(data),
        ValueView::Keyword(keyword) => seq![KEYWORD] + encode_keyword(keyword),
        ValueView::List(items) => seq![LIST] + leb128_encode(items.len()) + encode_items(items, 0),
        ValueView::Object(entries) => seq![OBJECT] + leb128_encode(entries.len())
            + encode_entries(entries, 0),
        ValueView::Null => seq![NULL],
    }
}

/// The persisted forms of the items from index `from` on, one after the
/// other.
pub open spec fn encode_items(items: Seq<ValueView>, from: nat) -> Seq<u8>
    decreases items, items.len() - from,
{
    if from >= items.len() {
        Seq::empty()
    } else {
        encode_value(items[from as int]) + encode_items(items, from + 1)
    }
}

/// The persisted forms of the entries from index `from` on: each name, then
/// its value.
pub open spec fn encode_entries(entries: ObjectView, from: nat) -> Seq<u8>
    decreases entries, entries.len() - from,
{
    if from >= entries.len() {
        Seq::empty()
    } else {
        encode_property(entries[from as int].0) + encode_value(entries[from as int].1)
            + encode_entries(entries, from + 1)
    }
}

/// The persisted form of an object: the number of its entries, then the
/// entries in order.
pub open spec fn encode_object(entries: ObjectView) -> Seq<u8> {
    leb128_encode(entries.len()) + encode_entries(entries, 0)
}

/// The value that starts at `bytes[at]` and the position after it, with
/// lists and objects nesting at most `depth` deep. `None` when the tag is
/// unknown, the input ends early, a number is malformed, text is not UTF-8,
/// or the nesting goes deeper.
pub open spec fn decode_value(bytes: Seq<u8>, at: int, depth: nat) -> Option<(ValueView, int)>
    decreases depth, 0nat,
{
    if at < 0 || at >= bytes.len() {
        None
    } else if bytes[at] == TEXT {
        match decode_text(bytes, at + 1) {
            Some((text, next)) => Some((ValueView::Text(text), next)),
            None => None,
        }
    } else if bytes[at] == UNSIGNED_INT {
        match leb128_decode(bytes, at + 1) {
            Some((number, next)) => Some((ValueView::UnsignedInt(number), next)),
            None => None,
        }
    } else if bytes[at] == BOOL_TRUE {
        Some((ValueView::Bool(true), at + 1))
    } else if bytes[at] == BOOL_FALSE {
        Some((ValueView::Bool(false), at + 1))
    } else if bytes[at] == ID {
        match leb128_decode(bytes, at + 1) {
            Some((id, next)) => Some((ValueView::Id(id), next)),
            None => None,
        }
    } else if bytes[at] == DATE {
        match leb128_decode(bytes, at + 1) {
            Some((wire, next)) => Some((ValueView::Date(timestamp_from_wire(wire)), next)),
            None => None,
        }
    } else if bytes[at] == BLOB_ID {
        match decode_blob_id(bytes, at + 1) {
            Some((blob, next)) => Some((ValueView::BlobId(blob), next)),
            None => None,
        }
    } else if bytes[at] == BLOB {
        match decode_bytes(bytes, at + 1) {
            Some((data, next)) => Some((ValueView::Blob(data), next)),
            None => None,
        }
    } else if bytes[at] == KEYWORD {
        match decode_keyword(bytes, at + 1) {
            Some((keyword, next)) => Some((ValueView::Keyword(keyword), next)),
            None => None,
        }
    } else if bytes[at] == LIST {
        if depth == 0 {
            None
        } else {
            match leb128_decode(bytes, at + 1) {
                Some((count, next)) => match decode_items(
                    bytes,
                    next,
                    count as nat,
                    (depth - 1) as nat,
                ) {
                    Some((items, end)) => Some((ValueView::List(items), end)),
                    None => None,
                },
                None => None,
            }
        }
    } else if bytes[at] == OBJECT {
        if depth == 0 {
            None
        } else {
            match leb128_decode(bytes, at + 1) {
                Some((count, next)) => match decode_entries(
                    bytes,
                    next,
                    count as nat,
                    (depth - 1) as nat,
                ) {
                    Some((entries, end)) => Some((ValueView::Object(entries), end)),
                    None => None,
                },
                None => None,
            }
        }
    } else if bytes[at] == NULL {
        Some((ValueView::Null, at + 1))
    } else {
        None
    }
}

/// `count` values in a row from `bytes[at]` on, each nesting at most
/// `depth` deep, and the position after the last.
pub open spec fn decode_items(bytes: Seq<u8>, at: int, count: nat, depth: nat) -> Option<
    (Seq<ValueView>, int),
>
    decreases depth, count + 1,
{
    if count == 0 {
        Some((Seq::empty(), at))
    } else {
        match decode_value(bytes, at, depth) {
            Some((first, next)) => match decode_items(bytes, next, (count - 1) as nat, depth) {
                Some((rest, end)) => Some((seq![first] + rest, end)),
                None => None,
            },
            None => None,
        }
    }
}

/// `count` entries in a row from `bytes[at]` on, each a name and a value
/// that nests at most `depth` deep, and the position after the last.
pub open spec fn decode_entries(bytes: Seq<u8>, at: int, count: nat, depth: nat) -> Option<
    (ObjectView, int),
>
    decreases depth, count + 1,
{
    if count == 0 {
        Some((Seq::empty(), at))
    } else {
        match decode_property(bytes, at) {
            Some((name, middle)) => match decode_value(bytes, middle, depth) {
                Some((value, next)) => match decode_entries(
                    bytes,
                    next,
                    (count - 1) as nat,
                    depth,
                ) {
                    Some((rest, end)) => Some((seq![(name, value)] + rest, end)),
                    None => None,
                },
                None => None,
            },
            None => None,
        }
    }
}

/// The object that starts at `bytes[at]`, whose values nest at most `depth`
/// deep, and the position after it.
pub open spec fn decode_object(bytes: Seq<u8>, at: int, depth: nat) -> Option<(ObjectView, int)> {
    match leb128_decode(bytes, at) {
        Some((count, next)) => decode_entries(bytes, next, count as nat, depth),
        None => None,
    }
}

/// Whether an object can be written to the wire and nests at most `depth`
/// deep below its own level.
pub open spec fn object_fits(entries: ObjectView, depth: nat) -> bool {
    &&& ValueView::Object(entries).wf()
    &&& ValueView::Object(entries).nests_within(depth + 1)
}

} // verus!
