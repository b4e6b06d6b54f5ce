//! What holds of the persisted form: whatever is written is read back.

use vstd::prelude::*;
use crate::codec::leb128::leb128_encode;
use crate::codec::leb128::lemma_leb128_round_trip;
use crate::codec::text::encode_bytes;
use crate::codec::text::encode_text;
use crate::codec::text::holds_at;
use crate::codec::text::lemma_bytes_round_trip;
use crate::codec::text::lemma_holds_at_split;
use crate::codec::text::lemma_name_round_trip;
use crate::codec::text::lemma_text_round_trip;
use crate::object::format::BLOB;
use crate::object::format::BLOB_ID;
use crate::object::format::DATE;
use crate::object::format::decode_entries;
use crate::object::format::decode_items;
use crate::object::format::decode_object;
use crate::object::format::decode_value;
use crate::object::format::encode_entries;
use crate::object::format::encode_items;
use crate::object::format::encode_object;
use crate::object::format::encode_value;
use crate::object::format::ID;
use crate::object::format::KEYWORD;
use crate::object::format::LIST;
use crate::object::format::MAX_DEPTH;
use crate::object::format::NULL;
use crate::object::format::OBJECT;
use crate::object::format::object_fits;
use crate::object::format::TEXT;
use crate::object::format::UNSIGNED_INT;
use crate::object::ObjectView;
use crate::types::blob::encode_blob_id;
use crate::types::blob::lemma_blob_id_round_trip;
use crate::types::date::timestamp_to_wire;
use crate::types::keyword::encode_keyword;
use crate::types::keyword::LAST_KEYWORD_TAG;
use crate::types::keyword::OTHER_KEYWORD_TAG;
use crate::types::property::encode_property;
use crate::types::property::EXTENSION_TAG;
use crate::types::property::LAST_PROPERTY_TAG;
use crate::types::value::ValueView;

verus! {

/// The byte at which a part stands is the part's first byte.
proof fn lemma_first_byte(bytes: Seq<u8>, at: int, part: Seq<u8>)
    requires
        holds_at(bytes, at, part),
        part.len() > 0,
    ensures
        at < bytes.len(),
        bytes[at] == part[0],
{
    assert(bytes[at] == bytes.subrange(at, at + part.len())[0]);
}

/// A value that can be written, and that nests no deeper than the decoder
/// goes, is read back as it was written, wherever its bytes stand in the
/// input and whatever follows them.
pub proof fn lemma_value_round_trip(bytes: Seq<u8>, at: int, value: ValueView, depth: nat)
    requires
        value.wf(),
        value.nests_within(depth),
        holds_at(bytes, at, encode_value(value)),
    ensures
        decode_value(bytes, at, depth) == Some((value, at + encode_value(value).len())),
    decreases value, 0nat,
{
    let enc = encode_value(value);
    match value {
        ValueView::Text(text) => {
            lemma_first_byte(bytes, at, enc);
            lemma_holds_at_split(bytes, at, seq![TEXT], encode_text(text));
            lemma_text_round_trip(bytes, at + 1, text);
        },
        ValueView::UnsignedInt(number) => {
            lemma_first_byte(bytes, at, enc);
            lemma_holds_at_split(bytes, at, seq![UNSIGNED_INT], leb128_encode(number as nat));
            lemma_leb128_round_trip(bytes, at + 1, number);
        },
        ValueView::Bool(flag) => {
            lemma_first_byte(bytes, at, enc);
        },
        ValueView::Id(id) => {
            lemma_first_byte(bytes, at, enc);
            lemma_holds_at_split(bytes, at, seq![ID], leb128_encode(id as nat));
            lemma_leb128_round_trip(bytes, at + 1, id);
        },
        ValueView::Date(timestamp) => {
            lemma_first_byte(bytes, at, enc);
            let wire = timestamp_to_wire(timestamp);
            lemma_holds_at_split(bytes, at, seq![DATE], leb128_encode(wire as nat));
            lemma_leb128_round_trip(bytes, at + 1, wire);
        },
        ValueView::BlobId(blob) => {
            lemma_first_byte(bytes, at, enc);
            lemma_holds_at_split(bytes, at, seq![BLOB_ID], encode_blob_id(blob));
            lemma_blob_id_round_trip(bytes, at + 1, blob);
        },
        ValueView::Blob(data) => {
            lemma_first_byte(bytes, at, enc);
            lemma_holds_at_split(bytes, at, seq![BLOB], encode_bytes(data));
            lemma_bytes_round_trip(bytes, at + 1, data);
        },
        ValueView::Keyword(keyword) => {
            lemma_first_byte(bytes, at, enc);
            lemma_holds_at_split(bytes, at, seq![KEYWORD], encode_keyword(keyword));
            lemma_name_round_trip(
                bytes,
                at + 1,
                keyword.tag,
                keyword.name,
                LAST_KEYWORD_TAG,
                OTHER_KEYWORD_TAG,
            );
        },
        ValueView::List(items) => {
            lemma_first_byte(bytes, at, enc);
            let count = leb128_encode(items.len());
            let body = encode_items(items, 0);
            lemma_holds_at_split(bytes, at, seq![LIST] + count, body);
            lemma_holds_at_split(bytes, at, seq![LIST], count);
            lemma_leb128_round_trip(bytes, at + 1, items.len() as u64);
            lemma_items_round_trip(bytes, at + 1 + count.len(), items, 0, (depth - 1) as nat);
            assert(items.subrange(0, items.len() as int) =~= items);
        },
        ValueView::Object(entries) => {
            lemma_first_byte(bytes, at, enc);
            let count = leb128_encode(entries.len());
            let body = encode_entries(entries, 0);
            lemma_holds_at_split(bytes, at, seq![OBJECT] + count, body);
            lemma_holds_at_split(bytes, at, seq![OBJECT], count);
            lemma_leb128_round_trip(bytes, at + 1, entries.len() as u64);
            lemma_entries_round_trip(bytes, at + 1 + count.len(), entries, 0, (depth - 1) as nat);
            assert(entries.subrange(0, entries.len() as int) =~= entries);
        },
        ValueView::Null => {
            lemma_first_byte(bytes, at, enc);
        },
    }
}

/// The items of a list from index `from` on are read back in their order.
pub proof fn lemma_items_round_trip(
    bytes: Seq<u8>,
    at: int,
    items: Seq<ValueView>,
    from: nat,
    depth: nat,
)
    requires
        from <= items.len(),
        forall|i: int| 0 <= i < items.len() ==> (#[trigger] items[i]).wf(),
        forall|i: int| 0 <= i < items.len() ==> (#[trigger] items[i]).nests_within(depth),
        holds_at(bytes, at, encode_items(items, from)),
    ensures
        decode_items(bytes, at, (items.len() - from) as nat, depth) == Some(
            (items.subrange(from as int, items.len() as int), at + encode_items(items, from).len()),
        ),
    decreases items, items.len() - from,
{
    if from < items.len() {
        let first = encode_value(items[from as int]);
        let rest = encode_items(items, from + 1);
        lemma_holds_at_split(bytes, at, first, rest);
        lemma_value_round_trip(bytes, at, items[from as int], depth);
        lemma_items_round_trip(bytes, at + first.len(), items, from + 1, depth);
        assert(seq![items[from as int]] + items.subrange((from + 1) as int, items.len() as int)
            =~= items.subrange(from as int, items.len() as int));
    } else {
        assert(items.subrange(from as int, items.len() as int) =~= Seq::<ValueView>::empty());
    }
}

/// The entries of an object from index `from` on are read back in their
/// order, names and values alike.
pub proof fn lemma_entries_round_trip(
    bytes: Seq<u8>,
    at: int,
    entries: ObjectView,
    from: nat,
    depth: nat,
)
    requires
        from <= entries.len(),
        forall|i: int| 0 <= i < entries.len() ==> (#[trigger] entries[i]).0.wf() && entries[i].1.wf(),
        forall|i: int| 0 <= i < entries.len() ==> (#[trigger] entries[i]).1.nests_within(depth),
        holds_at(bytes, at, encode_entries(entries, from)),
    ensures
        decode_entries(bytes, at, (entries.len() - from) as nat, depth) == Some(
            (
                entries.subrange(from as int, entries.len() as int),
                at + encode_entries(entries, from).len(),
            ),
        ),
    decreases entries, entries.len() - from,
{
    if from < entries.len() {
        let entry = entries[from as int];
        let name = encode_property(entry.0);
        let value = encode_value(entry.1);
        let rest = encode_entries(entries, from + 1);
        lemma_holds_at_split(bytes, at, name + value, rest);
        lemma_holds_at_split(bytes, at, name, value);
        lemma_name_round_trip(
            bytes,
            at,
            entry.0.tag,
            entry.0.name,
            LAST_PROPERTY_TAG,
            EXTENSION_TAG,
        );
        lemma_value_round_trip(bytes, at + name.len(), entry.1, depth);
        lemma_entries_round_trip(bytes, at + name.len() + value.len(), entries, from + 1, depth);
        assert(seq![entry] + entries.subrange((from + 1) as int, entries.len() as int) =~= entries.subrange(
            from as int,
            entries.len() as int,
        ));
    } else {
        assert(entries.subrange(from as int, entries.len() as int) =~= ObjectView::empty());
    }
}

/// Decoding the persisted form of a value gives the value back: the same
/// kind, the same content, lists and objects in the same order. It holds
/// for every value that can be written and that nests no deeper than the
/// decoder goes.
pub proof fn law_value_round_trip(value: ValueView)
    requires
        value.wf(),
        value.nests_within(MAX_DEPTH as nat),
    ensures
        decode_value(encode_value(value), 0, MAX_DEPTH as nat) == Some(
            (value, encode_value(value).len() as int),
        ),
{
    let enc = encode_value(value);
    assert(enc.subrange(0, enc.len() as int) =~= enc);
    lemma_value_round_trip(enc, 0, value, MAX_DEPTH as nat);
}

/// Decoding the persisted form of an object gives back the same entries
/// in the same order.
pub proof fn law_object_round_trip(entries: ObjectView)
    requires
        object_fits(entries, MAX_DEPTH as nat),
    ensures
        decode_object(encode_object(entries), 0, MAX_DEPTH as nat) == Some(
            (entries, encode_object(entries).len() as int),
        ),
{
    let enc = encode_object(entries);
    assert(enc.subrange(0, enc.len() as int) =~= enc);
    let count = leb128_encode(entries.len());
    lemma_holds_at_split(enc, 0, count, encode_entries(entries, 0));
    lemma_leb128_round_trip(enc, 0, entries.len() as u64);
    lemma_entries_round_trip(enc, count.len() as int, entries, 0, MAX_DEPTH as nat);
    assert(entries.subrange(0, entries.len() as int) =~= entries);
}

/// Bytes that follow a value do not change what is read.
pub proof fn law_trailing_bytes_ignored(value: ValueView, trailing: Seq<u8>)
    requires
        value.wf(),
        value.nests_within(MAX_DEPTH as nat),
    ensures
        decode_value(encode_value(value) + trailing, 0, MAX_DEPTH as nat) == Some(
            (value, encode_value(value).len() as int),
        ),
{
    let enc = encode_value(value);
    assert((enc + trailing).subrange(0, enc.len() as int) =~= enc);
    lemma_value_round_trip(enc + trailing, 0, value, MAX_DEPTH as nat);
}

/// A byte that is no tag starts no value.
pub proof fn law_unknown_tag(bytes: Seq<u8>, at: int, depth: nat)
    requires
        0 <= at < bytes.len(),
        bytes[at] > NULL,
    ensures
        decode_value(bytes, at, depth) is None,
{
}

/// Every date comes back from its persisted form, whatever its timestamp:
/// negative, zero, or the largest or smallest that 64 bits hold.
pub proof fn law_date_round_trip(timestamp: i64)
    ensures
        decode_value(encode_value(ValueView::Date(timestamp)), 0, MAX_DEPTH as nat) == Some(
            (ValueView::Date(timestamp), encode_value(ValueView::Date(timestamp)).len() as int),
        ),
{
    law_value_round_trip(ValueView::Date(timestamp));
}

} // verus!
