//! Length-prefixed byte strings and UTF-8 text.

use vstd::prelude::*;
use vstd::slice::slice_subrange;
use vstd::slice::slice_to_vec;
use vstd::utf8::decode_utf8;
use vstd::utf8::encode_utf8;
use vstd::utf8::encode_utf8_decode_utf8;
use vstd::utf8::encode_utf8_valid_utf8;
use vstd::utf8::valid_utf8;
use crate::codec::leb128::leb128_decode;
use crate::codec::leb128::leb128_encode;
use crate::codec::leb128::lemma_leb128_round_trip;
use crate::codec::leb128::next_leb128;
use crate::codec::leb128::push_leb128;

verus! {

/// `part` stands in `bytes` from position `at` on.
pub open spec fn holds_at(bytes: Seq<u8>, at: int, part: Seq<u8>) -> bool {
    &&& 0 <= at
    &&& at + part.len() <= bytes.len()
    &&& bytes.subrange(at, at + part.len()) == part
}

/// Where a concatenation stands in the input, so does each half.
pub proof fn lemma_holds_at_split(bytes: Seq<u8>, at: int, head: Seq<u8>, tail: Seq<u8>)
    requires
        holds_at(bytes, at, head + tail),
    ensures
        holds_at(bytes, at, head),
        holds_at(bytes, at + head.len(), tail),
{
    let whole = head + tail;
    assert(bytes.subrange(at, at + head.len()) =~= head) by {
        assert forall|i: int| 0 <= i < head.len() implies bytes[at + i] == head[i] by {
            assert(bytes[at + i] == bytes.subrange(at, at + whole.len())[i]);
        }
    }
    assert(bytes.subrange(at + head.len(), at + head.len() + tail.len()) =~= tail) by {
        assert forall|i: int| 0 <= i < tail.len() implies bytes[at + head.len() + i] == tail[i] by {
            assert(bytes[at + head.len() + i] == bytes.subrange(at, at + whole.len())[head.len()
                + i]);
        }
    }
}

/// A byte string on the wire: its length, then the bytes.
pub open spec fn encode_bytes(data: Seq<u8>) -> Seq<u8> {
    leb128_encode(data.len()) + data
}

/// The byte string at `bytes[at..]` and the position after it; `None` when
/// the length is malformed or the input ends before the last byte.
pub open spec fn decode_bytes(bytes: Seq<u8>, at: int) -> Option<(Seq<u8>, int)> {
    match leb128_decode(bytes, at) {
        Some((len, next)) => if next + len <= bytes.len() {
            Some((bytes.subrange(next, next + len), next + len))
        } else {
            None
        },
        None => None,
    }
}

/// Text on the wire: the length of its UTF-8 form in bytes, then that form.
pub open spec fn encode_text(text: Seq<char>) -> Seq<u8> {
    encode_bytes(encode_utf8(text))
}

/// The text at `bytes[at..]` and the position after it; `None` when no byte
/// string stands there or when its bytes are not UTF-8.
pub open spec fn decode_text(bytes: Seq<u8>, at: int) -> Option<(Seq<char>, int)> {
    match decode_bytes(bytes, at) {
        Some((data, next)) => if valid_utf8(data) {
            Some((decode_utf8(data), next))
        } else {
            None
        },
        None => None,
    }
}

/// Size in bytes of the UTF-8 form of `text`.
pub open spec fn utf8_len(text: Seq<char>) -> nat {
    encode_utf8(text).len()
}

/// A byte string whose length fits in 64 bits is read back as it was
/// written.
pub proof fn lemma_bytes_round_trip(bytes: Seq<u8>, at: int, data: Seq<u8>)
    requires
        data.len() <= u64::MAX,
        holds_at(bytes, at, encode_bytes(data)),
    ensures
        decode_bytes(bytes, at) == Some((data, at + encode_bytes(data).len())),
{
    let prefix = leb128_encode(data.len());
    lemma_holds_at_split(bytes, at, prefix, data);
    lemma_leb128_round_trip(bytes, at, data.len() as u64);
}

/// Text whose UTF-8 form fits in 64 bits of length is read back as it was
/// written.
pub proof fn lemma_text_round_trip(bytes: Seq<u8>, at: int, text: Seq<char>)
    requires
        utf8_len(text) <= u64::MAX,
        holds_at(bytes, at, encode_text(text)),
    ensures
        decode_text(bytes, at) == Some((text, at + encode_text(text).len())),
{
    lemma_bytes_round_trip(bytes, at, encode_utf8(text));
    encode_utf8_valid_utf8(text);
    encode_utf8_decode_utf8(text);
}

/// Appends `data` to `buf`, byte by byte.
pub fn push_slice(buf: &mut Vec<u8>, data: &[u8])
    ensures
        final(buf)@ == old(buf)@ + data@,
{
    let mut i: usize = 0;
    while i < data.len()
        invariant
            i <= data@.len(),
            buf@ == old(buf)@ + data@.subrange(0, i as int),
        decreases data@.len() - i,
    {
        buf.push(data[i]);
        i += 1;
        assert(buf@ =~= old(buf)@ + data@.subrange(0, i as int));
    }
    assert(data@.subrange(0, i as int) =~= data@);
}

/// Appends the wire form of the byte string `data` to `buf`.
pub fn push_bytes(buf: &mut Vec<u8>, data: &[u8])
    ensures
        final(buf)@ == old(buf)@ + encode_bytes(data@),
        data@.len() <= u64::MAX,
{
    push_leb128(buf, data.len() as u64);
    push_slice(buf, data);
    assert(buf@ =~= old(buf)@ + encode_bytes(data@));
}

/// Appends the wire form of `text` to `buf`.
pub fn push_text(buf: &mut Vec<u8>, text: &str)
    ensures
        final(buf)@ == old(buf)@ + encode_text(text@),
        utf8_len(text@) <= u64::MAX,
{
    push_bytes(buf, text.as_bytes());
}

/// Reads the byte string that starts at `bytes[at]`.
pub fn next_bytes(bytes: &[u8], at: usize) -> (r: Option<(Vec<u8>, usize)>)
    ensures
        match (decode_bytes(bytes@, at as int), r) {
            (Some((data, next)), Some((got, end))) => got@ == data && end == next && at < next
                <= bytes@.len(),
            (None, None) => true,
            _ => false,
        },
{
    match next_leb128(bytes, at) {
        Some((len, start)) => {
            if len > (bytes.len() - start) as u64 {
                None
            } else {
                let end: usize = start + len as usize;
                let data = slice_to_vec(slice_subrange(bytes, start, end));
                Some((data, end))
            }
        },
        None => None,
    }
}

/// `String::from_utf8` of std: the bytes become a string exactly when they
/// are well-formed UTF-8, and the string then holds the characters that they
/// encode. Believed, not proved.
#[verifier::external_body]
fn string_from_utf8(data: Vec<u8>) -> (r: Option<String>)
    ensures
        r is Some <==> valid_utf8(data@),
        r is Some ==> r->0@ == decode_utf8(data@),
{
    match String::from_utf8(data) {
        Ok(text) => Some(text),
        Err(_) => None,
    }
}

/// Reads the text that starts at `bytes[at]`.
pub fn next_text(bytes: &[u8], at: usize) -> (r: Option<(String, usize)>)
    ensures
        match (decode_text(bytes@, at as int), r) {
            (Some((text, next)), Some((got, end))) => got@ == text && end == next && at < next
                <= bytes@.len(),
            (None, None) => true,
            _ => false,
        },
{
    match next_bytes(bytes, at) {
        Some((data, next)) => match string_from_utf8(data) {
            Some(text) => Some((text, next)),
            None => None,
        },
        None => None,
    }
}

/// Two strings hold the same characters exactly when their UTF-8 forms are
/// the same bytes.
pub proof fn lemma_utf8_injective(a: Seq<char>, b: Seq<char>)
    ensures
        (encode_utf8(a) == encode_utf8(b)) <==> a == b,
{
    encode_utf8_decode_utf8(a);
    encode_utf8_decode_utf8(b);
}

/// Whether two byte slices hold the same bytes.
pub fn same_bytes(a: &[u8], b: &[u8]) -> (r: bool)
    ensures
        r == (a@ == b@),
{
    if a.len() != b.len() {
        return false;
    }
    let mut i: usize = 0;
    while i < a.len()
        invariant
            i <= a@.len(),
            a@.len() == b@.len(),
            a@.subrange(0, i as int) == b@.subrange(0, i as int),
        decreases a@.len() - i,
    {
        if a[i] != b[i] {
            return false;
        }
        i += 1;
        assert(a@.subrange(0, i as int) =~= a@.subrange(0, i - 1).push(a@[i - 1]));
        assert(b@.subrange(0, i as int) =~= b@.subrange(0, i - 1).push(b@[i - 1]));
    }
    assert(a@ =~= a@.subrange(0, i as int));
    assert(b@ =~= b@.subrange(0, i as int));
    true
}

/// Whether two strings hold the same characters.
pub fn same_text(a: &str, b: &str) -> (r: bool)
    ensures
        r == (a@ == b@),
{
    proof {
        lemma_utf8_injective(a@, b@);
    }
    same_bytes(a.as_bytes(), b.as_bytes())
}

/// A name on the wire: one tag byte, and after the tag `open_tag` alone the
/// text of a name that has no tag of its own.
pub open spec fn encode_name(tag: u8, name: Seq<char>, open_tag: u8) -> Seq<u8> {
    if tag == open_tag {
        seq![tag] + encode_text(name)
    } else {
        seq![tag]
    }
}

/// The name at `bytes[at..]` as its tag and text, and the position after it.
/// Tags up to `last_tag` stand alone; `open_tag` is followed by text; any
/// other tag is refused.
pub open spec fn decode_name(bytes: Seq<u8>, at: int, last_tag: u8, open_tag: u8) -> Option<
    (u8, Seq<char>, int),
> {
    if at < 0 || at >= bytes.len() {
        None
    } else if bytes[at] == open_tag {
        match decode_text(bytes, at + 1) {
            Some((name, next)) => Some((open_tag, name, next)),
            None => None,
        }
    } else if bytes[at] <= last_tag {
        Some((bytes[at], Seq::empty(), at + 1))
    } else {
        None
    }
}

/// A well-formed name is read back as it was written.
pub proof fn lemma_name_round_trip(
    bytes: Seq<u8>,
    at: int,
    tag: u8,
    name: Seq<char>,
    last_tag: u8,
    open_tag: u8,
)
    requires
        tag == open_tag || (tag <= last_tag && name == Seq::<char>::empty()),
        utf8_len(name) <= u64::MAX,
        holds_at(bytes, at, encode_name(tag, name, open_tag)),
    ensures
        decode_name(bytes, at, last_tag, open_tag) == Some(
            (tag, name, at + encode_name(tag, name, open_tag).len()),
        ),
{
    let enc = encode_name(tag, name, open_tag);
    assert(bytes[at] == bytes.subrange(at, at + enc.len())[0]);
    if tag == open_tag {
        lemma_holds_at_split(bytes, at, seq![tag], encode_text(name));
        lemma_text_round_trip(bytes, at + 1, name);
    }
}

} // verus!
