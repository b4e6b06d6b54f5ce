//! Little-endian base-128 variable-length unsigned integers.

use vstd::prelude::*;

verus! {

/// Longest accepted encoding: ten groups of seven bits cover 64 bits.
pub const MAX_GROUPS: u8 = 10;

/// The encoding of `value`: seven bits per byte, least significant group
/// first, the high bit set on every byte but the last.
pub open spec fn leb128_encode(value: nat) -> Seq<u8>
    decreases value,
{
    if value < 128 {
        seq![value as u8]
    } else {
        seq![(value % 128 + 128) as u8] + leb128_encode(value / 128)
    }
}

/// Reads groups from `bytes[at..]`, at most `room` of them. Gives the number
/// read, with no bound on its size, and the position after its last byte.
pub open spec fn leb128_groups(bytes: Seq<u8>, at: int, room: nat) -> Option<(nat, int)>
    decreases room,
{
    if room == 0 || at < 0 || at >= bytes.len() {
        None
    } else if bytes[at] < 128 {
        Some((bytes[at] as nat, at + 1))
    } else {
        match leb128_groups(bytes, at + 1, (room - 1) as nat) {
            Some((high, next)) => Some(((bytes[at] - 128 + 128 * high) as nat, next)),
            None => None,
        }
    }
}

/// Keeps a number read by [`leb128_groups`] only if it fits in 64 bits.
pub open spec fn leb128_within(bytes: Seq<u8>, at: int, room: nat) -> Option<(u64, int)> {
    match leb128_groups(bytes, at, room) {
        Some((value, next)) => if value <= u64::MAX {
            Some((value as u64, next))
        } else {
            None
        },
        None => None,
    }
}

/// The unsigned integer encoded at `bytes[at..]` and the position that
/// follows it. `None` when the input ends inside the integer, when the
/// encoding runs past ten bytes, or when the number needs more than 64 bits.
pub open spec fn leb128_decode(bytes: Seq<u8>, at: int) -> Option<(u64, int)> {
    leb128_within(bytes, at, MAX_GROUPS as nat)
}

/// An encoding is never empty, and a 64-bit number takes at most ten bytes.
pub proof fn lemma_leb128_len(value: nat)
    ensures
        1 <= leb128_encode(value).len(),
        value <= u64::MAX ==> leb128_encode(value).len() <= 10,
{
    reveal_with_fuel(leb128_encode, 11);
}

/// What the decoder reads back from an encoding embedded in `bytes` at `at`.
proof fn lemma_leb128_groups_of_encode(bytes: Seq<u8>, at: int, value: nat, room: nat)
    requires
        0 <= at,
        at + leb128_encode(value).len() <= bytes.len(),
        bytes.subrange(at, at + leb128_encode(value).len()) == leb128_encode(value),
        leb128_encode(value).len() <= room,
    ensures
        leb128_groups(bytes, at, room) == Some((value, at + leb128_encode(value).len())),
    decreases value,
{
    let enc = leb128_encode(value);
    assert(bytes[at] == bytes.subrange(at, at + enc.len())[0]);
    if value >= 128 {
        let rest = leb128_encode(value / 128);
        assert(enc.len() == 1 + rest.len());
        assert(bytes.subrange(at + 1, at + 1 + rest.len()) =~= rest) by {
            assert forall|i: int| 0 <= i < rest.len() implies bytes[at + 1 + i] == rest[i] by {
                assert(bytes[at + 1 + i] == bytes.subrange(at, at + enc.len())[i + 1]);
            }
        }
        lemma_leb128_groups_of_encode(bytes, at + 1, value / 128, (room - 1) as nat);
    }
}

/// Decoding reads back any 64-bit number from its encoding, wherever the
/// encoding stands in the input and whatever follows it.
pub proof fn lemma_leb128_round_trip(bytes: Seq<u8>, at: int, value: u64)
    requires
        0 <= at,
        at + leb128_encode(value as nat).len() <= bytes.len(),
        bytes.subrange(at, at + leb128_encode(value as nat).len()) == leb128_encode(value as nat),
    ensures
        leb128_decode(bytes, at) == Some((value, at + leb128_encode(value as nat).len())),
{
    lemma_leb128_len(value as nat);
    lemma_leb128_groups_of_encode(bytes, at, value as nat, MAX_GROUPS as nat);
}

/// Appends the encoding of `value` to `buf`.
pub fn push_leb128(buf: &mut Vec<u8>, value: u64)
    ensures
        final(buf)@ == old(buf)@ + leb128_encode(value as nat),
{
    let mut rest: u64 = value;
    while rest >= 128
        invariant
            old(buf)@ + leb128_encode(value as nat) == buf@ + leb128_encode(rest as nat),
        decreases rest,
    {
        let group: u8 = (rest % 128) as u8 + 128;
        proof {
            assert(buf@ + leb128_encode(rest as nat) =~= buf@.push(group) + leb128_encode(
                (rest / 128) as nat,
            ));
        }
        buf.push(group);
        rest = rest / 128;
    }
    proof {
        assert(buf@ + leb128_encode(rest as nat) =~= buf@.push(rest as u8));
    }
    buf.push(rest as u8);
}

fn next_groups(bytes: &[u8], at: usize, room: u8) -> (r: Option<(u64, usize)>)
    ensures
        match (leb128_within(bytes@, at as int, room as nat), r) {
            (Some((value, next)), Some((got, end))) => got == value && end == next && at < next
                <= bytes@.len(),
            (None, None) => true,
            _ => false,
        },
    decreases room,
{
    if room == 0 || at >= bytes.len() {
        return None;
    }
    let byte: u8 = bytes[at];
    if byte < 128 {
        return Some((byte as u64, at + 1));
    }
    let low: u64 = (byte - 128) as u64;
    match next_groups(bytes, at + 1, room - 1) {
        Some((high, next)) => {
            if high > (u64::MAX - low) / 128 {
                None
            } else {
                Some((low + 128 * high, next))
            }
        },
        None => None,
    }
}

/// Reads the unsigned integer that starts at `bytes[at]`. Gives the number
/// and the position after it, or `None` where [`leb128_decode`] gives none.
pub fn next_leb128(bytes: &[u8], at: usize) -> (r: Option<(u64, usize)>)
    ensures
        match (leb128_decode(bytes@, at as int), r) {
            (Some((value, next)), Some((got, end))) => got == value && end == next && at < next
                <= bytes@.len(),
            (None, None) => true,
            _ => false,
        },
{
    next_groups(bytes, at, MAX_GROUPS)
}

} // verus!
