//! Handles to stored blobs.

use vstd::prelude::*;
use crate::codec::leb128::leb128_decode;
use crate::codec::leb128::leb128_encode;
use crate::codec::leb128::lemma_leb128_round_trip;
use crate::codec::leb128::next_leb128;
use crate::codec::leb128::push_leb128;
use crate::codec::text::holds_at;
use crate::codec::text::lemma_holds_at_split;

verus! {

/// Names a blob by the account that owns it, the collection it belongs to
/// and the document it is linked to.
#[derive(Clone, Copy, Debug, PartialEq, Eq, Structural)]
pub struct BlobId {
    pub account_id: u32,
    pub collection: u8,
    pub document_id: u32,
}

/// The wire form of a blob handle: account, collection byte, document.
pub open spec fn encode_blob_id(blob: BlobId) -> Seq<u8> {
    leb128_encode(blob.account_id as nat) + seq![blob.collection] + leb128_encode(
        blob.document_id as nat,
    )
}

/// The blob handle at `bytes[at..]` and the position after it; `None` when
/// the input ends early or a number does not fit in 32 bits.
pub open spec fn decode_blob_id(bytes: Seq<u8>, at: int) -> Option<(BlobId, int)> {
    match leb128_decode(bytes, at) {
        Some((account_id, next)) => if account_id <= u32::MAX && next < bytes.len() {
            match leb128_decode(bytes, next + 1) {
                Some((document_id, end)) => if document_id <= u32::MAX {
                    Some(
                        (
                            BlobId {
                                account_id: account_id as u32,
                                collection: bytes[next],
                                document_id: document_id as u32,
                            },
                            end,
                        ),
                    )
                } else {
                    None
                },
                None => None,
            }
        } else {
            None
        },
        None => None,
    }
}

/// A blob handle is read back as it was written.
pub proof fn lemma_blob_id_round_trip(bytes: Seq<u8>, at: int, blob: BlobId)
    requires
        holds_at(bytes, at, encode_blob_id(blob)),
    ensures
        decode_blob_id(bytes, at) == Some((blob, at + encode_blob_id(blob).len())),
{
    let account = leb128_encode(blob.account_id as nat);
    let tail = seq![blob.collection] + leb128_encode(blob.document_id as nat);
    assert(encode_blob_id(blob) =~= account + tail);
    lemma_holds_at_split(bytes, at, account, tail);
    lemma_holds_at_split(
        bytes,
        at + account.len(),
        seq![blob.collection],
        leb128_encode(blob.document_id as nat),
    );
    lemma_leb128_round_trip(bytes, at, blob.account_id as u64);
    lemma_leb128_round_trip(bytes, at + account.len() + 1, blob.document_id as u64);
    assert(bytes[at + account.len()] == bytes.subrange(
        at + account.len(),
        at + account.len() + 1,
    )[0]);
}

impl BlobId {
    pub fn new(account_id: u32, collection: u8, document_id: u32) -> (r: BlobId)
        ensures
            r == (BlobId { account_id, collection, document_id }),
    {
        BlobId { account_id, collection, document_id }
    }

    /// Appends the wire form of the handle to `buf`.
    pub fn serialize_into(&self, buf: &mut Vec<u8>)
        ensures
            final(buf)@ == old(buf)@ + encode_blob_id(*self),
    {
        push_leb128(buf, self.account_id as u64);
        buf.push(self.collection);
        push_leb128(buf, self.document_id as u64);
        assert(buf@ =~= old(buf)@ + encode_blob_id(*self));
    }

    /// Reads the handle that starts at `bytes[at]`.
    pub fn deserialize_from(bytes: &[u8], at: usize) -> (r: Option<(BlobId, usize)>)
        ensures
            match (decode_blob_id(bytes@, at as int), r) {
                (Some((blob, next)), Some((got, end))) => got == blob && end == next && at
                    < next <= bytes@.len(),
                (None, None) => true,
                _ => false,
            },
    {
        let (account_id, next) = match next_leb128(bytes, at) {
            Some(read) => read,
            None => return None,
        };
        if account_id > 0xffff_ffff || next >= bytes.len() {
            return None;
        }
        let collection: u8 = bytes[next];
        let (document_id, end) = match next_leb128(bytes, next + 1) {
            Some(read) => read,
            None => return None,
        };
        if document_id > 0xffff_ffff {
            return None;
        }
        Some(
            (
                BlobId {
                    account_id: account_id as u32,
                    collection,
                    document_id: document_id as u32,
                },
                end,
            ),
        )
    }
}

} // verus!
