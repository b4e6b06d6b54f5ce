//! Opaque 64-bit object identifiers.

use vstd::prelude::*;

verus! {

/// A 64-bit identifier. Its low 32 bits name the document, its high 32 bits
/// are a prefix that the data type gives a meaning to.
#[derive(Clone, Copy, Debug, PartialEq, Eq, Structural)]
pub struct Id {
    pub id: u64,
}

impl View for Id {
    type V = u64;

    open spec fn view(&self) -> u64 {
        self.id
    }
}

impl Id {
    pub fn new(id: u64) -> (r: Id)
        ensures
            r@ == id,
    {
        Id { id }
    }

    /// An identifier made of a prefix and a document-id.
    pub fn from_parts(prefix_id: u32, document_id: u32) -> (r: Id)
        ensures
            r@ == prefix_id as int * 0x1_0000_0000 + document_id as int,
            r.spec_document_id() == document_id,
            r.spec_prefix_id() == prefix_id,
    {
        Id { id: prefix_id as u64 * 0x1_0000_0000 + document_id as u64 }
    }

    pub fn id(&self) -> (r: u64)
        ensures
            r == self@,
    {
        self.id
    }

    pub open spec fn spec_document_id(&self) -> u32 {
        (self.id % 0x1_0000_0000) as u32
    }

    pub open spec fn spec_prefix_id(&self) -> u32 {
        (self.id / 0x1_0000_0000) as u32
    }

    /// The document that the identifier names: its low 32 bits.
    pub fn document_id(&self) -> (r: u32)
        ensures
            r == self.spec_document_id(),
    {
        (self.id % 0x1_0000_0000) as u32
    }

    /// The high 32 bits.
    pub fn prefix_id(&self) -> (r: u32)
        ensures
            r == self.spec_prefix_id(),
    {
        (self.id / 0x1_0000_0000) as u32
    }
}

} // verus!
