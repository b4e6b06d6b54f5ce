//! Byte-level building blocks of the persisted object format.

pub mod leb128;
pub mod text;
