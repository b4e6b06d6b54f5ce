//! The data types that objects are made of.

pub mod blob;
pub mod collection;
pub mod date;
pub mod id;
pub mod keyword;
pub mod property;
pub mod state;
pub mod type_state;
pub mod value;
