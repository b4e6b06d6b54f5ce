//! The typed requests and responses of the methods.

pub mod copy;
pub mod get;
pub mod query;
pub mod set;
