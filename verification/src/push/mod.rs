//! Push subscriptions: what clients may store in them, and how.

pub mod code;
pub mod laws;
pub mod plan;
pub mod set;
pub mod validate;
