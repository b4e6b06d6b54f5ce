//! Evaluating a request: call by call, in order.

pub mod dispatch;
pub mod laws;
pub mod request;
