//! Core of a JMAP method-dispatch and object-persistence engine: the dynamic
//! object model with its binary codec, the batch evaluator with its reference
//! resolver, and the push-subscription Set pipeline.

pub mod api;
pub mod auth;
pub mod clock;
pub mod codec;
pub mod config;
pub mod error;
pub mod method;
pub mod object;
pub mod push;
pub mod request;
pub mod response;
pub mod types;
