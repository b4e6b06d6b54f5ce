//! Query: search objects of one data type.

use vstd::prelude::*;
use crate::types::id::Id;

verus! {

/// The data type that a Query call searches.
#[derive(Clone, Copy, Debug, PartialEq, Eq, Structural)]
pub enum RequestArguments {
    Email,
    Mailbox,
    EmailSubmission,
    SieveScript,
    Principal,
}

/// A Query call. What it searches for is the handler's business.
#[derive(Clone, Copy, Debug, PartialEq, Eq, Structural)]
pub struct QueryRequest {
    pub account_id: Id,
    pub arguments: RequestArguments,
}

} // verus!
