//! The kinds of document that an account holds.

use vstd::prelude::*;

verus! {

#[derive(Clone, Copy, Debug, PartialEq, Eq, Structural)]
pub enum Collection {
    Email,
    Mailbox,
    Thread,
    Identity,
    EmailSubmission,
    SieveScript,
    PushSubscription,
    Principal,
}

} // verus!
