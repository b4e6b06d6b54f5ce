//! Get: read objects of one data type.

use vstd::prelude::*;
use crate::request::reference::IdsView;
use crate::request::reference::MaybeReference;
use crate::types::id::Id;

verus! {

/// The data type that a Get call reads.
#[derive(Clone, Copy, Debug, PartialEq, Eq, Structural)]
pub enum RequestArguments {
    Email,
    Mailbox,
    Thread,
    Identity,
    EmailSubmission,
    PushSubscription,
    SieveScript,
    VacationResponse,
    Principal,
}

/// A Get call: the objects to read, by id; all of them where no ids are
/// given.
#[derive(Clone, Debug, PartialEq, Eq)]
pub struct GetRequest {
    pub account_id: Id,
    pub ids: Option<MaybeReference>,
    pub arguments: RequestArguments,
}

pub struct GetRequestView {
    pub account_id: u64,
    pub ids: Option<IdsView>,
    pub arguments: RequestArguments,
}

impl View for GetRequest {
    type V = GetRequestView;

    open spec fn view(&self) -> GetRequestView {
        GetRequestView {
            account_id: self.account_id@,
            ids: match self.ids {
                Some(ids) => Some(ids@),
                None => None,
            },
            arguments: self.arguments,
        }
    }
}

} // verus!
