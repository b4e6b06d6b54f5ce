//! Copy: copy objects from one account to another.

use vstd::prelude::*;
use crate::method::set::ChangesView;
use crate::method::set::updates_view;
use crate::object::Object;
use crate::types::id::Id;
use crate::types::value::SetValue;

verus! {

/// A Copy call: the objects of `from_account_id` to copy into `account_id`,
/// each by its id and with the properties to give the copy.
#[derive(Clone, Debug, PartialEq, Eq)]
pub struct CopyRequest {
    pub from_account_id: Id,
    pub account_id: Id,
    pub create: Vec<(Id, Object<SetValue>)>,
    /// Whether the objects are destroyed in the account they came from once
    /// they are copied.
    pub on_success_destroy_original: bool,
}

pub struct CopyRequestView {
    pub from_account_id: u64,
    pub account_id: u64,
    pub create: Seq<(u64, ChangesView)>,
    pub on_success_destroy_original: bool,
}

impl View for CopyRequest {
    type V = CopyRequestView;

    open spec fn view(&self) -> CopyRequestView {
        CopyRequestView {
            from_account_id: self.from_account_id@,
            account_id: self.account_id@,
            create: updates_view(self.create@),
            on_success_destroy_original: self.on_success_destroy_original,
        }
    }
}

} // verus!
