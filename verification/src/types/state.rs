//! Notices that the data of an account has changed.

use vstd::prelude::*;
use crate::types::type_state::TypeState;

verus! {

/// Says which data types of an account changed, and the change-id that each
/// reached. Handlers make it; the broadcaster delivers it.
#[derive(Clone, Debug, PartialEq, Eq)]
pub struct StateChange {
    pub account_id: u32,
    pub types: Vec<(TypeState, u64)>,
}

impl StateChange {
    pub fn new(account_id: u32) -> (r: StateChange)
        ensures
            r.account_id == account_id,
            r.types@ == Seq::<(TypeState, u64)>::empty(),
    {
        StateChange { account_id, types: Vec::new() }
    }

    /// The same notice, saying also that `type_state` reached `change_id`.
    pub fn with_change(self, type_state: TypeState, change_id: u64) -> (r: StateChange)
        ensures
            r.account_id == self.account_id,
            r.types@ == self.types@.push((type_state, change_id)),
    {
        let mut change = self;
        change.types.push((type_state, change_id));
        change
    }
}

} // verus!
