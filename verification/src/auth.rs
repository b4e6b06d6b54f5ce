//! What a client that has authenticated may touch.

use vstd::prelude::*;
use vstd::string::StringExecFns;
use crate::error::MethodError;
use crate::types::collection::Collection;
use crate::types::id::Id;

verus! {

/// The rights of an authenticated client. A token does not change once it
/// is issued.
#[derive(Clone, Debug, PartialEq, Eq)]
pub struct AccessToken {
    /// The client's own account.
    pub primary_id: u32,
    /// The accounts that the client is a member of, besides its own.
    pub member_of: Vec<u32>,
    /// Collections of other accounts that were shared with the client.
    pub access_to: Vec<(u32, Vec<Collection>)>,
    pub is_superuser: bool,
    /// Changes whenever the client's rights change.
    pub state: u32,
}

/// Whether some grant gives access to `collection` of `account_id`.
pub open spec fn grants(
    access_to: Seq<(u32, Vec<Collection>)>,
    account_id: u32,
    collection: Collection,
) -> bool {
    exists|i: int|
        0 <= i < access_to.len() && (#[trigger] access_to[i]).0 == account_id && access_to[i].1@.contains(
            collection,
        )
}

/// The text of the error for a client without access to an account.
pub open spec fn no_access_text() -> Seq<char> {
    "You do not have access to this account."@
}

/// The text of the error for a client that is no member of an account.
pub open spec fn not_member_text() -> Seq<char> {
    "You are not an owner of this account."@
}

impl AccessToken {
    pub fn primary_id(&self) -> (r: u32)
        ensures
            r == self.primary_id,
    {
        self.primary_id
    }

    pub fn state(&self) -> (r: u32)
        ensures
            r == self.state,
    {
        self.state
    }

    pub open spec fn spec_is_super_user(&self) -> bool {
        self.is_superuser
    }

    #[verifier::when_used_as_spec(spec_is_super_user)]
    pub fn is_super_user(&self) -> (r: bool)
        ensures
            r == self.is_superuser,
    {
        self.is_superuser
    }

    /// Whether the account is the client's own or one that it is a member
    /// of. A super-user is a member of every account.
    pub open spec fn spec_is_member(&self, account_id: u32) -> bool {
        self.primary_id == account_id || self.member_of@.contains(account_id) || self.is_superuser
    }

    #[verifier::when_used_as_spec(spec_is_member)]
    pub fn is_member(&self, account_id: u32) -> (r: bool)
        ensures
            r == self.spec_is_member(account_id),
    {
        if self.primary_id == account_id || self.is_superuser {
            return true;
        }
        let mut i: usize = 0;
        while i < self.member_of.len()
            invariant
                i <= self.member_of@.len(),
                forall|j: int| 0 <= j < i ==> self.member_of@[j] != account_id,
            decreases self.member_of@.len() - i,
        {
            if self.member_of[i] == account_id {
                return true;
            }
            i += 1;
        }
        false
    }

    /// Whether the client may touch `collection` of the account: as a
    /// member, or because the collection was shared with it.
    pub open spec fn spec_has_access(&self, account_id: u32, collection: Collection) -> bool {
        self.spec_is_member(account_id) || grants(self.access_to@, account_id, collection)
    }

    #[verifier::when_used_as_spec(spec_has_access)]
    pub fn has_access(&self, account_id: u32, collection: Collection) -> (r: bool)
        ensures
            r == self.spec_has_access(account_id, collection),
    {
        if self.is_member(account_id) {
            return true;
        }
        let mut i: usize = 0;
        while i < self.access_to.len()
            invariant
                i <= self.access_to@.len(),
                forall|j: int|
                    0 <= j < i ==> !((#[trigger] self.access_to@[j]).0 == account_id
                        && self.access_to@[j].1@.contains(collection)),
            decreases self.access_to@.len() - i,
        {
            if self.access_to[i].0 == account_id {
                let shared = &self.access_to[i].1;
                let mut k: usize = 0;
                while k < shared.len()
                    invariant
                        k <= shared@.len(),
                        i < self.access_to@.len(),
                        shared@ == self.access_to@[i as int].1@,
                        self.access_to@[i as int].0 == account_id,
                        forall|j: int| 0 <= j < k ==> shared@[j] != collection,
                    decreases shared@.len() - k,
                {
                    if shared[k] == collection {
                        return true;
                    }
                    k += 1;
                }
            }
            i += 1;
        }
        false
    }

    /// The token itself if the client may touch `collection` of the
    /// account, so that checks can be chained; else the error.
    pub fn assert_has_access(&self, account_id: Id, collection: Collection) -> (r: Result<
        &AccessToken,
        MethodError,
    >)
        ensures
            match r {
                Ok(token) => token == self && self.spec_has_access(
                    account_id.spec_document_id(),
                    collection,
                ),
                Err(MethodError::Forbidden(text)) => text@ == no_access_text()
                    && !self.spec_has_access(account_id.spec_document_id(), collection),
                Err(_) => false,
            },
    {
        if self.has_access(account_id.document_id(), collection) {
            Ok(self)
        } else {
            Err(MethodError::Forbidden(String::from_str("You do not have access to this account.")))
        }
    }

    /// The token itself if the client is a member of the account, so that
    /// checks can be chained; else the error.
    pub fn assert_is_member(&self, account_id: Id) -> (r: Result<&AccessToken, MethodError>)
        ensures
            match r {
                Ok(token) => token == self && self.spec_is_member(account_id.spec_document_id()),
                Err(MethodError::Forbidden(text)) => text@ == not_member_text()
                    && !self.spec_is_member(account_id.spec_document_id()),
                Err(_) => false,
            },
    {
        if self.is_member(account_id.document_id()) {
            Ok(self)
        } else {
            Err(MethodError::Forbidden(String::from_str("You are not an owner of this account.")))
        }
    }
}

} // verus!
