//! The data types whose changes a push subscription can ask for.

use vstd::prelude::*;
use crate::codec::text::same_text;

verus! {

#[derive(Clone, Copy, Debug, PartialEq, Eq, Structural)]
pub enum TypeState {
    Email,
    EmailDelivery,
    EmailSubmission,
    Mailbox,
    Thread,
    Identity,
}

/// The type state that `name` spells, if any. Names are case-sensitive.
pub open spec fn parse_type_state(name: Seq<char>) -> Option<TypeState> {
    if name == "Email"@ {
        Some(TypeState::Email)
    } else if name == "EmailDelivery"@ {
        Some(TypeState::EmailDelivery)
    } else if name == "EmailSubmission"@ {
        Some(TypeState::EmailSubmission)
    } else if name == "Mailbox"@ {
        Some(TypeState::Mailbox)
    } else if name == "Thread"@ {
        Some(TypeState::Thread)
    } else if name == "Identity"@ {
        Some(TypeState::Identity)
    } else {
        None
    }
}

impl TypeState {
    /// The name of the type state, as clients spell it.
    pub open spec fn spec_name(&self) -> Seq<char> {
        match self {
            TypeState::Email => "Email"@,
            TypeState::EmailDelivery => "EmailDelivery"@,
            TypeState::EmailSubmission => "EmailSubmission"@,
            TypeState::Mailbox => "Mailbox"@,
            TypeState::Thread => "Thread"@,
            TypeState::Identity => "Identity"@,
        }
    }

    pub fn as_str(&self) -> (name: &'static str)
        ensures
            name@ == self.spec_name(),
    {
        match self {
            TypeState::Email => "Email",
            TypeState::EmailDelivery => "EmailDelivery",
            TypeState::EmailSubmission => "EmailSubmission",
            TypeState::Mailbox => "Mailbox",
            TypeState::Thread => "Thread",
            TypeState::Identity => "Identity",
        }
    }

    /// Reads a type state from its name.
    pub fn parse(name: &str) -> (r: Option<TypeState>)
        ensures
            r == parse_type_state(name@),
    {
        if same_text(name, "Email") {
            Some(TypeState::Email)
        } else if same_text(name, "EmailDelivery") {
            Some(TypeState::EmailDelivery)
        } else if same_text(name, "EmailSubmission") {
            Some(TypeState::EmailSubmission)
        } else if same_text(name, "Mailbox") {
            Some(TypeState::Mailbox)
        } else if same_text(name, "Thread") {
            Some(TypeState::Thread)
        } else if same_text(name, "Identity") {
            Some(TypeState::Identity)
        } else {
            None
        }
    }
}

} // verus!
