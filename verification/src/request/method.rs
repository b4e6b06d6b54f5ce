//! Method names.

use vstd::prelude::*;

verus! {

/// The data type that a method works on.
#[derive(Clone, Copy, Debug, PartialEq, Eq, Structural)]
pub enum MethodObject {
    Email,
    Mailbox,
    Core,
    Blob,
    PushSubscription,
    Thread,
    SearchSnippet,
    Identity,
    EmailSubmission,
    VacationResponse,
    SieveScript,
    Principal,
}

/// What a method does with its data type.
#[derive(Clone, Copy, Debug, PartialEq, Eq, Structural)]
pub enum MethodFunction {
    Get,
    /// Creates, updates and destroys objects: the `set` of the protocol.
    SetItems,
    Changes,
    Query,
    QueryChanges,
    Copy,
    Import,
    Parse,
    Validate,
    Echo,
    Error,
}

/// The name of a method, such as `Email/get`: a data type and a function.
#[derive(Clone, Copy, Debug, PartialEq, Eq, Structural)]
pub struct MethodName {
    pub obj: MethodObject,
    pub fnc: MethodFunction,
}

impl MethodName {
    pub fn new(obj: MethodObject, fnc: MethodFunction) -> (r: MethodName)
        ensures
            r == (MethodName { obj, fnc }),
    {
        MethodName { obj, fnc }
    }

    /// The name under which a failed call is reported.
    pub open spec fn spec_error() -> MethodName {
        MethodName { obj: MethodObject::Core, fnc: MethodFunction::Error }
    }

    #[verifier::when_used_as_spec(spec_error)]
    pub fn error() -> (r: MethodName)
        ensures
            r == MethodName::spec_error(),
    {
        MethodName { obj: MethodObject::Core, fnc: MethodFunction::Error }
    }
}

} // verus!
