//! Errors, by the level at which they are reported.

use vstd::prelude::*;
use vstd::string::StringExecFns;
use crate::types::property::Property;
use crate::types::property::PropertyView;

verus! {

/// A failure of the storage layer, or of reading what it holds.
#[derive(Debug, PartialEq, Eq)]
pub enum StoreError {
    /// Stored bytes could not be read back; the text says what was being
    /// read.
    InternalError(String),
}

/// A failure that ends the whole request: no response is made.
#[derive(Clone, Copy, Debug, PartialEq, Eq, Structural)]
pub enum RequestError {
    /// The request envelope is malformed.
    NotRequest,
    /// The request names a capability that the server does not have.
    UnknownCapability,
    /// The request goes beyond a quota or a limit.
    Limit,
}

/// A failure of one method call. It takes the place of the call's response;
/// the calls after it are still evaluated.
#[derive(Debug, PartialEq, Eq)]
pub enum MethodError {
    InvalidArguments(String),
    RequestTooLarge,
    StateMismatch,
    UnknownMethod(String),
    InvalidResultReference(String),
    Forbidden(String),
    AccountNotFound,
    NotFound,
    ServerFail(String),
    ServerUnavailable,
}

/// A failed call as contracts see it.
pub enum MethodErrorView {
    InvalidArguments(Seq<char>),
    RequestTooLarge,
    StateMismatch,
    UnknownMethod(Seq<char>),
    InvalidResultReference(Seq<char>),
    Forbidden(Seq<char>),
    AccountNotFound,
    NotFound,
    ServerFail(Seq<char>),
    ServerUnavailable,
}

impl View for MethodError {
    type V = MethodErrorView;

    open spec fn view(&self) -> MethodErrorView {
        match self {
            MethodError::InvalidArguments(text) => MethodErrorView::InvalidArguments(text@),
            MethodError::RequestTooLarge => MethodErrorView::RequestTooLarge,
            MethodError::StateMismatch => MethodErrorView::StateMismatch,
            MethodError::UnknownMethod(text) => MethodErrorView::UnknownMethod(text@),
            MethodError::InvalidResultReference(text) => MethodErrorView::InvalidResultReference(
                text@,
            ),
            MethodError::Forbidden(text) => MethodErrorView::Forbidden(text@),
            MethodError::AccountNotFound => MethodErrorView::AccountNotFound,
            MethodError::NotFound => MethodErrorView::NotFound,
            MethodError::ServerFail(text) => MethodErrorView::ServerFail(text@),
            MethodError::ServerUnavailable => MethodErrorView::ServerUnavailable,
        }
    }
}

impl Clone for MethodError {
    fn clone(&self) -> (r: MethodError)
        ensures
            r@ == self@,
    {
        match self {
            MethodError::InvalidArguments(text) => MethodError::InvalidArguments(text.clone()),
            MethodError::RequestTooLarge => MethodError::RequestTooLarge,
            MethodError::StateMismatch => MethodError::StateMismatch,
            MethodError::UnknownMethod(text) => MethodError::UnknownMethod(text.clone()),
            MethodError::InvalidResultReference(text) => MethodError::InvalidResultReference(
                text.clone(),
            ),
            MethodError::Forbidden(text) => MethodError::Forbidden(text.clone()),
            MethodError::AccountNotFound => MethodError::AccountNotFound,
            MethodError::NotFound => MethodError::NotFound,
            MethodError::ServerFail(text) => MethodError::ServerFail(text.clone()),
            MethodError::ServerUnavailable => MethodError::ServerUnavailable,
        }
    }
}

/// Why one create, update or destroy of a Set call was rejected.
#[derive(Clone, Copy, Debug, PartialEq, Eq, Structural)]
pub enum SetErrorType {
    Forbidden,
    OverQuota,
    TooLarge,
    RateLimit,
    NotFound,
    InvalidPatch,
    WillDestroy,
    InvalidProperties,
    Singleton,
}

/// The rejection of one create, update or destroy. The Set call that holds
/// it still succeeds.
#[derive(Clone, Debug, PartialEq, Eq)]
pub struct SetError {
    pub type_: SetErrorType,
    pub description: Option<String>,
    pub properties: Option<Vec<Property>>,
}

/// A rejection as contracts see it.
pub struct SetErrorView {
    pub type_: SetErrorType,
    pub description: Option<Seq<char>>,
    pub properties: Option<Seq<PropertyView>>,
}

/// The names in a list of properties, in order.
pub open spec fn properties_view(properties: Seq<Property>) -> Seq<PropertyView> {
    Seq::new(properties.len(), |i: int| properties[i]@)
}

impl View for SetError {
    type V = SetErrorView;

    open spec fn view(&self) -> SetErrorView {
        SetErrorView {
            type_: self.type_,
            description: match self.description {
                Some(text) => Some(text@),
                None => None,
            },
            properties: match self.properties {
                Some(properties) => Some(properties_view(properties@)),
                None => None,
            },
        }
    }
}

impl SetErrorView {
    /// A rejection of the given kind with nothing else said.
    pub open spec fn bare(type_: SetErrorType) -> SetErrorView {
        SetErrorView { type_, description: None, properties: None }
    }

    /// The rejection of one property's value, with the reason in words.
    pub open spec fn invalid_property(property: PropertyView, description: Seq<char>) -> SetErrorView {
        SetErrorView {
            type_: SetErrorType::InvalidProperties,
            description: Some(description),
            properties: Some(seq![property]),
        }
    }
}

impl SetError {
    pub fn new(type_: SetErrorType) -> (r: SetError)
        ensures
            r@ == SetErrorView::bare(type_),
    {
        SetError { type_, description: None, properties: None }
    }

    pub fn forbidden() -> (r: SetError)
        ensures
            r@ == SetErrorView::bare(SetErrorType::Forbidden),
    {
        SetError::new(SetErrorType::Forbidden)
    }

    pub fn invalid_properties() -> (r: SetError)
        ensures
            r@ == SetErrorView::bare(SetErrorType::InvalidProperties),
    {
        SetError::new(SetErrorType::InvalidProperties)
    }

    pub fn not_found() -> (r: SetError)
        ensures
            r@ == SetErrorView::bare(SetErrorType::NotFound),
    {
        SetError::new(SetErrorType::NotFound)
    }

    pub fn will_destroy() -> (r: SetError)
        ensures
            r@ == SetErrorView::bare(SetErrorType::WillDestroy),
    {
        SetError::new(SetErrorType::WillDestroy)
    }

    /// The same rejection with `description` as its reason in words.
    pub fn with_description(self, description: &str) -> (r: SetError)
        ensures
            r@ == (SetErrorView { description: Some(description@), ..self@ }),
    {
        SetError {
            type_: self.type_,
            description: Some(String::from_str(description)),
            properties: self.properties,
        }
    }

    /// The same rejection, naming `property` alone.
    pub fn with_property(self, property: Property) -> (r: SetError)
        ensures
            r@ == (SetErrorView { properties: Some(seq![property@]), ..self@ }),
    {
        let mut properties: Vec<Property> = Vec::new();
        properties.push(property);
        assert(properties_view(properties@) =~= seq![property@]);
        SetError { type_: self.type_, description: self.description, properties: Some(properties) }
    }

    /// The same rejection, naming `properties`.
    pub fn with_properties(self, properties: Vec<Property>) -> (r: SetError)
        ensures
            r@ == (SetErrorView { properties: Some(properties_view(properties@)), ..self@ }),
    {
        SetError { type_: self.type_, description: self.description, properties: Some(properties) }
    }
}

} // verus!
