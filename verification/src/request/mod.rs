//! Requests: ordered batches of method calls.

use vstd::prelude::*;
use crate::error::MethodError;
use crate::error::MethodErrorView;
use crate::method::copy::CopyRequest;
use crate::method::copy::CopyRequestView;
use crate::method::get::GetRequest;
use crate::method::get::GetRequestView;
use crate::method::query::QueryRequest;
use crate::method::set::ChangesView;
use crate::method::set::SetRequest;
use crate::method::set::SetRequestView;
use crate::object::Object;
use crate::request::method::MethodName;
use crate::types::id::Id;
use crate::types::value::SetValue;
use crate::types::value::Value;
use crate::types::value::ValueView;

pub mod method;
pub mod reference;

verus! {

/// One entry of a batch: a request on its way in, a response on its way
/// out. The client chooses the id; the response to a call bears the id of
/// the call.
#[derive(Clone, Debug, PartialEq, Eq)]
pub struct Call<T> {
    pub id: String,
    pub name: MethodName,
    pub method: T,
}

/// A call on one account whose arguments are the handler's business, but
/// for the references that they may hold.
#[derive(Clone, Debug, PartialEq, Eq)]
pub struct MethodRequest {
    pub account_id: Id,
    pub arguments: Object<SetValue>,
}

pub struct MethodRequestView {
    pub account_id: u64,
    pub arguments: ChangesView,
}

impl View for MethodRequest {
    type V = MethodRequestView;

    open spec fn view(&self) -> MethodRequestView {
        MethodRequestView { account_id: self.account_id@, arguments: self.arguments@ }
    }
}

/// A method call, by kind.
#[derive(Clone, Debug, PartialEq, Eq)]
pub enum RequestMethod {
    Get(GetRequest),
    Query(QueryRequest),
    /// A `set`.
    SetItems(SetRequest),
    Changes(MethodRequest),
    Copy(CopyRequest),
    CopyBlob(MethodRequest),
    ImportEmail(MethodRequest),
    ParseEmail(MethodRequest),
    QueryChanges(MethodRequest),
    SearchSnippet(MethodRequest),
    ValidateScript(MethodRequest),
    /// Answered with its own arguments.
    Echo(Value),
    /// A call that could not be read; answered with the error.
    Error(MethodError),
}

pub enum RequestMethodView {
    Get(GetRequestView),
    Query(QueryRequest),
    SetItems(SetRequestView),
    Changes(MethodRequestView),
    Copy(CopyRequestView),
    CopyBlob(MethodRequestView),
    ImportEmail(MethodRequestView),
    ParseEmail(MethodRequestView),
    QueryChanges(MethodRequestView),
    SearchSnippet(MethodRequestView),
    ValidateScript(MethodRequestView),
    Echo(ValueView),
    Error(MethodErrorView),
}

impl View for RequestMethod {
    type V = RequestMethodView;

    open spec fn view(&self) -> RequestMethodView {
        match self {
            RequestMethod::Get(request) => RequestMethodView::Get(request@),
            RequestMethod::Query(request) => RequestMethodView::Query(*request),
            RequestMethod::SetItems(request) => RequestMethodView::SetItems(request@),
            RequestMethod::Changes(request) => RequestMethodView::Changes(request@),
            RequestMethod::Copy(request) => RequestMethodView::Copy(request@),
            RequestMethod::CopyBlob(request) => RequestMethodView::CopyBlob(request@),
            RequestMethod::ImportEmail(request) => RequestMethodView::ImportEmail(request@),
            RequestMethod::ParseEmail(request) => RequestMethodView::ParseEmail(request@),
            RequestMethod::QueryChanges(request) => RequestMethodView::QueryChanges(request@),
            RequestMethod::SearchSnippet(request) => RequestMethodView::SearchSnippet(request@),
            RequestMethod::ValidateScript(request) => RequestMethodView::ValidateScript(request@),
            RequestMethod::Echo(value) => RequestMethodView::Echo(value@),
            RequestMethod::Error(error) => RequestMethodView::Error(error@),
        }
    }
}

/// A call as contracts see it.
pub struct CallView {
    pub id: Seq<char>,
    pub name: MethodName,
    pub method: RequestMethodView,
}

impl View for Call<RequestMethod> {
    type V = CallView;

    open spec fn view(&self) -> CallView {
        CallView { id: self.id@, name: self.name, method: self.method@ }
    }
}

/// The calls of a batch as contracts see them, in order.
pub open spec fn calls_view(calls: Seq<Call<RequestMethod>>) -> Seq<CallView> {
    Seq::new(calls.len(), |i: int| calls[i]@)
}

/// A batch: the calls, in the order in which they are to be evaluated, and
/// the creation ids that the client sends along, if any.
#[derive(Clone, Debug, PartialEq, Eq)]
pub struct Request {
    pub created_ids: Option<Vec<(String, Id)>>,
    pub method_calls: Vec<Call<RequestMethod>>,
}

} // verus!
