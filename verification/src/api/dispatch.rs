//! Which handler a call goes to, and what the client must be allowed for
//! it.

use vstd::prelude::*;
use vstd::string::StringExecFns;
use crate::auth::AccessToken;
use crate::auth::not_member_text;
use crate::auth::no_access_text;
use crate::config::JMAP;
use crate::error::MethodError;
use crate::error::MethodErrorView;
use crate::method::get;
use crate::method::query;
use crate::request::RequestMethod;
use crate::request::RequestMethodView;
use crate::response::ResponseMethod;
use crate::response::ResponseMethodView;
use crate::types::collection::Collection;
use crate::types::id::Id;
use crate::types::value::ValueView;

verus! {

/// The handlers that calls are dispatched to.
#[derive(Clone, Copy, Debug, PartialEq, Eq, Structural)]
pub enum Handler {
    EmailGet,
    MailboxGet,
    ThreadGet,
    IdentityGet,
    EmailSubmissionGet,
    PushSubscriptionGet,
    SieveScriptGet,
    VacationResponseGet,
    PrincipalGet,
    EmailQuery,
    MailboxQuery,
    EmailSubmissionQuery,
    SieveScriptQuery,
    PrincipalQuery,
    EmailSet,
    MailboxSet,
    IdentitySet,
    EmailSubmissionSet,
    PushSubscriptionSet,
    SieveScriptSet,
    VacationResponseSet,
    Changes,
    EmailCopy,
    BlobCopy,
    EmailImport,
    EmailParse,
    QueryChanges,
    EmailSearchSnippet,
    SieveScriptValidate,
}

/// What a client must be allowed before a call is handled.
pub enum Access {
    /// Nothing that is checked here.
    Open,
    /// Access to a collection of an account.
    ToCollection(u64, Collection),
    /// Access to a collection of two accounts: the one copied into, and
    /// the one copied from.
    ToBoth(u64, u64, Collection),
    /// Membership of an account.
    Member(u64),
    /// Leave to look up principals.
    Lookup,
}

/// What becomes of a call that the client is allowed to make.
#[derive(Debug, PartialEq, Eq)]
pub enum Route {
    /// The call goes to a handler.
    Run(Handler),
    /// The call is answered here.
    Answer(ResponseMethod),
}

pub enum RouteView {
    Run(Handler),
    Answer(ResponseMethodView),
}

impl View for Route {
    type V = RouteView;

    open spec fn view(&self) -> RouteView {
        match self {
            Route::Run(handler) => RouteView::Run(*handler),
            Route::Answer(response) => RouteView::Answer(response@),
        }
    }
}

/// The text of the error for a principal lookup that is not allowed.
pub open spec fn lookups_disabled_text() -> Seq<char> {
    "Principal lookups are disabled"@
}

/// The handler of a Get call and what it takes to reach it.
pub open spec fn get_route(account_id: u64, arguments: get::RequestArguments) -> (Access, Handler) {
    match arguments {
        get::RequestArguments::Email => (
            Access::ToCollection(account_id, Collection::Email),
            Handler::EmailGet,
        ),
        get::RequestArguments::Mailbox => (
            Access::ToCollection(account_id, Collection::Mailbox),
            Handler::MailboxGet,
        ),
        get::RequestArguments::Thread => (
            Access::ToCollection(account_id, Collection::Email),
            Handler::ThreadGet,
        ),
        get::RequestArguments::Identity => (Access::Member(account_id), Handler::IdentityGet),
        get::RequestArguments::EmailSubmission => (
            Access::Member(account_id),
            Handler::EmailSubmissionGet,
        ),
        get::RequestArguments::PushSubscription => (Access::Open, Handler::PushSubscriptionGet),
        get::RequestArguments::SieveScript => (Access::Member(account_id), Handler::SieveScriptGet),
        get::RequestArguments::VacationResponse => (
            Access::Member(account_id),
            Handler::VacationResponseGet,
        ),
        get::RequestArguments::Principal => (Access::Lookup, Handler::PrincipalGet),
    }
}

/// The handler of a Query call and what it takes to reach it.
pub open spec fn query_route(account_id: u64, arguments: query::RequestArguments) -> (
    Access,
    Handler,
) {
    match arguments {
        query::RequestArguments::Email => (
            Access::ToCollection(account_id, Collection::Email),
            Handler::EmailQuery,
        ),
        query::RequestArguments::Mailbox => (
            Access::ToCollection(account_id, Collection::Mailbox),
            Handler::MailboxQuery,
        ),
        query::RequestArguments::EmailSubmission => (
            Access::Member(account_id),
            Handler::EmailSubmissionQuery,
        ),
        query::RequestArguments::SieveScript => (
            Access::Member(account_id),
            Handler::SieveScriptQuery,
        ),
        query::RequestArguments::Principal => (Access::Lookup, Handler::PrincipalQuery),
    }
}

/// The handler of a Set call and what it takes to reach it.
pub open spec fn set_route(account_id: u64, arguments: crate::method::set::RequestArguments) -> (Access, Handler) {
    match arguments {
        crate::method::set::RequestArguments::Email => (
            Access::ToCollection(account_id, Collection::Email),
            Handler::EmailSet,
        ),
        crate::method::set::RequestArguments::Mailbox => (
            Access::ToCollection(account_id, Collection::Mailbox),
            Handler::MailboxSet,
        ),
        crate::method::set::RequestArguments::Identity => (Access::Member(account_id), Handler::IdentitySet),
        crate::method::set::RequestArguments::EmailSubmission => (
            Access::Member(account_id),
            Handler::EmailSubmissionSet,
        ),
        crate::method::set::RequestArguments::PushSubscription => (Access::Open, Handler::PushSubscriptionSet),
        crate::method::set::RequestArguments::SieveScript => (Access::Member(account_id), Handler::SieveScriptSet),
        crate::method::set::RequestArguments::VacationResponse => (
            Access::Member(account_id),
            Handler::VacationResponseSet,
        ),
    }
}

/// How a call is to be answered.
pub enum Routing {
    /// By a handler, once the client is found to have the access.
    Handled(Access, Handler),
    /// With its own arguments.
    Echoed(ValueView),
    /// With the error that it carries.
    Failed(MethodErrorView),
}

/// How a call is to be answered: the handler that it goes to and what it
/// takes to reach it, or the answer that it gets without a handler.
///
/// Mail and mailboxes are guarded by collection, identities, submissions,
/// scripts and vacation responses by membership, principals by the leave
/// to look them up. Push subscriptions belong to the client's own account
/// and need no check; nor do the kinds that check for themselves.
pub open spec fn routing_of(method: RequestMethodView) -> Routing {
    match method {
        RequestMethodView::Get(request) => {
            let route = get_route(request.account_id, request.arguments);
            Routing::Handled(route.0, route.1)
        },
        RequestMethodView::Query(request) => {
            let route = query_route(request.account_id@, request.arguments);
            Routing::Handled(route.0, route.1)
        },
        RequestMethodView::SetItems(request) => {
            let route = set_route(request.account_id, request.arguments);
            Routing::Handled(route.0, route.1)
        },
        RequestMethodView::Changes(_) => Routing::Handled(Access::Open, Handler::Changes),
        RequestMethodView::Copy(request) => Routing::Handled(
            Access::ToBoth(request.account_id, request.from_account_id, Collection::Email),
            Handler::EmailCopy,
        ),
        RequestMethodView::CopyBlob(_) => Routing::Handled(Access::Open, Handler::BlobCopy),
        RequestMethodView::ImportEmail(request) => Routing::Handled(
            Access::ToCollection(request.account_id, Collection::Email),
            Handler::EmailImport,
        ),
        RequestMethodView::ParseEmail(request) => Routing::Handled(
            Access::ToCollection(request.account_id, Collection::Email),
            Handler::EmailParse,
        ),
        RequestMethodView::QueryChanges(_) => Routing::Handled(Access::Open, Handler::QueryChanges),
        RequestMethodView::SearchSnippet(request) => Routing::Handled(
            Access::ToCollection(request.account_id, Collection::Email),
            Handler::EmailSearchSnippet,
        ),
        RequestMethodView::ValidateScript(request) => Routing::Handled(
            Access::Member(request.account_id),
            Handler::SieveScriptValidate,
        ),
        RequestMethodView::Echo(value) => Routing::Echoed(value),
        RequestMethodView::Error(error) => Routing::Failed(error),
    }
}

/// The account that an id names.
pub open spec fn account_of(id: u64) -> u32 {
    (id % 0x1_0000_0000) as u32
}

/// Whether the client is refused, and in what words.
pub open spec fn refusal(token: AccessToken, allow_lookups: bool, access: Access) -> Option<
    Seq<char>,
> {
    match access {
        Access::Open => None,
        Access::ToCollection(account, collection) => if token.spec_has_access(
            account_of(account),
            collection,
        ) {
            None
        } else {
            Some(no_access_text())
        },
        Access::ToBoth(account, from_account, collection) => if token.spec_has_access(
            account_of(account),
            collection,
        ) && token.spec_has_access(account_of(from_account), collection) {
            None
        } else {
            Some(no_access_text())
        },
        Access::Member(account) => if token.spec_is_member(account_of(account)) {
            None
        } else {
            Some(not_member_text())
        },
        Access::Lookup => if allow_lookups || token.is_superuser {
            None
        } else {
            Some(lookups_disabled_text())
        },
    }
}

/// What becomes of a call: it is refused as forbidden where the client
/// lacks what the call takes; else it goes to its handler. An echo is
/// answered with its own arguments, and a call that could not be read with
/// its error.
pub open spec fn routed(method: RequestMethodView, token: AccessToken, allow_lookups: bool) -> Result<
    RouteView,
    MethodErrorView,
> {
    match routing_of(method) {
        Routing::Handled(access, handler) => match refusal(token, allow_lookups, access) {
            Some(text) => Err(MethodErrorView::Forbidden(text)),
            None => Ok(RouteView::Run(handler)),
        },
        Routing::Echoed(value) => Ok(RouteView::Answer(ResponseMethodView::Echo(value))),
        Routing::Failed(error) => Err(error),
    }
}

/// Whether a route is what the contract asks for.
pub open spec fn is_route(wanted: Result<RouteView, MethodErrorView>, got: Result<Route, MethodError>) -> bool {
    match (wanted, got) {
        (Ok(route), Ok(got)) => got@ == route,
        (Err(error), Err(got)) => got@ == error,
        _ => false,
    }
}

fn through_collection(token: &AccessToken, account_id: Id, collection: Collection, handler: Handler) -> (r:
    Result<Route, MethodError>)
    ensures
        match refusal(*token, false, Access::ToCollection(account_id@, collection)) {
            Some(text) => r is Err && r->Err_0@ == MethodErrorView::Forbidden(text),
            None => r is Ok && r->Ok_0@ == RouteView::Run(handler),
        },
{
    match token.assert_has_access(account_id, collection) {
        Ok(_) => Ok(Route::Run(handler)),
        Err(error) => Err(error),
    }
}

fn through_membership(token: &AccessToken, account_id: Id, handler: Handler) -> (r: Result<
    Route,
    MethodError,
>)
    ensures
        match refusal(*token, false, Access::Member(account_id@)) {
            Some(text) => r is Err && r->Err_0@ == MethodErrorView::Forbidden(text),
            None => r is Ok && r->Ok_0@ == RouteView::Run(handler),
        },
{
    match token.assert_is_member(account_id) {
        Ok(_) => Ok(Route::Run(handler)),
        Err(error) => Err(error),
    }
}

fn through_lookup(token: &AccessToken, allow_lookups: bool, handler: Handler) -> (r: Result<
    Route,
    MethodError,
>)
    ensures
        match refusal(*token, allow_lookups, Access::Lookup) {
            Some(text) => r is Err && r->Err_0@ == MethodErrorView::Forbidden(text),
            None => r is Ok && r->Ok_0@ == RouteView::Run(handler),
        },
{
    if allow_lookups || token.is_super_user() {
        Ok(Route::Run(handler))
    } else {
        Err(MethodError::Forbidden(String::from_str("Principal lookups are disabled")))
    }
}

impl JMAP {
    /// Says what becomes of a call: the handler that it goes to, the
    /// answer that it gets here, or the error that it fails with. Access is
    /// checked before any handler runs.
    pub fn handle_method_call(&self, method: &RequestMethod, access_token: &AccessToken) -> (r:
        Result<Route, MethodError>)
        ensures
            is_route(routed(method@, *access_token, self.config.principal_allow_lookups), r),
    {
        let allow = self.config.principal_allow_lookups;
        match method {
            RequestMethod::Get(request) => match request.arguments {
                get::RequestArguments::Email => through_collection(
                    access_token,
                    request.account_id,
                    Collection::Email,
                    Handler::EmailGet,
                ),
                get::RequestArguments::Mailbox => through_collection(
                    access_token,
                    request.account_id,
                    Collection::Mailbox,
                    Handler::MailboxGet,
                ),
                get::RequestArguments::Thread => through_collection(
                    access_token,
                    request.account_id,
                    Collection::Email,
                    Handler::ThreadGet,
                ),
                get::RequestArguments::Identity => through_membership(
                    access_token,
                    request.account_id,
                    Handler::IdentityGet,
                ),
                get::RequestArguments::EmailSubmission => through_membership(
                    access_token,
                    request.account_id,
                    Handler::EmailSubmissionGet,
                ),
                get::RequestArguments::PushSubscription => Ok(
                    Route::Run(Handler::PushSubscriptionGet),
                ),
                get::RequestArguments::SieveScript => through_membership(
                    access_token,
                    request.account_id,
                    Handler::SieveScriptGet,
                ),
                get::RequestArguments::VacationResponse => through_membership(
                    access_token,
                    request.account_id,
                    Handler::VacationResponseGet,
                ),
                get::RequestArguments::Principal => through_lookup(
                    access_token,
                    allow,
                    Handler::PrincipalGet,
                ),
            },
            RequestMethod::Query(request) => match request.arguments {
                query::RequestArguments::Email => through_collection(
                    access_token,
                    request.account_id,
                    Collection::Email,
                    Handler::EmailQuery,
                ),
                query::RequestArguments::Mailbox => through_collection(
                    access_token,
                    request.account_id,
                    Collection::Mailbox,
                    Handler::MailboxQuery,
                ),
                query::RequestArguments::EmailSubmission => through_membership(
                    access_token,
                    request.account_id,
                    Handler::EmailSubmissionQuery,
                ),
                query::RequestArguments::SieveScript => through_membership(
                    access_token,
                    request.account_id,
                    Handler::SieveScriptQuery,
                ),
                query::RequestArguments::Principal => through_lookup(
                    access_token,
                    allow,
                    Handler::PrincipalQuery,
                ),
            },
            RequestMethod::SetItems(request) => match request.arguments {
                crate::method::set::RequestArguments::Email => through_collection(
                    access_token,
                    request.account_id,
                    Collection::Email,
                    Handler::EmailSet,
                ),
                crate::method::set::RequestArguments::Mailbox => through_collection(
                    access_token,
                    request.account_id,
                    Collection::Mailbox,
                    Handler::MailboxSet,
                ),
                crate::method::set::RequestArguments::Identity => through_membership(
                    access_token,
                    request.account_id,
                    Handler::IdentitySet,
                ),
                crate::method::set::RequestArguments::EmailSubmission => through_membership(
                    access_token,
                    request.account_id,
                    Handler::EmailSubmissionSet,
                ),
                crate::method::set::RequestArguments::PushSubscription => Ok(
                    Route::Run(Handler::PushSubscriptionSet),
                ),
                crate::method::set::RequestArguments::SieveScript => through_membership(
                    access_token,
                    request.account_id,
                    Handler::SieveScriptSet,
                ),
                crate::method::set::RequestArguments::VacationResponse => through_membership(
                    access_token,
                    request.account_id,
                    Handler::VacationResponseSet,
                ),
            },
            RequestMethod::Changes(_) => Ok(Route::Run(Handler::Changes)),
            RequestMethod::Copy(request) => {
                match access_token.assert_has_access(request.account_id, Collection::Email) {
                    Ok(token) => match token.assert_has_access(
                        request.from_account_id,
                        Collection::Email,
                    ) {
                        Ok(_) => Ok(Route::Run(Handler::EmailCopy)),
                        Err(error) => Err(error),
                    },
                    Err(error) => Err(error),
                }
            },
            RequestMethod::CopyBlob(_) => Ok(Route::Run(Handler::BlobCopy)),
            RequestMethod::ImportEmail(request) => through_collection(
                access_token,
                request.account_id,
                Collection::Email,
                Handler::EmailImport,
            ),
            RequestMethod::ParseEmail(request) => through_collection(
                access_token,
                request.account_id,
                Collection::Email,
                Handler::EmailParse,
            ),
            RequestMethod::QueryChanges(_) => Ok(Route::Run(Handler::QueryChanges)),
            RequestMethod::SearchSnippet(request) => through_collection(
                access_token,
                request.account_id,
                Collection::Email,
                Handler::EmailSearchSnippet,
            ),
            RequestMethod::ValidateScript(request) => through_membership(
                access_token,
                request.account_id,
                Handler::SieveScriptValidate,
            ),
            RequestMethod::Echo(value) => Ok(Route::Answer(ResponseMethod::Echo(value.clone()))),
            RequestMethod::Error(error) => Err(error.clone()),
        }
    }
}

} // verus!
