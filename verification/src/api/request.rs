//! The batch evaluator.
//!
//! The evaluator decides; it runs no handler. It hands out one call at a
//! time, with its references resolved and the client's access to it
//! checked, together with the handler that the call goes to. The caller
//! runs the handler and reports what came of it, and the evaluator records
//! the response and hands out the next call: the follow-up call, if the
//! call succeeded and its handler asked for one, else the next call of the
//! request. Calls that
//! need no handler are answered on the way.

use vstd::prelude::*;
use crate::api::dispatch::routed;
use crate::api::dispatch::Handler;
use crate::api::dispatch::Route;
use crate::api::dispatch::RouteView;
use crate::auth::AccessToken;
use crate::config::JMAP;
use crate::error::MethodError;
use crate::error::MethodErrorView;
use crate::method::set::SetResponse;
use crate::method::set::SetResponseView;
use crate::object::lookup;
use crate::object::ObjectView;
use crate::request::Call;
use crate::request::calls_view;
use crate::request::CallView;
use crate::request::method::MethodName;
use crate::request::Request;
use crate::request::RequestMethod;
use crate::request::RequestMethodView;
use crate::response::created_ids_view;
use crate::response::error_entry;
use crate::response::references::resolved_method;
use crate::response::Response;
use crate::response::ResponseEntryView;
use crate::response::ResponseMethod;
use crate::response::ResponseMethodView;
use crate::response::ResponseView;
use crate::types::id::Id;
use crate::types::property::Property;
use crate::types::state::StateChange;
use crate::types::value::Value;
use crate::types::value::ValueView;

verus! {

/// What the caller reports.
#[derive(Debug, PartialEq, Eq)]
pub enum Event {
    /// Nothing yet: asks for the first call.
    Begin,
    /// The call that was handed out was handled: what it came to, and the
    /// follow-up call that the handler asks for, if any. A follow-up call
    /// counts only where the call succeeded.
    Completed { result: Result<ResponseMethod, MethodError>, next_call: Option<Call<RequestMethod>> },
}

pub enum EventView {
    Begin,
    Completed { result: Result<ResponseMethodView, MethodErrorView>, next_call: Option<CallView> },
}

/// What a handler reports as contracts see it.
pub open spec fn result_view(result: Result<ResponseMethod, MethodError>) -> Result<
    ResponseMethodView,
    MethodErrorView,
> {
    match result {
        Ok(method) => Ok(method@),
        Err(error) => Err(error@),
    }
}

/// A follow-up call as contracts see it.
pub open spec fn next_call_view(next_call: Option<Call<RequestMethod>>) -> Option<CallView> {
    match next_call {
        Some(call) => Some(call@),
        None => None,
    }
}

impl View for Event {
    type V = EventView;

    open spec fn view(&self) -> EventView {
        match self {
            Event::Begin => EventView::Begin,
            Event::Completed { result, next_call } => EventView::Completed {
                result: result_view(*result),
                next_call: next_call_view(*next_call),
            },
        }
    }
}

/// What the caller is asked to do next.
#[derive(Debug, PartialEq, Eq)]
pub enum Action {
    /// Run the handler on this call; then report `Completed`.
    Dispatch { handler: Handler, method: RequestMethod },
    /// Every call is answered: the response is complete.
    Done,
    /// The event answered no call that was handed out. Nothing changed.
    Refused,
}

pub enum ActionView {
    Dispatch { handler: Handler, method: RequestMethodView },
    Done,
    Refused,
}

impl View for Action {
    type V = ActionView;

    open spec fn view(&self) -> ActionView {
        match self {
            Action::Dispatch { handler, method } => ActionView::Dispatch {
                handler: *handler,
                method: method@,
            },
            Action::Done => ActionView::Done,
            Action::Refused => ActionView::Refused,
        }
    }
}

/// The answer to an event: the state change to hand to the broadcaster, if
/// the call that was completed made one, and what to do next.
#[derive(Debug, PartialEq, Eq)]
pub struct Step {
    pub broadcast: Option<StateChange>,
    pub action: Action,
}

/// The evaluation of one request, under way.
#[derive(Debug)]
pub struct Evaluator {
    calls: Vec<Call<RequestMethod>>,
    response: Response,
    add_created_ids: bool,
    current: Option<(String, MethodName)>,
    access_token: AccessToken,
    jmap: JMAP,
}

/// The evaluation as contracts see it: the calls of the request that were
/// not taken up yet, the response so far, whether the client asked for the
/// creation ids, the call-id and method name of the call that is out, the
/// client's rights, and whether principals may be looked up.
pub struct EvaluatorView {
    pub calls: Seq<CallView>,
    pub response: ResponseView,
    pub add_created_ids: bool,
    pub current: Option<(Seq<char>, MethodName)>,
    pub access_token: AccessToken,
    pub allow_lookups: bool,
}

/// The call that is out as contracts see it.
pub open spec fn current_view(current: Option<(String, MethodName)>) -> Option<
    (Seq<char>, MethodName),
> {
    match current {
        Some((id, name)) => Some((id@, name)),
        None => None,
    }
}

impl View for Evaluator {
    type V = EvaluatorView;

    closed spec fn view(&self) -> EvaluatorView {
        EvaluatorView {
            calls: calls_view(self.calls@),
            response: self.response@,
            add_created_ids: self.add_created_ids,
            current: current_view(self.current),
            access_token: self.access_token,
            allow_lookups: self.jmap.config.principal_allow_lookups,
        }
    }
}

/// The follow-up call that is taken up after a call came to `result`: the
/// one that the handler asks for, if the call succeeded. A call that failed
/// has no follow-up, whatever its handler left behind.
pub open spec fn follow_up(
    result: Result<ResponseMethodView, MethodErrorView>,
    next_call: Option<CallView>,
) -> Option<CallView> {
    match result {
        Ok(_) => next_call,
        Err(_) => None,
    }
}

/// The state change that a response carries: a Set, an import and a copy
/// may carry one.
pub open spec fn state_change_of(method: ResponseMethodView) -> Option<StateChange> {
    match method {
        ResponseMethodView::SetItems(response) => response.state_change,
        ResponseMethodView::ImportEmail(response) => response.state_change,
        ResponseMethodView::Copy(response) => response.state_change,
        _ => None,
    }
}

/// The response as it is recorded: without the state change that it
/// carried.
pub open spec fn recorded(method: ResponseMethodView) -> ResponseMethodView {
    match method {
        ResponseMethodView::SetItems(response) => ResponseMethodView::SetItems(
            SetResponseView { state_change: None, ..response },
        ),
        ResponseMethodView::ImportEmail(response) => ResponseMethodView::ImportEmail(
            SetResponseView { state_change: None, ..response },
        ),
        ResponseMethodView::Copy(response) => ResponseMethodView::Copy(
            SetResponseView { state_change: None, ..response },
        ),
        _ => method,
    }
}

/// The creation ids with those of the created objects that have an id added
/// at the end, in the order of creation.
pub open spec fn merged_ids(
    created_ids: Seq<(Seq<char>, u64)>,
    created: Seq<(Seq<char>, ObjectView)>,
) -> Seq<(Seq<char>, u64)>
    decreases created.len(),
{
    if created.len() == 0 {
        created_ids
    } else {
        let before = merged_ids(created_ids, created.drop_last());
        match lookup(created.last().1, Property::Id@) {
            ValueView::Id(id) => before.push((created.last().0, id)),
            _ => before,
        }
    }
}

/// The creation ids after a response: a Set and an import add theirs.
pub open spec fn ids_after(created_ids: Seq<(Seq<char>, u64)>, method: ResponseMethodView) -> Seq<
    (Seq<char>, u64),
> {
    match method {
        ResponseMethodView::SetItems(response) => merged_ids(created_ids, response.created),
        ResponseMethodView::ImportEmail(response) => merged_ids(created_ids, response.created),
        _ => created_ids,
    }
}

impl ResponseView {
    /// The response with one more entry.
    pub open spec fn with_entry(self, entry: ResponseEntryView) -> ResponseView {
        ResponseView { method_responses: self.method_responses.push(entry), ..self }
    }

    /// The response after the call `id`, named `name`, came to `result`: a
    /// response is recorded under the call's id and name, without its state
    /// change, and its creation ids are added if the client asked for them;
    /// an error is recorded as an error entry under the call's id.
    pub open spec fn completed(
        self,
        id: Seq<char>,
        name: MethodName,
        result: Result<ResponseMethodView, MethodErrorView>,
        add_created_ids: bool,
    ) -> ResponseView {
        match result {
            Ok(method) => ResponseView {
                method_responses: self.method_responses.push(
                    ResponseEntryView { id, name, method: recorded(method) },
                ),
                created_ids: if add_created_ids {
                    ids_after(self.created_ids, method)
                } else {
                    self.created_ids
                },
                ..self
            },
            Err(error) => self.with_entry(error_entry(id, error)),
        }
    }
}

impl EvaluatorView {
    /// What becomes of the call `id`, named `name`, once its references
    /// are resolved: the state, and the handler to run if one is to be run.
    /// A call that the client may not make is answered with the error; a
    /// call that needs no handler is answered at once; for both, no call is
    /// out afterwards.
    pub open spec fn routed(self, id: Seq<char>, name: MethodName, method: RequestMethodView) -> (
        EvaluatorView,
        Option<ActionView>,
    ) {
        match routed(method, self.access_token, self.allow_lookups) {
            Ok(RouteView::Run(handler)) => (
                EvaluatorView { current: Some((id, name)), ..self },
                Some(ActionView::Dispatch { handler, method }),
            ),
            Ok(RouteView::Answer(response)) => (
                EvaluatorView {
                    response: self.response.with_entry(
                        ResponseEntryView { id, name, method: response },
                    ),
                    current: None,
                    ..self
                },
                None,
            ),
            Err(error) => (
                EvaluatorView {
                    response: self.response.with_entry(error_entry(id, error)),
                    current: None,
                    ..self
                },
                None,
            ),
        }
    }

    /// What follows when the call `id` is ready to be handled: its handler
    /// is to be run, or, where it was answered without one, the next call
    /// of the request is taken up.
    pub open spec fn dispatch(self, id: Seq<char>, name: MethodName, method: RequestMethodView) -> (
        EvaluatorView,
        ActionView,
    )
        decreases self.calls.len(), 1nat,
    {
        match self.routed(id, name, method).1 {
            Some(action) => (self.routed(id, name, method).0, action),
            None => self.routed(id, name, method).0.take_up(),
        }
    }

    /// The next call of the request when none is out, and the state once
    /// it is handed out. A call whose references cannot be resolved is
    /// answered with the error, and the call after it is taken up. With no
    /// call left the evaluation is done.
    pub open spec fn take_up(self) -> (EvaluatorView, ActionView)
        decreases self.calls.len(), 0nat,
    {
        if self.calls.len() == 0 {
            (self, ActionView::Done)
        } else {
            let call = self.calls[0];
            let rest = EvaluatorView { calls: self.calls.drop_first(), ..self };
            match resolved_method(
                self.response.method_responses,
                self.response.created_ids,
                call.method,
            ) {
                Ok(method) => rest.dispatch(call.id, call.name, method),
                Err(text) => EvaluatorView {
                    response: self.response.with_entry(
                        error_entry(call.id, MethodErrorView::InvalidResultReference(text)),
                    ),
                    ..rest
                }.take_up(),
            }
        }
    }

    /// The state after an event, the state change to broadcast, and what
    /// to do next.
    ///
    /// `Begin` takes up the first call. `Completed` records what the call
    /// that is out came to. If the call succeeded and its handler asks for
    /// a follow-up call, that call comes next, as it is and under the
    /// call-id of the call just completed; else the next call of the
    /// request is taken up. An event that answers nothing is refused.
    pub open spec fn step(self, event: EventView) -> (EvaluatorView, Option<StateChange>, ActionView) {
        match (self.current, event) {
            (None, EventView::Begin) => (self.take_up().0, None, self.take_up().1),
            (Some((id, name)), EventView::Completed { result, next_call }) => {
                let settled = EvaluatorView {
                    response: self.response.completed(id, name, result, self.add_created_ids),
                    current: None,
                    ..self
                };
                let broadcast = match result {
                    Ok(method) => state_change_of(method),
                    Err(_) => None,
                };
                match follow_up(result, next_call) {
                    Some(call) => (
                        settled.dispatch(id, call.name, call.method).0,
                        broadcast,
                        settled.dispatch(id, call.name, call.method).1,
                    ),
                    None => (settled.take_up().0, broadcast, settled.take_up().1),
                }
            },
            _ => (self, None, ActionView::Refused),
        }
    }

    /// The state in which the evaluation of a request starts.
    pub open spec fn initial(
        request: Request,
        access_token: AccessToken,
        allow_lookups: bool,
    ) -> EvaluatorView {
        let created_ids = match request.created_ids {
            Some(created_ids) => created_ids_view(created_ids@),
            None => Seq::empty(),
        };
        EvaluatorView {
            calls: calls_view(request.method_calls@),
            response: ResponseView {
                method_responses: Seq::empty(),
                session_state: access_token.state,
                created_ids,
            },
            add_created_ids: request.created_ids is Some,
            current: None,
            access_token,
            allow_lookups,
        }
    }
}

impl SetResponse {
    /// Adds the ids of the created objects to the creation ids of
    /// `response`, each under the creation id of its object.
    pub fn update_created_ids(&self, response: &mut Response)
        ensures
            final(response)@ == (ResponseView {
                created_ids: merged_ids(old(response)@.created_ids, self@.created),
                ..old(response)@
            }),
    {
        let ghost created = self@.created;
        let ghost before = response@.created_ids;
        let mut i: usize = 0;
        assert(created.subrange(0, 0) =~= Seq::empty());
        while i < self.created.len()
            invariant
                i <= self.created@.len(),
                created == self@.created,
                response@ == (ResponseView {
                    created_ids: merged_ids(before, created.subrange(0, i as int)),
                    ..old(response)@
                }),
            decreases self.created@.len() - i,
        {
            let ghost prefix = created.subrange(0, i + 1);
            assert(prefix.drop_last() =~= created.subrange(0, i as int));
            assert(prefix.last() == (self.created@[i as int].0@, self.created@[i as int].1@));
            let entry = &self.created[i];
            match entry.1.get(&Property::Id) {
                Value::Id(id) => {
                    response.push_created_id(entry.0.clone(), *id);
                },
                _ => {},
            }
            i += 1;
        }
        assert(created.subrange(0, i as int) =~= created);
    }
}

/// Takes the state change out of a response.
fn take_state_change(method: &mut ResponseMethod) -> (change: Option<StateChange>)
    ensures
        change == state_change_of(old(method)@),
        final(method)@ == recorded(old(method)@),
{
    match method {
        ResponseMethod::SetItems(response) => response.state_change.take(),
        ResponseMethod::ImportEmail(response) => response.state_change.take(),
        ResponseMethod::Copy(response) => response.state_change.take(),
        _ => None,
    }
}

impl Evaluator {
    /// Starts the evaluation of `request` for the client with
    /// `access_token`, under the limits of `jmap`.
    pub fn new(jmap: JMAP, request: Request, access_token: AccessToken) -> (r: Evaluator)
        ensures
            r@ == EvaluatorView::initial(
                request,
                access_token,
                jmap.config.principal_allow_lookups,
            ),
    {
        let Request { created_ids, method_calls } = request;
        let add_created_ids = created_ids.is_some();
        let created_ids = match created_ids {
            Some(created_ids) => created_ids,
            None => Vec::new(),
        };
        let response = Response::new(access_token.state(), created_ids, method_calls.len());
        let r = Evaluator {
            calls: method_calls,
            response,
            add_created_ids,
            current: None,
            access_token,
            jmap,
        };
        assert(r@.response.created_ids =~= EvaluatorView::initial(
            request,
            access_token,
            jmap.config.principal_allow_lookups,
        ).response.created_ids);
        r
    }

    /// The response so far.
    pub fn response(&self) -> (r: &Response)
        ensures
            r@ == self@.response,
    {
        &self.response
    }

    /// The response, once the evaluation is done with it.
    pub fn into_response(self) -> (r: Response)
        ensures
            r@ == self@.response,
    {
        self.response
    }

    fn route(&mut self, id: String, name: MethodName, method: RequestMethod) -> (action: Option<
        Action,
    >)
        requires
            old(self)@.current is None,
        ensures
            final(self)@ == old(self)@.routed(id@, name, method@).0,
            match (old(self)@.routed(id@, name, method@).1, action) {
                (Some(wanted), Some(got)) => got@ == wanted,
                (None, None) => true,
                _ => false,
            },
    {
        match self.jmap.handle_method_call(&method, &self.access_token) {
            Ok(Route::Run(handler)) => {
                self.current = Some((id, name));
                Some(Action::Dispatch { handler, method })
            },
            Ok(Route::Answer(response)) => {
                self.response.push_response(id, name, response);
                None
            },
            Err(error) => {
                self.response.push_error(id, error);
                None
            },
        }
    }

    fn take_up(&mut self) -> (action: Action)
        requires
            old(self)@.current is None,
        ensures
            final(self)@ == old(self)@.take_up().0,
            action@ == old(self)@.take_up().1,
    {
        loop
            invariant
                self@.current is None,
                old(self)@.take_up() == self@.take_up(),
            decreases self@.calls.len(),
        {
            if self.calls.len() == 0 {
                return Action::Done;
            }
            let ghost before = self@;
            let call = self.calls.remove(0);
            assert(calls_view(self.calls@) =~= before.calls.drop_first());
            assert(before.calls[0] == call@);
            let Call { id, name, method } = call;
            let ghost rest = self@;
            match self.response.resolve_references(method) {
                Ok(method) => {
                    assert(before.take_up() == rest.dispatch(id@, name, method@));
                    match self.route(id, name, method) {
                        Some(action) => {
                            return action;
                        },
                        None => {
                            assert(rest.dispatch(id@, name, method@) == self@.take_up());
                        },
                    }
                },
                Err(error) => {
                    self.response.push_error(id, error);
                },
            }
        }
    }

    /// Takes the report of what came of the call that is out, and says
    /// what to do next.
    pub fn step(&mut self, event: Event) -> (step: Step)
        ensures
            final(self)@ == old(self)@.step(event@).0,
            step.broadcast == old(self)@.step(event@).1,
            step.action@ == old(self)@.step(event@).2,
    {
        let current = self.current.take();
        match (current, event) {
            (None, Event::Begin) => {
                let action = self.take_up();
                Step { broadcast: None, action }
            },
            (Some((id, name)), Event::Completed { result, next_call }) => {
                let next_call = if result.is_ok() {
                    next_call
                } else {
                    None
                };
                let follow_up_id = match &next_call {
                    Some(_) => Some(id.clone()),
                    None => None,
                };
                let broadcast = match result {
                    Ok(method) => {
                        let mut method = method;
                        if self.add_created_ids {
                            match &method {
                                ResponseMethod::SetItems(response) => {
                                    response.update_created_ids(&mut self.response);
                                },
                                ResponseMethod::ImportEmail(response) => {
                                    response.update_created_ids(&mut self.response);
                                },
                                _ => {},
                            }
                        }
                        let broadcast = take_state_change(&mut method);
                        self.response.push_response(id, name, method);
                        broadcast
                    },
                    Err(error) => {
                        self.response.push_error(id, error);
                        None
                    },
                };
                let action = match (next_call, follow_up_id) {
                    (Some(call), Some(id)) => match self.route(id, call.name, call.method) {
                        Some(action) => action,
                        None => self.take_up(),
                    },
                    _ => self.take_up(),
                };
                Step { broadcast, action }
            },
            (current, _) => {
                self.current = current;
                Step { broadcast: None, action: Action::Refused }
            },
        }
    }
}

impl JMAP {
    /// Starts the evaluation of `request` for the client with
    /// `access_token`. The caller then drives the evaluation with
    /// [`Evaluator::step`]: it runs the handler of each call that is handed
    /// out and reports what came of it.
    pub fn handle_request(&self, request: Request, access_token: AccessToken) -> (r: Evaluator)
        ensures
            r@ == EvaluatorView::initial(
                request,
                access_token,
                self.config.principal_allow_lookups,
            ),
    {
        Evaluator::new(*self, request, access_token)
    }
}

} // verus!
