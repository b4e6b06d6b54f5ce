//! What holds of every evaluation of a batch.

use vstd::prelude::*;
use crate::api::request::EvaluatorView;
use crate::api::request::EventView;
use crate::api::request::follow_up;
use crate::api::request::merged_ids;
use crate::api::request::recorded;
use crate::error::MethodErrorView;
use crate::method::set::ChangesView;
use crate::object::ObjectView;
use crate::request::CallView;
use crate::request::method::MethodName;
use crate::request::reference::IdsView;
use crate::request::reference::ResultReferenceView;
use crate::request::RequestMethodView;
use crate::response::error_entry;
use crate::response::references::eval_path;
use crate::response::references::find_response;
use crate::response::references::referenced;
use crate::response::references::resolved_changes;
use crate::response::references::resolved_method;
use crate::response::references::resolved_section;
use crate::response::ResponseEntryView;
use crate::response::ResponseMethodView;
use crate::response::result_value;
use crate::types::value::SetValueView;

verus! {

/// Whether a submitted value is no reference.
pub open spec fn is_concrete(value: SetValueView) -> bool {
    value is Value || value is Patch
}

/// Whether no submitted property of an object is a reference.
pub open spec fn is_concrete_changes(changes: ChangesView) -> bool {
    forall|i: int| 0 <= i < changes.len() ==> is_concrete((#[trigger] changes[i]).1)
}

/// Whether no object of a section holds a reference.
pub open spec fn is_concrete_section<K>(section: Seq<(K, ChangesView)>) -> bool {
    forall|i: int| 0 <= i < section.len() ==> is_concrete_changes((#[trigger] section[i]).1)
}

/// Whether a section, if there is one, holds no reference.
pub open spec fn is_concrete_optional_section<K>(section: Option<Seq<(K, ChangesView)>>) -> bool {
    match section {
        Some(section) => is_concrete_section(section),
        None => true,
    }
}

/// Whether a list of ids, if there is one, is given outright.
pub open spec fn is_concrete_ids(ids: Option<IdsView>) -> bool {
    match ids {
        Some(IdsView::Reference(_)) => false,
        _ => true,
    }
}

/// Whether a call holds no reference: no creation id, no result reference.
pub open spec fn has_no_references(method: RequestMethodView) -> bool {
    match method {
        RequestMethodView::Get(request) => is_concrete_ids(request.ids),
        RequestMethodView::SetItems(request) => is_concrete_optional_section(request.create)
            && is_concrete_optional_section(request.update) && is_concrete_ids(request.destroy),
        RequestMethodView::Copy(request) => is_concrete_section(request.create),
        RequestMethodView::Changes(request) => is_concrete_changes(request.arguments),
        RequestMethodView::CopyBlob(request) => is_concrete_changes(request.arguments),
        RequestMethodView::ImportEmail(request) => is_concrete_changes(request.arguments),
        RequestMethodView::ParseEmail(request) => is_concrete_changes(request.arguments),
        RequestMethodView::QueryChanges(request) => is_concrete_changes(request.arguments),
        RequestMethodView::SearchSnippet(request) => is_concrete_changes(request.arguments),
        RequestMethodView::ValidateScript(request) => is_concrete_changes(request.arguments),
        RequestMethodView::Query(_) => true,
        RequestMethodView::Echo(_) => true,
        RequestMethodView::Error(_) => true,
    }
}

/// Submitted properties without references resolve to themselves.
pub proof fn lemma_concrete_changes_resolve(
    responses: Seq<ResponseEntryView>,
    created_ids: Seq<(Seq<char>, u64)>,
    changes: ChangesView,
)
    requires
        is_concrete_changes(changes),
    ensures
        resolved_changes(responses, created_ids, changes) == Ok::<ChangesView, Seq<char>>(changes),
    decreases changes.len(),
{
    if changes.len() == 0 {
        assert(changes =~= Seq::empty());
    } else {
        let rest = changes.drop_first();
        assert(is_concrete(changes[0].1));
        assert(is_concrete_changes(rest)) by {
            assert forall|i: int| 0 <= i < rest.len() implies is_concrete(
                (#[trigger] rest[i]).1,
            ) by {
                assert(rest[i] == changes[i + 1]);
            }
        }
        lemma_concrete_changes_resolve(responses, created_ids, rest);
        assert(seq![(changes[0].0, changes[0].1)] + rest =~= changes);
    }
}

/// A section without references resolves to itself.
pub proof fn lemma_concrete_section_resolve<K>(
    responses: Seq<ResponseEntryView>,
    created_ids: Seq<(Seq<char>, u64)>,
    section: Seq<(K, ChangesView)>,
)
    requires
        is_concrete_section(section),
    ensures
        resolved_section(responses, created_ids, section) == Ok::<
            Seq<(K, ChangesView)>,
            Seq<char>,
        >(section),
    decreases section.len(),
{
    if section.len() == 0 {
        assert(section =~= Seq::empty());
    } else {
        let rest = section.drop_first();
        assert(is_concrete_changes(section[0].1));
        assert(is_concrete_section(rest)) by {
            assert forall|i: int| 0 <= i < rest.len() implies is_concrete_changes(
                (#[trigger] rest[i]).1,
            ) by {
                assert(rest[i] == section[i + 1]);
            }
        }
        lemma_concrete_changes_resolve(responses, created_ids, section[0].1);
        lemma_concrete_section_resolve(responses, created_ids, rest);
        assert(seq![(section[0].0, section[0].1)] + rest =~= section);
    }
}

/// A call without references resolves to itself, whatever the responses so
/// far.
pub proof fn lemma_concrete_method_resolves(
    responses: Seq<ResponseEntryView>,
    created_ids: Seq<(Seq<char>, u64)>,
    method: RequestMethodView,
)
    requires
        has_no_references(method),
    ensures
        resolved_method(responses, created_ids, method) == Ok::<RequestMethodView, Seq<char>>(
            method,
        ),
{
    match method {
        RequestMethodView::SetItems(request) => {
            match request.create {
                Some(section) => lemma_concrete_section_resolve(responses, created_ids, section),
                None => {},
            }
            match request.update {
                Some(section) => lemma_concrete_section_resolve(responses, created_ids, section),
                None => {},
            }
        },
        RequestMethodView::Copy(request) => {
            lemma_concrete_section_resolve(responses, created_ids, request.create);
        },
        RequestMethodView::Changes(request) => {
            lemma_concrete_changes_resolve(responses, created_ids, request.arguments);
        },
        RequestMethodView::CopyBlob(request) => {
            lemma_concrete_changes_resolve(responses, created_ids, request.arguments);
        },
        RequestMethodView::ImportEmail(request) => {
            lemma_concrete_changes_resolve(responses, created_ids, request.arguments);
        },
        RequestMethodView::ParseEmail(request) => {
            lemma_concrete_changes_resolve(responses, created_ids, request.arguments);
        },
        RequestMethodView::QueryChanges(request) => {
            lemma_concrete_changes_resolve(responses, created_ids, request.arguments);
        },
        RequestMethodView::SearchSnippet(request) => {
            lemma_concrete_changes_resolve(responses, created_ids, request.arguments);
        },
        RequestMethodView::ValidateScript(request) => {
            lemma_concrete_changes_resolve(responses, created_ids, request.arguments);
        },
        _ => {},
    }
}

/// The entry that the call `id`, named `name`, leaves in the response when
/// its handler reports `result`.
pub open spec fn answer(
    id: Seq<char>,
    name: MethodName,
    result: Result<ResponseMethodView, MethodErrorView>,
) -> ResponseEntryView {
    match result {
        Ok(method) => ResponseEntryView { id, name, method: recorded(method) },
        Err(error) => error_entry(id, error),
    }
}

/// The call-ids of the entries of a response, in order.
pub open spec fn entry_ids(responses: Seq<ResponseEntryView>) -> Seq<Seq<char>> {
    Seq::new(responses.len(), |i: int| responses[i].id)
}

/// The call-ids of calls, in order.
pub open spec fn call_ids(calls: Seq<CallView>) -> Seq<Seq<char>> {
    Seq::new(calls.len(), |i: int| calls[i].id)
}

/// The call-id of the call that is out, if one is.
pub open spec fn current_id(current: Option<(Seq<char>, MethodName)>) -> Seq<Seq<char>> {
    match current {
        Some((id, _)) => seq![id],
        None => Seq::empty(),
    }
}

/// The call-ids of an evaluation in the order of the request: those that
/// were answered, that of the call that is out, those still to be taken up.
pub open spec fn trace(state: EvaluatorView) -> Seq<Seq<char>> {
    entry_ids(state.response.method_responses) + current_id(state.current) + call_ids(
        state.calls,
    )
}

/// Number of calls that are not answered yet.
pub open spec fn pending(state: EvaluatorView) -> nat {
    state.calls.len() + if state.current is Some {
        1nat
    } else {
        0nat
    }
}

/// Whether the evaluation stands where a step leaves it: a call is out, or
/// no call is left.
pub open spec fn is_settled(state: EvaluatorView) -> bool {
    state.current is Some || state.calls.len() == 0
}

proof fn lemma_entry_ids_push(responses: Seq<ResponseEntryView>, entry: ResponseEntryView)
    ensures
        entry_ids(responses.push(entry)) == entry_ids(responses).push(entry.id),
{
    assert(entry_ids(responses.push(entry)) =~= entry_ids(responses).push(entry.id));
}

proof fn lemma_call_ids_first(calls: Seq<CallView>)
    requires
        calls.len() > 0,
    ensures
        call_ids(calls) == seq![calls[0].id] + call_ids(calls.drop_first()),
{
    assert(call_ids(calls) =~= seq![calls[0].id] + call_ids(calls.drop_first()));
}

/// Taking up the next call answers calls in the order of the request, each
/// under its own call-id, until a handler is to be run or no call is left.
pub proof fn lemma_take_up_progress(state: EvaluatorView)
    requires
        state.current is None,
    ensures
        trace(state.take_up().0) == trace(state),
        is_settled(state.take_up().0),
        pending(state.take_up().0) <= state.calls.len(),
        state.take_up().1 is Done <==> state.take_up().0.current is None,
        !(state.take_up().1 is Refused),
    decreases state.calls.len(), 0nat,
{
    let answered = entry_ids(state.response.method_responses);
    if state.calls.len() == 0 {
    } else {
        let call = state.calls[0];
        let rest = EvaluatorView { calls: state.calls.drop_first(), ..state };
        lemma_call_ids_first(state.calls);
        match resolved_method(
            state.response.method_responses,
            state.response.created_ids,
            call.method,
        ) {
            Ok(method) => {
                lemma_dispatch_progress(rest, call.id, call.name, method);
                assert(answered + seq![call.id] + call_ids(rest.calls) =~= trace(state));
            },
            Err(text) => {
                let entry = error_entry(call.id, MethodErrorView::InvalidResultReference(text));
                let failed = EvaluatorView { response: state.response.with_entry(entry), ..rest };
                lemma_entry_ids_push(state.response.method_responses, entry);
                lemma_take_up_progress(failed);
                assert(trace(failed) =~= trace(state));
            },
        }
    }
}

/// A call that is ready to be handled goes to its handler or is answered
/// under its own call-id; then the calls after it follow in order.
pub proof fn lemma_dispatch_progress(
    state: EvaluatorView,
    id: Seq<char>,
    name: MethodName,
    method: RequestMethodView,
)
    requires
        state.current is None,
    ensures
        trace(state.dispatch(id, name, method).0) == entry_ids(state.response.method_responses)
            + seq![id] + call_ids(state.calls),
        is_settled(state.dispatch(id, name, method).0),
        pending(state.dispatch(id, name, method).0) <= state.calls.len() + 1,
        state.dispatch(id, name, method).1 is Done <==> state.dispatch(
            id,
            name,
            method,
        ).0.current is None,
        !(state.dispatch(id, name, method).1 is Refused),
    decreases state.calls.len(), 1nat,
{
    let answered = entry_ids(state.response.method_responses);
    let wanted = answered + seq![id] + call_ids(state.calls);
    let routed = state.routed(id, name, method);
    match routed.1 {
        Some(_) => {
            assert(trace(routed.0) =~= wanted);
        },
        None => {
            let entry = routed.0.response.method_responses.last();
            assert(routed.0.response.method_responses == state.response.method_responses.push(
                entry,
            ));
            assert(entry.id == id);
            lemma_entry_ids_push(state.response.method_responses, entry);
            lemma_take_up_progress(routed.0);
            assert(trace(routed.0) =~= wanted);
        },
    }
}

/// Whether an event leads to no follow-up call: the handler asks for none,
/// or the call failed.
pub open spec fn has_no_follow_up(event: EventView) -> bool {
    match event {
        EventView::Begin => true,
        EventView::Completed { result, next_call } => follow_up(result, next_call) is None,
    }
}

/// Every call is answered under its own call-id, and the answers stand in
/// the order of the calls: as long as no handler asks for a follow-up call,
/// no step changes the order of the call-ids, whether they stand in the
/// response already, are out with a handler, or still wait in the request.
/// This holds whether or not the calls hold references, and whether they
/// succeed or fail.
pub proof fn law_calls_are_answered_in_order(state: EvaluatorView, event: EventView)
    requires
        has_no_follow_up(event),
    ensures
        trace(state.step(event).0) == trace(state),
{
    match (state.current, event) {
        (None, EventView::Begin) => {
            lemma_take_up_progress(state);
        },
        (Some((id, name)), EventView::Completed { result, next_call }) => {
            let settled = EvaluatorView {
                response: state.response.completed(id, name, result, state.add_created_ids),
                current: None,
                ..state
            };
            let entry = answer(id, name, result);
            assert(settled.response.method_responses == state.response.method_responses.push(
                entry,
            ));
            lemma_entry_ids_push(state.response.method_responses, entry);
            lemma_take_up_progress(settled);
            assert(trace(settled) =~= trace(state));
        },
        _ => {},
    }
}

/// The state after each of the outcomes is reported in turn, no handler
/// asking for a follow-up call.
pub open spec fn run(
    state: EvaluatorView,
    outcomes: Seq<Result<ResponseMethodView, MethodErrorView>>,
) -> EvaluatorView
    decreases outcomes.len(),
{
    if outcomes.len() == 0 {
        state
    } else {
        run(
            state.step(EventView::Completed { result: outcomes[0], next_call: None }).0,
            outcomes.drop_first(),
        )
    }
}

proof fn lemma_run(state: EvaluatorView, outcomes: Seq<Result<ResponseMethodView, MethodErrorView>>)
    requires
        is_settled(state),
    ensures
        trace(run(state, outcomes)) == trace(state),
        is_settled(run(state, outcomes)),
        outcomes.len() >= pending(state) ==> pending(run(state, outcomes)) == 0,
    decreases outcomes.len(),
{
    if outcomes.len() > 0 {
        let event = EventView::Completed { result: outcomes[0], next_call: None };
        let next = state.step(event).0;
        law_calls_are_answered_in_order(state, event);
        match state.current {
            Some((id, name)) => {
                let settled = EvaluatorView {
                    response: state.response.completed(
                        id,
                        name,
                        outcomes[0],
                        state.add_created_ids,
                    ),
                    current: None,
                    ..state
                };
                lemma_take_up_progress(settled);
            },
            None => {},
        }
        lemma_run(next, outcomes.drop_first());
    }
}

/// A batch of N calls, none of which leads to a follow-up call, is
/// answered with exactly N entries, in the order of the calls: once the
/// handlers have reported, the i-th entry bears the call-id of the i-th
/// call, and no call is left.
pub proof fn law_batch_is_answered_call_by_call(
    state: EvaluatorView,
    outcomes: Seq<Result<ResponseMethodView, MethodErrorView>>,
)
    requires
        state.current is None,
        state.response.method_responses.len() == 0,
        outcomes.len() >= state.calls.len(),
    ensures
        ({
            let done = run(state.step(EventView::Begin).0, outcomes);
            &&& done.current is None
            &&& done.calls.len() == 0
            &&& done.response.method_responses.len() == state.calls.len()
            &&& forall|i: int|
                0 <= i < state.calls.len() ==> (#[trigger] done.response.method_responses[i]).id
                    == state.calls[i].id
        }),
{
    let begun = state.step(EventView::Begin).0;
    lemma_take_up_progress(state);
    lemma_run(begun, outcomes);
    let done = run(begun, outcomes);
    assert(trace(done) =~= entry_ids(done.response.method_responses));
    assert(trace(state) =~= call_ids(state.calls));
    assert forall|i: int| 0 <= i < state.calls.len() implies (
    #[trigger] done.response.method_responses[i]).id == state.calls[i].id by {
        assert(entry_ids(done.response.method_responses)[i] == call_ids(state.calls)[i]);
    }
}

/// A call without references is handed to its handler as it is.
pub proof fn law_call_without_references_is_handed_out_unchanged(state: EvaluatorView)
    requires
        state.current is None,
        state.calls.len() > 0,
        has_no_references(state.calls[0].method),
    ensures
        state.take_up() == (EvaluatorView { calls: state.calls.drop_first(), ..state }).dispatch(
            state.calls[0].id,
            state.calls[0].name,
            state.calls[0].method,
        ),
{
    lemma_concrete_method_resolves(
        state.response.method_responses,
        state.response.created_ids,
        state.calls[0].method,
    );
}

/// A call that the client may not make is answered with the error, under
/// its own call-id, and the calls after it are taken up as if nothing had
/// happened.
pub proof fn law_refused_call_is_answered_with_the_error(
    state: EvaluatorView,
    id: Seq<char>,
    name: MethodName,
    method: RequestMethodView,
    error: MethodErrorView,
)
    requires
        state.current is None,
        crate::api::dispatch::routed(method, state.access_token, state.allow_lookups) == Err::<
            crate::api::dispatch::RouteView,
            MethodErrorView,
        >(error),
    ensures
        state.dispatch(id, name, method) == (EvaluatorView {
            response: state.response.with_entry(error_entry(id, error)),
            ..state
        }).take_up(),
{
}

/// The first response that matches stays the first when more responses
/// follow.
pub proof fn lemma_find_response_is_stable(
    responses: Seq<ResponseEntryView>,
    more: Seq<ResponseEntryView>,
    result_of: Seq<char>,
    name: MethodName,
    from: int,
)
    requires
        0 <= from,
        responses.is_prefix_of(more),
        find_response(responses, result_of, name, from) is Some,
    ensures
        find_response(more, result_of, name, from) == find_response(
            responses,
            result_of,
            name,
            from,
        ),
    decreases responses.len() - from,
{
    if from < responses.len() {
        assert(responses[from] == more.subrange(0, responses.len() as int)[from]);
        if !(responses[from].id == result_of && responses[from].name == name) {
            lemma_find_response_is_stable(responses, more, result_of, name, from + 1);
        }
    }
}

/// What the position of a response says: it matches, and none before it
/// does.
pub proof fn lemma_find_response_is(
    responses: Seq<ResponseEntryView>,
    result_of: Seq<char>,
    name: MethodName,
    from: int,
    k: int,
)
    requires
        0 <= from <= k < responses.len(),
        responses[k].id == result_of,
        responses[k].name == name,
        forall|j: int|
            from <= j < k ==> !((#[trigger] responses[j]).id == result_of && responses[j].name
                == name),
    ensures
        find_response(responses, result_of, name, from) == Some(k),
    decreases k - from,
{
    if from < k {
        lemma_find_response_is(responses, result_of, name, from + 1, k);
    }
}

/// A result reference reads the response that was recorded at position k:
/// if that is the first response with the call-id and the method name of
/// the reference, the reference names what its path finds in the result of
/// that response, and it goes on naming the same however many responses
/// are added after it.
pub proof fn law_reference_reads_committed_response(
    responses: Seq<ResponseEntryView>,
    more: Seq<ResponseEntryView>,
    reference: ResultReferenceView,
    k: int,
)
    requires
        0 <= k < responses.len(),
        responses.is_prefix_of(more),
        responses[k].id == reference.result_of,
        responses[k].name == reference.name,
        forall|j: int|
            0 <= j < k ==> !((#[trigger] responses[j]).id == reference.result_of
                && responses[j].name == reference.name),
    ensures
        referenced(responses, reference) == match result_value(responses[k].method) {
            Some(root) => eval_path(root, reference.path, 0),
            None => None,
        },
        referenced(more, reference) == referenced(responses, reference),
{
    lemma_find_response_is(responses, reference.result_of, reference.name, 0, k);
    lemma_find_response_is_stable(responses, more, reference.result_of, reference.name, 0);
    assert(responses[k] == more.subrange(0, responses.len() as int)[k]);
}

/// Every sequence is a prefix of itself with one more item.
proof fn lemma_prefix_of_push<A>(a: Seq<A>, item: A)
    ensures
        a.is_prefix_of(a),
        a.is_prefix_of(a.push(item)),
{
    assert(a =~= a.subrange(0, a.len() as int));
    assert(a =~= a.push(item).subrange(0, a.len() as int));
}

/// A prefix of a prefix is a prefix.
proof fn lemma_prefix_of_prefix<A>(a: Seq<A>, b: Seq<A>, c: Seq<A>)
    requires
        a.is_prefix_of(b),
        b.is_prefix_of(c),
    ensures
        a.is_prefix_of(c),
{
    assert(a =~= c.subrange(0, a.len() as int)) by {
        assert forall|i: int| 0 <= i < a.len() implies a[i] == c[i] by {
            assert(a[i] == b.subrange(0, a.len() as int)[i]);
            assert(b[i] == c.subrange(0, b.len() as int)[i]);
        }
    }
}

/// Creation ids are only ever added.
pub proof fn lemma_merged_ids_grow(
    created_ids: Seq<(Seq<char>, u64)>,
    created: Seq<(Seq<char>, ObjectView)>,
)
    ensures
        created_ids.is_prefix_of(merged_ids(created_ids, created)),
    decreases created.len(),
{
    if created.len() == 0 {
        lemma_prefix_of_push(created_ids, (Seq::empty(), 0u64));
    } else {
        lemma_merged_ids_grow(created_ids, created.drop_last());
        let before = merged_ids(created_ids, created.drop_last());
        lemma_prefix_of_push(before, (created.last().0, 0u64));
        let after = merged_ids(created_ids, created);
        if after != before {
            assert(exists|id: u64| after == before.push((created.last().0, id)));
            let id = choose|id: u64| after == before.push((created.last().0, id));
            lemma_prefix_of_push(before, (created.last().0, id));
        }
        lemma_prefix_of_prefix(created_ids, before, after);
    }
}

/// Taking up the next call takes nothing back: the responses so far stay in
/// their places, and the creation ids stay as they are.
pub proof fn lemma_take_up_keeps(state: EvaluatorView)
    ensures
        state.response.method_responses.is_prefix_of(
            state.take_up().0.response.method_responses,
        ),
        state.take_up().0.response.created_ids == state.response.created_ids,
        state.take_up().0.response.session_state == state.response.session_state,
    decreases state.calls.len(), 0nat,
{
    let before = state.response.method_responses;
    lemma_prefix_of_push(before, error_entry(Seq::empty(), MethodErrorView::NotFound));
    if state.calls.len() > 0 {
        let call = state.calls[0];
        let rest = EvaluatorView { calls: state.calls.drop_first(), ..state };
        match resolved_method(before, state.response.created_ids, call.method) {
            Ok(method) => {
                lemma_dispatch_keeps(rest, call.id, call.name, method);
            },
            Err(text) => {
                let entry = error_entry(call.id, MethodErrorView::InvalidResultReference(text));
                let failed = EvaluatorView { response: state.response.with_entry(entry), ..rest };
                lemma_take_up_keeps(failed);
                lemma_prefix_of_push(before, entry);
                lemma_prefix_of_prefix(
                    before,
                    failed.response.method_responses,
                    failed.take_up().0.response.method_responses,
                );
            },
        }
    }
}

/// Handling a call takes nothing back either.
pub proof fn lemma_dispatch_keeps(
    state: EvaluatorView,
    id: Seq<char>,
    name: MethodName,
    method: RequestMethodView,
)
    ensures
        state.response.method_responses.is_prefix_of(
            state.dispatch(id, name, method).0.response.method_responses,
        ),
        state.dispatch(id, name, method).0.response.created_ids == state.response.created_ids,
        state.dispatch(id, name, method).0.response.session_state
            == state.response.session_state,
    decreases state.calls.len(), 1nat,
{
    let before = state.response.method_responses;
    lemma_prefix_of_push(before, error_entry(Seq::empty(), MethodErrorView::NotFound));
    let routed = state.routed(id, name, method);
    match routed.1 {
        Some(_) => {},
        None => {
            let entry = routed.0.response.method_responses.last();
            assert(routed.0.response.method_responses == before.push(entry));
            lemma_prefix_of_push(before, entry);
            lemma_take_up_keeps(routed.0);
            lemma_prefix_of_prefix(
                before,
                routed.0.response.method_responses,
                routed.0.take_up().0.response.method_responses,
            );
        },
    }
}

/// No event takes anything back: after every step the responses recorded
/// before it are still there, in their places, and so are the creation
/// ids. Both are only ever added to.
pub proof fn law_response_only_grows(state: EvaluatorView, event: EventView)
    ensures
        state.response.method_responses.is_prefix_of(
            state.step(event).0.response.method_responses,
        ),
        state.response.created_ids.is_prefix_of(state.step(event).0.response.created_ids),
        state.step(event).0.response.session_state == state.response.session_state,
{
    let before = state.response.method_responses;
    let ids = state.response.created_ids;
    lemma_prefix_of_push(before, error_entry(Seq::empty(), MethodErrorView::NotFound));
    lemma_prefix_of_push(ids, (Seq::empty(), 0u64));
    match (state.current, event) {
        (None, EventView::Begin) => {
            lemma_take_up_keeps(state);
        },
        (Some((id, name)), EventView::Completed { result, next_call }) => {
            let settled = EvaluatorView {
                response: state.response.completed(id, name, result, state.add_created_ids),
                current: None,
                ..state
            };
            lemma_prefix_of_push(before, answer(id, name, result));
            match result {
                Ok(method) => {
                    match method {
                        ResponseMethodView::SetItems(response) => {
                            lemma_merged_ids_grow(ids, response.created);
                        },
                        ResponseMethodView::ImportEmail(response) => {
                            lemma_merged_ids_grow(ids, response.created);
                        },
                        _ => {},
                    }
                },
                Err(_) => {},
            }
            match follow_up(result, next_call) {
                Some(call) => {
                    lemma_dispatch_keeps(settled, id, call.name, call.method);
                    lemma_prefix_of_prefix(
                        before,
                        settled.response.method_responses,
                        settled.dispatch(id, call.name, call.method).0.response.method_responses,
                    );
                },
                None => {
                    lemma_take_up_keeps(settled);
                    lemma_prefix_of_prefix(
                        before,
                        settled.response.method_responses,
                        settled.take_up().0.response.method_responses,
                    );
                },
            }
        },
        _ => {},
    }
}

/// The follow-up call of a call that succeeded comes right after it and
/// bears its call-id: where the response to the parent stands at position k, the
/// follow-up is out with its handler under the same call-id, no other call
/// of the request taken up; or, where it needs no handler, it is answered
/// at position k + 1 under that call-id.
pub proof fn law_follow_up_comes_next(
    state: EvaluatorView,
    result: Result<ResponseMethodView, MethodErrorView>,
    next: CallView,
)
    requires
        state.current is Some,
        result is Ok,
    ensures
        ({
            let id = state.current.unwrap().0;
            let k = state.response.method_responses.len() as int;
            let after = state.step(EventView::Completed { result, next_call: Some(next) }).0;
            &&& trace(after) == entry_ids(state.response.method_responses) + seq![id, id]
                + call_ids(state.calls)
            &&& after.response.method_responses.len() > k
            &&& after.response.method_responses[k] == answer(id, state.current.unwrap().1, result)
            &&& match crate::api::dispatch::routed(
                next.method,
                state.access_token,
                state.allow_lookups,
            ) {
                Ok(crate::api::dispatch::RouteView::Run(_)) => after.current == Some(
                    (id, next.name),
                ) && after.response.method_responses.len() == k + 1 && after.calls == state.calls,
                _ => after.response.method_responses.len() > k + 1
                    && after.response.method_responses[k + 1].id == id,
            }
        }),
{
    let id = state.current.unwrap().0;
    let name = state.current.unwrap().1;
    let k = state.response.method_responses.len() as int;
    let settled = EvaluatorView {
        response: state.response.completed(id, name, result, state.add_created_ids),
        current: None,
        ..state
    };
    let entry = answer(id, name, result);
    assert(settled.response.method_responses == state.response.method_responses.push(entry));
    lemma_entry_ids_push(state.response.method_responses, entry);
    lemma_dispatch_progress(settled, id, next.name, next.method);
    lemma_dispatch_keeps(settled, id, next.name, next.method);
    let after = settled.dispatch(id, next.name, next.method).0;
    assert(entry_ids(settled.response.method_responses) + seq![id] + call_ids(state.calls)
        =~= entry_ids(state.response.method_responses) + seq![id, id] + call_ids(state.calls));
    assert(after.response.method_responses.subrange(0, k + 1)[k] == entry);
    let routed = settled.routed(id, next.name, next.method);
    assert(state.step(EventView::Completed { result, next_call: Some(next) }).0 == after);
    match routed.1 {
        Some(_) => {
            assert(after == routed.0);
        },
        None => {
            assert(after == routed.0.take_up().0);
            lemma_take_up_progress(routed.0);
            lemma_take_up_keeps(routed.0);
            assert(routed.0.response.method_responses.len() == k + 2);
            assert(after.response.method_responses.subrange(0, k + 2)[k + 1]
                == routed.0.response.method_responses[k + 1]);
        },
    }
}

/// The response to a follow-up call that went to its handler is recorded
/// right after the response to its parent, under the parent's call-id.
pub proof fn law_follow_up_is_answered_next(
    state: EvaluatorView,
    follow_up_result: Result<ResponseMethodView, MethodErrorView>,
    next_call: Option<CallView>,
)
    requires
        state.current is Some,
    ensures
        ({
            let id = state.current.unwrap().0;
            let name = state.current.unwrap().1;
            let k = state.response.method_responses.len() as int;
            let after = state.step(EventView::Completed { result: follow_up_result, next_call }).0;
            &&& after.response.method_responses.len() > k
            &&& after.response.method_responses[k] == answer(id, name, follow_up_result)
        }),
{
    let id = state.current.unwrap().0;
    let name = state.current.unwrap().1;
    let k = state.response.method_responses.len() as int;
    let event = EventView::Completed { result: follow_up_result, next_call };
    let settled = EvaluatorView {
        response: state.response.completed(id, name, follow_up_result, state.add_created_ids),
        current: None,
        ..state
    };
    let entry = answer(id, name, follow_up_result);
    assert(settled.response.method_responses == state.response.method_responses.push(entry));
    let after = state.step(event).0;
    match follow_up(follow_up_result, next_call) {
        Some(call) => {
            lemma_dispatch_keeps(settled, id, call.name, call.method);
        },
        None => {
            lemma_take_up_keeps(settled);
        },
    }
    assert(after.response.method_responses.subrange(0, k + 1)[k] == entry);
}

/// A call that fails ends there: what its handler left behind as a
/// follow-up call is not taken up, and the next call of the request comes
/// next.
pub proof fn law_failed_call_has_no_follow_up(
    state: EvaluatorView,
    error: MethodErrorView,
    next_call: Option<CallView>,
)
    ensures
        state.step(EventView::Completed { result: Err(error), next_call }) == state.step(
            EventView::Completed { result: Err(error), next_call: None },
        ),
{
}

/// The creation ids are kept up whenever the client sent a created-ids
/// section along, be it empty: from the start of such an evaluation on,
/// every Set and every import that succeeds adds the ids of what it
/// created. Where the client sent none, nothing is ever added.
pub proof fn law_created_ids_follow_the_request(
    request: crate::request::Request,
    access_token: crate::auth::AccessToken,
    allow_lookups: bool,
)
    ensures
        EvaluatorView::initial(request, access_token, allow_lookups).add_created_ids == (
        request.created_ids is Some),
        forall|event: EventView, state: EvaluatorView|
            (#[trigger] state.step(event)).0.add_created_ids == state.add_created_ids,
{
    assert forall|event: EventView, state: EvaluatorView|
        (#[trigger] state.step(event)).0.add_created_ids == state.add_created_ids by {
        lemma_step_keeps_settings(state, event);
    }
}

/// Taking up calls changes neither what the client asked for nor what it
/// may do.
proof fn lemma_take_up_keeps_settings(state: EvaluatorView)
    ensures
        state.take_up().0.add_created_ids == state.add_created_ids,
    decreases state.calls.len(), 0nat,
{
    if state.calls.len() > 0 {
        let call = state.calls[0];
        let rest = EvaluatorView { calls: state.calls.drop_first(), ..state };
        match resolved_method(
            state.response.method_responses,
            state.response.created_ids,
            call.method,
        ) {
            Ok(method) => {
                lemma_dispatch_keeps_settings(rest, call.id, call.name, method);
            },
            Err(text) => {
                let entry = error_entry(call.id, MethodErrorView::InvalidResultReference(text));
                lemma_take_up_keeps_settings(
                    EvaluatorView { response: state.response.with_entry(entry), ..rest },
                );
            },
        }
    }
}

proof fn lemma_dispatch_keeps_settings(
    state: EvaluatorView,
    id: Seq<char>,
    name: MethodName,
    method: RequestMethodView,
)
    ensures
        state.dispatch(id, name, method).0.add_created_ids == state.add_created_ids,
    decreases state.calls.len(), 1nat,
{
    let routed = state.routed(id, name, method);
    match routed.1 {
        Some(_) => {},
        None => {
            lemma_take_up_keeps_settings(routed.0);
        },
    }
}

proof fn lemma_step_keeps_settings(state: EvaluatorView, event: EventView)
    ensures
        state.step(event).0.add_created_ids == state.add_created_ids,
{
    match (state.current, event) {
        (None, EventView::Begin) => {
            lemma_take_up_keeps_settings(state);
        },
        (Some((id, name)), EventView::Completed { result, next_call }) => {
            let settled = EvaluatorView {
                response: state.response.completed(id, name, result, state.add_created_ids),
                current: None,
                ..state
            };
            match follow_up(result, next_call) {
                Some(call) => {
                    lemma_dispatch_keeps_settings(settled, id, call.name, call.method);
                },
                None => {
                    lemma_take_up_keeps_settings(settled);
                },
            }
        },
        _ => {},
    }
}

/// What a completed call does to the creation ids: where the client sent
/// a created-ids section, a Set and an import that succeed add the ids of
/// what they created, in the order of creation, and later calls see them;
/// any other outcome, and every outcome where the client sent no section,
/// leaves the creation ids as they are.
pub proof fn law_created_ids_are_merged(
    state: EvaluatorView,
    result: Result<ResponseMethodView, MethodErrorView>,
    next_call: Option<CallView>,
)
    requires
        state.current is Some,
    ensures
        state.step(EventView::Completed { result, next_call }).0.response.created_ids
            == match result {
            Ok(ResponseMethodView::SetItems(response)) => if state.add_created_ids {
                merged_ids(state.response.created_ids, response.created)
            } else {
                state.response.created_ids
            },
            Ok(ResponseMethodView::ImportEmail(response)) => if state.add_created_ids {
                merged_ids(state.response.created_ids, response.created)
            } else {
                state.response.created_ids
            },
            _ => state.response.created_ids,
        },
{
    let id = state.current.unwrap().0;
    let name = state.current.unwrap().1;
    let settled = EvaluatorView {
        response: state.response.completed(id, name, result, state.add_created_ids),
        current: None,
        ..state
    };
    match follow_up(result, next_call) {
        Some(call) => {
            lemma_dispatch_keeps(settled, id, call.name, call.method);
        },
        None => {
            lemma_take_up_keeps(settled);
        },
    }
}

} // verus!
