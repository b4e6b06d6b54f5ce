use jmap_core::api::dispatch::Handler;
use jmap_core::api::dispatch::Route;
use jmap_core::api::request::Action;
use jmap_core::api::request::Evaluator;
use jmap_core::api::request::Event;
use jmap_core::api::request::Step;
use jmap_core::auth::AccessToken;
use jmap_core::config::Config;
use jmap_core::config::JMAP;
use jmap_core::error::MethodError;
use jmap_core::method::copy::CopyRequest;
use jmap_core::method::get;
use jmap_core::method::get::GetRequest;
use jmap_core::method::query;
use jmap_core::method::query::QueryRequest;
use jmap_core::method::set::RequestArguments;
use jmap_core::method::set::SetRequest;
use jmap_core::method::set::SetResponse;
use jmap_core::object::Object;
use jmap_core::request::method::MethodFunction;
use jmap_core::request::method::MethodName;
use jmap_core::request::method::MethodObject;
use jmap_core::request::reference::MaybeReference;
use jmap_core::request::reference::PathItem;
use jmap_core::request::reference::ResultReference;
use jmap_core::request::Call;
use jmap_core::request::MethodRequest;
use jmap_core::request::Request;
use jmap_core::request::RequestMethod;
use jmap_core::response::references::eval_object_path;
use jmap_core::response::references::eval_value_path;
use jmap_core::response::Response;
use jmap_core::response::ResponseMethod;
use jmap_core::types::collection::Collection;
use jmap_core::types::id::Id;
use jmap_core::types::property::Property;
use jmap_core::types::state::StateChange;
use jmap_core::types::type_state::TypeState;
use jmap_core::types::value::SetValue;
use jmap_core::types::value::Value;

fn text(s: &str) -> Value {
    Value::Text(s.to_string())
}

fn name(obj: MethodObject, fnc: MethodFunction) -> MethodName {
    MethodName::new(obj, fnc)
}

fn call(id: &str, name: MethodName, method: RequestMethod) -> Call<RequestMethod> {
    Call { id: id.to_string(), name, method }
}

fn echo(id: &str, value: Value) -> Call<RequestMethod> {
    call(id, name(MethodObject::Core, MethodFunction::Echo), RequestMethod::Echo(value))
}

fn ids_document(ids: Vec<u64>) -> Object<Value> {
    Object::with_capacity(1)
        .with_property(Property::Ids, Value::List(ids.into_iter().map(|id| Value::Id(Id::new(id))).collect()))
}

fn mailbox_query(id: &str) -> Call<RequestMethod> {
    call(
        id,
        name(MethodObject::Mailbox, MethodFunction::Query),
        RequestMethod::Query(QueryRequest { account_id: Id::new(1), arguments: query::RequestArguments::Mailbox }),
    )
}

fn mailbox_get_by_reference(id: &str, result_of: &str, path: Vec<PathItem>) -> Call<RequestMethod> {
    call(
        id,
        name(MethodObject::Mailbox, MethodFunction::Get),
        RequestMethod::Get(GetRequest {
            account_id: Id::new(1),
            ids: Some(MaybeReference::Reference(ResultReference {
                result_of: result_of.to_string(),
                name: name(MethodObject::Mailbox, MethodFunction::Query),
                path,
            })),
            arguments: get::RequestArguments::Mailbox,
        }),
    )
}

fn completed(result: Result<ResponseMethod, MethodError>) -> Event {
    Event::Completed { result, next_call: None }
}

fn evaluator(calls: Vec<Call<RequestMethod>>, created_ids: Option<Vec<(String, Id)>>) -> Evaluator {
    Evaluator::new(jmap(), Request { created_ids, method_calls: calls }, owner())
}

fn set_call(id: &str) -> Call<RequestMethod> {
    call(
        id,
        name(MethodObject::Email, MethodFunction::SetItems),
        RequestMethod::SetItems(SetRequest {
            account_id: Id::new(1),
            create: None,
            update: None,
            destroy: None,
            arguments: RequestArguments::Email,
        }),
    )
}

fn dispatched(step: Step) -> (Handler, RequestMethod) {
    match step.action {
        Action::Dispatch { handler, method } => (handler, method),
        other => panic!("unexpected action {:?}", other),
    }
}

fn owner() -> AccessToken {
    AccessToken { primary_id: 1, member_of: vec![], access_to: vec![], is_superuser: false, state: 77 }
}

fn jmap() -> JMAP {
    JMAP::new(Config { set_max_objects: 10, push_max_total: 5, principal_allow_lookups: false })
}

fn created_response(alias: &str, id: u64, change: Option<StateChange>) -> SetResponse {
    let request = SetRequest {
        account_id: Id::new(1),
        create: None,
        update: None,
        destroy: None,
        arguments: RequestArguments::Email,
    };
    let mut response = SetResponse::from_request(&request, 10).unwrap();
    response.created.push((
        alias.to_string(),
        Object::with_capacity(1).with_property(Property::Id, Value::Id(Id::new(id))),
    ));
    response.state_change = change;
    response
}

#[test]
fn empty_batch_is_done_at_once() {
    let mut evaluator = jmap().handle_request(Request { created_ids: None, method_calls: vec![] }, owner());
    assert_eq!(evaluator.step(Event::Begin), Step { broadcast: None, action: Action::Done });
    let response = evaluator.into_response();
    assert!(response.method_responses.is_empty());
    assert_eq!(response.session_state, 77);
    assert!(response.created_ids.is_empty());
}

#[test]
fn n_calls_without_references_give_n_entries_in_order() {
    let calls = vec![mailbox_query("a"), echo("b", text("2")), mailbox_query("c"), mailbox_query("d")];
    let mut evaluator = evaluator(calls, None);
    let mut step = evaluator.step(Event::Begin);
    let mut handled = 0;
    loop {
        match step.action {
            Action::Dispatch { handler, method: RequestMethod::Query(_) } => {
                assert_eq!(handler, Handler::MailboxQuery);
                handled += 1;
                step = evaluator.step(completed(Ok(ResponseMethod::Query(ids_document(vec![handled])))));
            }
            Action::Done => break,
            other => panic!("unexpected action {:?}", other),
        }
    }
    assert_eq!(handled, 3);
    let response = evaluator.into_response();
    let ids: Vec<&str> = response.method_responses.iter().map(|r| r.id.as_str()).collect();
    assert_eq!(ids, vec!["a", "b", "c", "d"]);
    assert_eq!(response.method_responses[1].method, ResponseMethod::Echo(text("2")));
    assert_eq!(response.method_responses[1].name, name(MethodObject::Core, MethodFunction::Echo));
    assert_eq!(response.method_responses[2].method, ResponseMethod::Query(ids_document(vec![2])));
    assert_eq!(response.method_responses[2].name, name(MethodObject::Mailbox, MethodFunction::Query));
}

#[test]
fn echo_and_unreadable_calls_are_answered_without_a_handler() {
    let unreadable = call(
        "x",
        MethodName::error(),
        RequestMethod::Error(MethodError::UnknownMethod("Foo/bar".to_string())),
    );
    let mut evaluator = evaluator(vec![echo("a", text("1")), unreadable, echo("b", Value::Null)], None);
    assert_eq!(evaluator.step(Event::Begin).action, Action::Done);
    let response = evaluator.into_response();
    assert_eq!(response.method_responses.len(), 3);
    assert_eq!(response.method_responses[0].method, ResponseMethod::Echo(text("1")));
    assert_eq!(response.method_responses[1].id, "x");
    assert_eq!(response.method_responses[1].name, MethodName::error());
    assert_eq!(
        response.method_responses[1].method,
        ResponseMethod::Error(MethodError::UnknownMethod("Foo/bar".to_string()))
    );
    assert_eq!(response.method_responses[2].method, ResponseMethod::Echo(Value::Null));
}

#[test]
fn method_error_takes_the_place_of_the_response() {
    let mut evaluator = evaluator(vec![mailbox_query("a"), mailbox_query("b")], None);
    evaluator.step(Event::Begin);
    let step = evaluator.step(completed(Err(MethodError::NotFound)));
    assert!(matches!(step.action, Action::Dispatch { .. }));
    let step = evaluator.step(completed(Ok(ResponseMethod::Query(ids_document(vec![])))));
    assert_eq!(step.action, Action::Done);
    let response = evaluator.into_response();
    assert_eq!(response.method_responses.len(), 2);
    assert_eq!(response.method_responses[0].id, "a");
    assert_eq!(response.method_responses[0].name, MethodName::error());
    assert_eq!(response.method_responses[0].method, ResponseMethod::Error(MethodError::NotFound));
    assert_eq!(response.method_responses[1].id, "b");
}

#[test]
fn result_reference_reads_the_earlier_response() {
    let path = vec![PathItem::Property(Property::Ids)];
    let calls = vec![mailbox_query("0"), mailbox_get_by_reference("1", "0", path)];
    let mut evaluator = evaluator(calls, None);
    let (handler, method) = dispatched(evaluator.step(Event::Begin));
    assert_eq!(handler, Handler::MailboxQuery);
    assert!(matches!(method, RequestMethod::Query(_)));
    let step = evaluator.step(completed(Ok(ResponseMethod::Query(ids_document(vec![4, 5, 6])))));
    match dispatched(step) {
        (Handler::MailboxGet, RequestMethod::Get(request)) => {
            assert_eq!(
                request.ids,
                Some(MaybeReference::Value(vec![Id::new(4), Id::new(5), Id::new(6)]))
            );
        }
        other => panic!("unexpected dispatch {:?}", other),
    }
}

#[test]
fn failed_result_reference_is_answered_with_an_error_and_evaluation_goes_on() {
    let calls = vec![
        mailbox_get_by_reference("1", "0", vec![PathItem::Property(Property::Ids)]),
        mailbox_query("0"),
        mailbox_get_by_reference("2", "0", vec![PathItem::Property(Property::List)]),
        mailbox_get_by_reference("3", "0", vec![PathItem::Property(Property::Ids)]),
    ];
    let mut evaluator = evaluator(calls, None);
    let (handler, _) = dispatched(evaluator.step(Event::Begin));
    assert_eq!(handler, Handler::MailboxQuery);
    assert_eq!(evaluator.response().method_responses.len(), 1);
    let step = evaluator.step(completed(Ok(ResponseMethod::Query(ids_document(vec![9])))));
    assert_eq!(dispatched(step).0, Handler::MailboxGet);
    let response = evaluator.response();
    let ids: Vec<&str> = response.method_responses.iter().map(|r| r.id.as_str()).collect();
    assert_eq!(ids, vec!["1", "0", "2"]);
    let failed = ResponseMethod::Error(MethodError::InvalidResultReference(
        "Failed to evaluate result reference.".to_string(),
    ));
    assert_eq!(response.method_responses[0].method, failed);
    assert_eq!(response.method_responses[0].name, MethodName::error());
    assert_eq!(response.method_responses[2].method, failed);
}

#[test]
fn result_reference_needs_the_method_name_to_match() {
    let mut response = Response::new(0, vec![], 1);
    response.push_response(
        "0".to_string(),
        name(MethodObject::Mailbox, MethodFunction::Query),
        ResponseMethod::Query(ids_document(vec![1])),
    );
    let mut reference = ResultReference {
        result_of: "0".to_string(),
        name: name(MethodObject::Mailbox, MethodFunction::Query),
        path: vec![PathItem::Property(Property::Ids)],
    };
    assert_eq!(response.eval_result_reference(&reference), Some(Value::List(vec![Value::Id(Id::new(1))])));
    reference.name = name(MethodObject::Email, MethodFunction::Query);
    assert_eq!(response.eval_result_reference(&reference), None);
    reference.name = name(MethodObject::Mailbox, MethodFunction::Query);
    reference.result_of = "1".to_string();
    assert_eq!(response.eval_result_reference(&reference), None);
}

#[test]
fn result_reference_reads_the_first_matching_response() {
    let mut response = Response::new(0, vec![], 2);
    let query = name(MethodObject::Mailbox, MethodFunction::Query);
    response.push_response("0".to_string(), query, ResponseMethod::Query(ids_document(vec![1])));
    response.push_response("0".to_string(), query, ResponseMethod::Query(ids_document(vec![2])));
    let reference = ResultReference {
        result_of: "0".to_string(),
        name: query,
        path: vec![PathItem::Property(Property::Ids)],
    };
    assert_eq!(response.find_response("0", query), Some(0));
    assert_eq!(response.eval_result_reference(&reference), Some(Value::List(vec![Value::Id(Id::new(1))])));
    assert_eq!(response.resolve_ids(MaybeReference::Reference(reference)), Ok(vec![Id::new(1)]));
}

#[test]
fn result_reference_into_an_error_response_fails() {
    let mut response = Response::new(0, vec![], 1);
    response.push_error("0".to_string(), MethodError::NotFound);
    let reference = ResultReference { result_of: "0".to_string(), name: MethodName::error(), path: vec![] };
    assert_eq!(response.eval_result_reference(&reference), None);
}

#[test]
fn result_reference_must_name_ids_where_ids_are_expected() {
    let mut response = Response::new(0, vec![], 1);
    let get = name(MethodObject::Mailbox, MethodFunction::Get);
    let document = Object::with_capacity(1)
        .with_property(Property::List, Value::List(vec![text("a"), Value::Id(Id::new(1))]));
    response.push_response("0".to_string(), get, ResponseMethod::Get(document));
    let reference = ResultReference {
        result_of: "0".to_string(),
        name: get,
        path: vec![PathItem::Property(Property::List)],
    };
    assert_eq!(
        response.resolve_ids(MaybeReference::Reference(reference)),
        Err(MethodError::InvalidResultReference("Failed to evaluate result reference.".to_string()))
    );
}

#[test]
fn wildcard_gathers_and_flattens() {
    let item = |id: u64, others: Vec<u64>| {
        Value::Object(
            Object::with_capacity(2)
                .with_property(Property::Id, Value::Id(Id::new(id)))
                .with_property(
                    Property::MailboxIds,
                    Value::List(others.into_iter().map(|id| Value::Id(Id::new(id))).collect()),
                ),
        )
    };
    let document = Object::with_capacity(1)
        .with_property(Property::List, Value::List(vec![item(1, vec![10, 11]), item(2, vec![]), item(3, vec![12])]));
    let path = vec![PathItem::Property(Property::List), PathItem::Wildcard, PathItem::Property(Property::Id)];
    assert_eq!(
        eval_object_path(&document, &path, 0),
        Some(Value::List(vec![Value::Id(Id::new(1)), Value::Id(Id::new(2)), Value::Id(Id::new(3))]))
    );
    let path = vec![PathItem::Property(Property::List), PathItem::Wildcard, PathItem::Property(Property::MailboxIds)];
    assert_eq!(
        eval_object_path(&document, &path, 0),
        Some(Value::List(vec![Value::Id(Id::new(10)), Value::Id(Id::new(11)), Value::Id(Id::new(12))]))
    );
    let path = vec![PathItem::Property(Property::List), PathItem::Wildcard, PathItem::Property(Property::Name)];
    assert_eq!(eval_object_path(&document, &path, 0), None);
}

#[test]
fn path_steps_must_fit_the_value() {
    let document = Object::with_capacity(1).with_property(Property::Name, text("x"));
    assert_eq!(eval_object_path(&document, &vec![], 0), Some(Value::Object(document.clone())));
    assert_eq!(eval_object_path(&document, &vec![PathItem::Property(Property::Name)], 0), Some(text("x")));
    assert_eq!(eval_object_path(&document, &vec![PathItem::Property(Property::Url)], 0), None);
    assert_eq!(eval_object_path(&document, &vec![PathItem::Wildcard], 0), None);
    assert_eq!(eval_value_path(&text("x"), &vec![PathItem::Property(Property::Name)], 0), None);
    assert_eq!(eval_value_path(&text("x"), &vec![PathItem::Wildcard], 0), None);
    assert_eq!(eval_value_path(&Value::List(vec![]), &vec![PathItem::Wildcard], 0), Some(Value::List(vec![])));
    assert_eq!(eval_value_path(&text("x"), &vec![], 0), Some(text("x")));
}

#[test]
fn path_reads_absent_null_apart_from_stored_null() {
    let document = Object::with_capacity(1).with_property(Property::Name, Value::Null);
    assert_eq!(eval_object_path(&document, &vec![PathItem::Property(Property::Name)], 0), Some(Value::Null));
    assert_eq!(eval_object_path(&document, &vec![PathItem::Property(Property::Role)], 0), None);
}

#[test]
fn set_response_document_can_be_referenced() {
    let mut response = Response::new(0, vec![], 1);
    let set = name(MethodObject::Mailbox, MethodFunction::SetItems);
    let mut set_response = created_response("k1", 31, None);
    set_response.destroyed.push(Id::new(8));
    set_response.updated.push((Id::new(9), None));
    response.push_response("s".to_string(), set, ResponseMethod::SetItems(set_response));
    let reference = |path: Vec<PathItem>| ResultReference { result_of: "s".to_string(), name: set, path };
    assert_eq!(
        response.eval_result_reference(&reference(vec![
            PathItem::Property(Property::Created),
            PathItem::Property(Property::Extension("k1".to_string())),
            PathItem::Property(Property::Id),
        ])),
        Some(Value::Id(Id::new(31)))
    );
    assert_eq!(
        response.eval_result_reference(&reference(vec![PathItem::Property(Property::Destroyed)])),
        Some(Value::List(vec![Value::Id(Id::new(8))]))
    );
    assert_eq!(
        response.eval_result_reference(&reference(vec![PathItem::Property(Property::Updated)])),
        Some(Value::List(vec![Value::Id(Id::new(9))]))
    );
}

#[test]
fn created_id_reference_resolves_to_the_stored_id() {
    let arguments = Object {
        properties: vec![
            (Property::ParentId, SetValue::IdReference("box".to_string())),
            (Property::Name, SetValue::Value(text("x"))),
        ],
    };
    let parse = name(MethodObject::Email, MethodFunction::Parse);
    let calls = vec![call(
        "c",
        parse,
        RequestMethod::ParseEmail(MethodRequest { account_id: Id::new(1), arguments }),
    )];
    let mut evaluator = evaluator(calls, Some(vec![("box".to_string(), Id::new(99))]));
    match dispatched(evaluator.step(Event::Begin)) {
        (Handler::EmailParse, RequestMethod::ParseEmail(request)) => {
            assert_eq!(
                request.arguments.properties,
                vec![
                    (Property::ParentId, SetValue::Value(Value::Id(Id::new(99)))),
                    (Property::Name, SetValue::Value(text("x"))),
                ]
            );
        }
        other => panic!("unexpected dispatch {:?}", other),
    }
}

#[test]
fn unknown_created_id_reference_is_an_invalid_result_reference() {
    let arguments = Object { properties: vec![(Property::ParentId, SetValue::IdReference("box".to_string()))] };
    let calls = vec![call(
        "c",
        name(MethodObject::Email, MethodFunction::Parse),
        RequestMethod::ParseEmail(MethodRequest { account_id: Id::new(1), arguments }),
    )];
    let mut evaluator = evaluator(calls, None);
    assert_eq!(evaluator.step(Event::Begin).action, Action::Done);
    let response = evaluator.into_response();
    assert_eq!(response.method_responses.len(), 1);
    assert_eq!(response.method_responses[0].id, "c");
    assert_eq!(
        response.method_responses[0].method,
        ResponseMethod::Error(MethodError::InvalidResultReference("Id reference not found.".to_string()))
    );
}

#[test]
fn later_creation_id_under_the_same_alias_counts() {
    let mut response = Response::new(0, vec![("a".to_string(), Id::new(1))], 0);
    assert_eq!(response.get_id("a"), Some(Id::new(1)));
    response.push_created_id("b".to_string(), Id::new(2));
    response.push_created_id("a".to_string(), Id::new(3));
    assert_eq!(response.get_id("a"), Some(Id::new(3)));
    assert_eq!(response.get_id("b"), Some(Id::new(2)));
    assert_eq!(response.get_id("c"), None);
    assert_eq!(response.created_ids.len(), 3);
}

#[test]
fn created_ids_are_merged_only_when_the_client_sent_some() {
    let mut evaluator = evaluator(vec![set_call("s")], None);
    evaluator.step(Event::Begin);
    evaluator.step(completed(Ok(ResponseMethod::SetItems(created_response("k", 5, None)))));
    assert!(evaluator.into_response().created_ids.is_empty());

    let sent = Some(vec![("old".to_string(), Id::new(1))]);
    let mut evaluator = self::evaluator(vec![set_call("s")], sent);
    evaluator.step(Event::Begin);
    evaluator.step(completed(Ok(ResponseMethod::SetItems(created_response("k", 5, None)))));
    assert_eq!(
        evaluator.into_response().created_ids,
        vec![("old".to_string(), Id::new(1)), ("k".to_string(), Id::new(5))]
    );

    let sent = Some(vec![("old".to_string(), Id::new(1))]);
    let mut evaluator = self::evaluator(vec![set_call("s")], sent);
    evaluator.step(Event::Begin);
    evaluator.step(completed(Ok(ResponseMethod::Copy(created_response("k", 5, None)))));
    assert_eq!(evaluator.into_response().created_ids, vec![("old".to_string(), Id::new(1))]);
}

#[test]
fn created_ids_of_an_earlier_call_resolve_in_a_later_one() {
    let arguments = Object { properties: vec![(Property::ParentId, SetValue::IdReference("k".to_string()))] };
    let parse = call(
        "p",
        name(MethodObject::Email, MethodFunction::Parse),
        RequestMethod::ParseEmail(MethodRequest { account_id: Id::new(1), arguments }),
    );
    let sent = Some(vec![("old".to_string(), Id::new(1))]);
    let mut evaluator = evaluator(vec![set_call("s"), parse], sent);
    evaluator.step(Event::Begin);
    let step = evaluator.step(completed(Ok(ResponseMethod::SetItems(created_response("k", 5, None)))));
    match dispatched(step) {
        (Handler::EmailParse, RequestMethod::ParseEmail(request)) => {
            assert_eq!(
                request.arguments.properties,
                vec![(Property::ParentId, SetValue::Value(Value::Id(Id::new(5))))]
            );
        }
        other => panic!("unexpected dispatch {:?}", other),
    }
}

#[test]
fn state_change_is_handed_out_once_and_not_recorded() {
    let change = StateChange::new(1).with_change(TypeState::Email, 12);
    let mut evaluator = evaluator(vec![set_call("s")], None);
    assert_eq!(evaluator.step(Event::Begin).broadcast, None);
    let step = evaluator.step(completed(Ok(ResponseMethod::SetItems(created_response("k", 5, Some(change.clone()))))));
    assert_eq!(step.broadcast, Some(change));
    assert_eq!(step.action, Action::Done);
    let response = evaluator.into_response();
    assert_eq!(response.method_responses[0].method, ResponseMethod::SetItems(created_response("k", 5, None)));
}

#[test]
fn copy_with_destroy_gives_two_entries_under_one_call_id() {
    let copy = name(MethodObject::Email, MethodFunction::Copy);
    let set = name(MethodObject::Email, MethodFunction::SetItems);
    let copy_request = CopyRequest {
        from_account_id: Id::new(1),
        account_id: Id::new(2),
        create: vec![(
            Id::new(100),
            Object {
                properties: vec![(
                    Property::ReceivedAt,
                    SetValue::Value(Value::Date(jmap_core::types::date::UTCDate::from_timestamp(311923920))),
                )],
            },
        )],
        on_success_destroy_original: true,
    };
    let calls = vec![call("c0", copy, RequestMethod::Copy(copy_request)), mailbox_query("c1")];
    let mut token = owner();
    token.member_of = vec![2];
    let mut evaluator = Evaluator::new(jmap(), Request { created_ids: None, method_calls: calls }, token);
    let (handler, _) = dispatched(evaluator.step(Event::Begin));
    assert_eq!(handler, Handler::EmailCopy);

    let destroy_original = SetRequest {
        account_id: Id::new(1),
        create: None,
        update: None,
        destroy: Some(MaybeReference::Value(vec![Id::new(100)])),
        arguments: RequestArguments::Email,
    };
    let follow_up = call("ignored", set, RequestMethod::SetItems(destroy_original.clone()));
    let copied = ResponseMethod::Copy(created_response("100", 500, Some(StateChange::new(2))));
    let step = evaluator.step(Event::Completed { result: Ok(copied), next_call: Some(follow_up) });
    assert_eq!(step.broadcast, Some(StateChange::new(2)));
    assert_eq!(
        step.action,
        Action::Dispatch { handler: Handler::EmailSet, method: RequestMethod::SetItems(destroy_original) }
    );

    let mut destroyed = created_response("x", 0, Some(StateChange::new(1)));
    destroyed.created.clear();
    destroyed.destroyed.push(Id::new(100));
    let step = evaluator.step(completed(Ok(ResponseMethod::SetItems(destroyed))));
    assert_eq!(step.broadcast, Some(StateChange::new(1)));
    assert_eq!(dispatched(step).0, Handler::MailboxQuery);
    let step = evaluator.step(completed(Ok(ResponseMethod::Query(ids_document(vec![])))));
    assert_eq!(step.action, Action::Done);

    let response = evaluator.into_response();
    assert_eq!(response.method_responses.len(), 3);
    assert_eq!(response.method_responses[0].id, "c0");
    assert_eq!(response.method_responses[0].name, copy);
    assert_eq!(response.method_responses[1].id, "c0");
    assert_eq!(response.method_responses[1].name, set);
    match &response.method_responses[1].method {
        ResponseMethod::SetItems(set_response) => assert_eq!(set_response.destroyed, vec![Id::new(100)]),
        other => panic!("unexpected response {:?}", other),
    }
    assert_eq!(response.method_responses[2].id, "c1");
}

#[test]
fn follow_up_after_an_error_is_not_taken_up() {
    let mut evaluator = evaluator(vec![mailbox_query("a"), mailbox_query("c")], None);
    evaluator.step(Event::Begin);
    let follow_up = mailbox_query("b");
    let step = evaluator.step(Event::Completed { result: Err(MethodError::ServerUnavailable), next_call: Some(follow_up) });
    assert_eq!(dispatched(step).0, Handler::MailboxQuery);
    let ids: Vec<&str> = evaluator.response().method_responses.iter().map(|r| r.id.as_str()).collect();
    assert_eq!(ids, vec!["a"]);
    let step = evaluator.step(completed(Ok(ResponseMethod::Query(ids_document(vec![])))));
    assert_eq!(step.action, Action::Done);
    let response = evaluator.into_response();
    assert_eq!(response.method_responses.len(), 2);
    assert_eq!(response.method_responses[0].id, "a");
    assert_eq!(response.method_responses[0].method, ResponseMethod::Error(MethodError::ServerUnavailable));
    assert_eq!(response.method_responses[1].id, "c");
}

#[test]
fn follow_up_after_an_error_ends_a_batch_of_one() {
    let mut evaluator = evaluator(vec![mailbox_query("a")], None);
    evaluator.step(Event::Begin);
    let step = evaluator.step(Event::Completed {
        result: Err(MethodError::NotFound),
        next_call: Some(mailbox_query("b")),
    });
    assert_eq!(step, Step { broadcast: None, action: Action::Done });
    assert_eq!(evaluator.into_response().method_responses.len(), 1);
}

#[test]
fn created_ids_are_merged_when_the_client_sent_an_empty_section() {
    let mut evaluator = evaluator(vec![set_call("s"), set_call("t")], Some(vec![]));
    evaluator.step(Event::Begin);
    evaluator.step(completed(Ok(ResponseMethod::SetItems(created_response("k", 5, None)))));
    assert_eq!(evaluator.response().created_ids, vec![("k".to_string(), Id::new(5))]);
    evaluator.step(completed(Ok(ResponseMethod::ImportEmail(created_response("m", 6, None)))));
    assert_eq!(
        evaluator.into_response().created_ids,
        vec![("k".to_string(), Id::new(5)), ("m".to_string(), Id::new(6))]
    );
}

#[test]
fn created_id_from_an_empty_section_resolves_in_a_later_call() {
    let arguments = Object { properties: vec![(Property::ParentId, SetValue::IdReference("k".to_string()))] };
    let parse = call(
        "p",
        name(MethodObject::Email, MethodFunction::Parse),
        RequestMethod::ParseEmail(MethodRequest { account_id: Id::new(1), arguments }),
    );
    let mut evaluator = evaluator(vec![set_call("s"), parse], Some(vec![]));
    evaluator.step(Event::Begin);
    let step = evaluator.step(completed(Ok(ResponseMethod::SetItems(created_response("k", 5, None)))));
    match dispatched(step) {
        (Handler::EmailParse, RequestMethod::ParseEmail(request)) => {
            assert_eq!(
                request.arguments.properties,
                vec![(Property::ParentId, SetValue::Value(Value::Id(Id::new(5))))]
            );
        }
        other => panic!("unexpected dispatch {:?}", other),
    }
}

#[test]
fn follow_up_that_the_client_may_not_make_is_answered_with_the_error() {
    let mut evaluator = evaluator(vec![mailbox_query("a"), mailbox_query("b")], None);
    evaluator.step(Event::Begin);
    let mut forbidden = set_call("ignored");
    if let RequestMethod::SetItems(request) = &mut forbidden.method {
        request.account_id = Id::new(2);
    }
    let step = evaluator.step(Event::Completed {
        result: Ok(ResponseMethod::Query(ids_document(vec![]))),
        next_call: Some(forbidden),
    });
    assert_eq!(dispatched(step).0, Handler::MailboxQuery);
    let response = evaluator.response();
    assert_eq!(response.method_responses.len(), 2);
    assert_eq!(response.method_responses[1].id, "a");
    assert_eq!(
        response.method_responses[1].method,
        ResponseMethod::Error(MethodError::Forbidden("You do not have access to this account.".to_string()))
    );
}

#[test]
fn evaluator_refuses_events_that_answer_nothing() {
    let mut evaluator = evaluator(vec![mailbox_query("a")], None);
    assert_eq!(evaluator.step(completed(Err(MethodError::NotFound))).action, Action::Refused);
    assert!(evaluator.response().method_responses.is_empty());
    assert!(matches!(evaluator.step(Event::Begin).action, Action::Dispatch { .. }));
    assert_eq!(evaluator.step(Event::Begin).action, Action::Refused);
    assert_eq!(evaluator.step(completed(Ok(ResponseMethod::Query(ids_document(vec![]))))).action, Action::Done);
    assert_eq!(evaluator.step(Event::Begin).action, Action::Done);
    assert_eq!(evaluator.into_response().method_responses.len(), 1);
}

#[test]
fn access_denied_for_one_call_leaves_the_others_alone() {
    let identity_get = |id: &str, account: u64| {
        call(
            id,
            name(MethodObject::Identity, MethodFunction::Get),
            RequestMethod::Get(GetRequest {
                account_id: Id::new(account),
                ids: None,
                arguments: get::RequestArguments::Identity,
            }),
        )
    };
    let calls = vec![identity_get("own", 1), identity_get("other", 2), echo("e", text("x")), identity_get("own2", 1)];
    let mut evaluator = jmap().handle_request(Request { created_ids: None, method_calls: calls }, owner());
    let mut step = evaluator.step(Event::Begin);
    let mut handled = 0;
    loop {
        match step.action {
            Action::Dispatch { handler, method: RequestMethod::Get(request) } => {
                assert_eq!(handler, Handler::IdentityGet);
                assert_eq!(request.account_id, Id::new(1));
                handled += 1;
                step = evaluator.step(completed(Ok(ResponseMethod::Get(ids_document(vec![])))));
            }
            Action::Done => break,
            other => panic!("unexpected action {:?}", other),
        }
    }
    assert_eq!(handled, 2);
    let response = evaluator.into_response();
    assert_eq!(response.method_responses.len(), 4);
    assert!(matches!(response.method_responses[0].method, ResponseMethod::Get(_)));
    assert_eq!(response.method_responses[1].id, "other");
    assert_eq!(response.method_responses[1].name, MethodName::error());
    assert_eq!(
        response.method_responses[1].method,
        ResponseMethod::Error(MethodError::Forbidden("You are not an owner of this account.".to_string()))
    );
    assert_eq!(response.method_responses[2].method, ResponseMethod::Echo(text("x")));
    assert_eq!(response.method_responses[3].id, "own2");
}

#[test]
fn dispatcher_guards_each_data_type() {
    let jmap = jmap();
    let mut token = owner();
    token.access_to = vec![(2, vec![Collection::Mailbox])];
    let get = |account: u64, arguments: get::RequestArguments| {
        RequestMethod::Get(GetRequest { account_id: Id::new(account), ids: None, arguments })
    };
    let no_access = Err(MethodError::Forbidden("You do not have access to this account.".to_string()));
    let not_member = Err(MethodError::Forbidden("You are not an owner of this account.".to_string()));
    assert_eq!(jmap.handle_method_call(&get(1, get::RequestArguments::Email), &token), Ok(Route::Run(Handler::EmailGet)));
    assert_eq!(jmap.handle_method_call(&get(2, get::RequestArguments::Email), &token), no_access);
    assert_eq!(jmap.handle_method_call(&get(2, get::RequestArguments::Thread), &token), no_access);
    assert_eq!(jmap.handle_method_call(&get(2, get::RequestArguments::Mailbox), &token), Ok(Route::Run(Handler::MailboxGet)));
    assert_eq!(jmap.handle_method_call(&get(3, get::RequestArguments::Mailbox), &token), no_access);
    assert_eq!(jmap.handle_method_call(&get(2, get::RequestArguments::Identity), &token), not_member);
    assert_eq!(jmap.handle_method_call(&get(2, get::RequestArguments::SieveScript), &token), not_member);
    assert_eq!(jmap.handle_method_call(&get(2, get::RequestArguments::VacationResponse), &token), not_member);
    assert_eq!(jmap.handle_method_call(&get(2, get::RequestArguments::EmailSubmission), &token), not_member);
    assert_eq!(
        jmap.handle_method_call(&get(2, get::RequestArguments::PushSubscription), &token),
        Ok(Route::Run(Handler::PushSubscriptionGet))
    );
    assert_eq!(
        jmap.handle_method_call(&get(1, get::RequestArguments::Principal), &token),
        Err(MethodError::Forbidden("Principal lookups are disabled".to_string()))
    );
}

#[test]
fn principal_lookups_need_the_flag_or_a_super_user() {
    let get = RequestMethod::Get(GetRequest { account_id: Id::new(9), ids: None, arguments: get::RequestArguments::Principal });
    let query = RequestMethod::Query(QueryRequest { account_id: Id::new(9), arguments: query::RequestArguments::Principal });
    let open = JMAP::new(Config { set_max_objects: 1, push_max_total: 1, principal_allow_lookups: true });
    assert_eq!(open.handle_method_call(&get, &owner()), Ok(Route::Run(Handler::PrincipalGet)));
    assert_eq!(open.handle_method_call(&query, &owner()), Ok(Route::Run(Handler::PrincipalQuery)));
    let mut admin = owner();
    admin.is_superuser = true;
    assert_eq!(jmap().handle_method_call(&get, &admin), Ok(Route::Run(Handler::PrincipalGet)));
    assert!(jmap().handle_method_call(&query, &owner()).is_err());
}

#[test]
fn copy_needs_access_to_both_accounts() {
    let jmap = jmap();
    let copy = |from: u64, to: u64| {
        RequestMethod::Copy(CopyRequest {
            from_account_id: Id::new(from),
            account_id: Id::new(to),
            create: vec![],
            on_success_destroy_original: false,
        })
    };
    let mut token = owner();
    assert!(jmap.handle_method_call(&copy(1, 2), &token).is_err());
    assert!(jmap.handle_method_call(&copy(2, 1), &token).is_err());
    assert_eq!(jmap.handle_method_call(&copy(1, 1), &token), Ok(Route::Run(Handler::EmailCopy)));
    token.member_of = vec![2];
    assert_eq!(jmap.handle_method_call(&copy(1, 2), &token), Ok(Route::Run(Handler::EmailCopy)));
    token.member_of = vec![];
    token.access_to = vec![(2, vec![Collection::Email])];
    assert_eq!(jmap.handle_method_call(&copy(2, 1), &token), Ok(Route::Run(Handler::EmailCopy)));
}

#[test]
fn echo_is_answered_with_its_arguments_and_error_with_its_error() {
    let jmap = jmap();
    assert_eq!(
        jmap.handle_method_call(&RequestMethod::Echo(text("hello")), &owner()),
        Ok(Route::Answer(ResponseMethod::Echo(text("hello"))))
    );
    assert_eq!(
        jmap.handle_method_call(&RequestMethod::Error(MethodError::UnknownMethod("Foo/bar".to_string())), &owner()),
        Err(MethodError::UnknownMethod("Foo/bar".to_string()))
    );
}

#[test]
fn other_kinds_go_to_their_handlers() {
    let jmap = jmap();
    let token = owner();
    let on = |account: u64| MethodRequest { account_id: Id::new(account), arguments: Object { properties: vec![] } };
    assert_eq!(jmap.handle_method_call(&RequestMethod::Changes(on(2)), &token), Ok(Route::Run(Handler::Changes)));
    assert_eq!(jmap.handle_method_call(&RequestMethod::CopyBlob(on(2)), &token), Ok(Route::Run(Handler::BlobCopy)));
    assert_eq!(jmap.handle_method_call(&RequestMethod::QueryChanges(on(2)), &token), Ok(Route::Run(Handler::QueryChanges)));
    assert_eq!(jmap.handle_method_call(&RequestMethod::ImportEmail(on(1)), &token), Ok(Route::Run(Handler::EmailImport)));
    assert_eq!(jmap.handle_method_call(&RequestMethod::ParseEmail(on(1)), &token), Ok(Route::Run(Handler::EmailParse)));
    assert_eq!(jmap.handle_method_call(&RequestMethod::SearchSnippet(on(1)), &token), Ok(Route::Run(Handler::EmailSearchSnippet)));
    assert_eq!(jmap.handle_method_call(&RequestMethod::ValidateScript(on(1)), &token), Ok(Route::Run(Handler::SieveScriptValidate)));
    assert!(jmap.handle_method_call(&RequestMethod::ImportEmail(on(2)), &token).is_err());
    assert!(jmap.handle_method_call(&RequestMethod::ValidateScript(on(2)), &token).is_err());
    let set = |arguments: RequestArguments| {
        RequestMethod::SetItems(SetRequest { account_id: Id::new(2), create: None, update: None, destroy: None, arguments })
    };
    assert_eq!(jmap.handle_method_call(&set(RequestArguments::PushSubscription), &token), Ok(Route::Run(Handler::PushSubscriptionSet)));
    assert!(jmap.handle_method_call(&set(RequestArguments::Email), &token).is_err());
    assert!(jmap.handle_method_call(&set(RequestArguments::Identity), &token).is_err());
}

#[test]
fn token_membership_and_access() {
    let token = AccessToken {
        primary_id: 1,
        member_of: vec![5, 6],
        access_to: vec![(7, vec![Collection::Email]), (7, vec![Collection::Mailbox]), (8, vec![])],
        is_superuser: false,
        state: 3,
    };
    assert_eq!(token.primary_id(), 1);
    assert_eq!(token.state(), 3);
    assert!(!token.is_super_user());
    assert!(token.is_member(1) && token.is_member(5) && token.is_member(6));
    assert!(!token.is_member(7));
    assert!(token.has_access(7, Collection::Email));
    assert!(token.has_access(7, Collection::Mailbox));
    assert!(!token.has_access(7, Collection::Identity));
    assert!(!token.has_access(8, Collection::Email));
    assert!(token.has_access(5, Collection::SieveScript));
    assert!(token.assert_is_member(Id::new(5)).is_ok());
    assert!(token.assert_has_access(Id::new(7), Collection::Email).unwrap().assert_has_access(Id::new(1), Collection::Email).is_ok());
    let mut admin = token.clone();
    admin.is_superuser = true;
    assert!(admin.is_member(1000) && admin.has_access(1000, Collection::Principal));
}

#[test]
fn id_parts() {
    let id = Id::from_parts(3, 9);
    assert_eq!(id.id(), (3u64 << 32) | 9);
    assert_eq!(id.document_id(), 9);
    assert_eq!(id.prefix_id(), 3);
    assert_eq!(Id::new(u64::MAX).document_id(), u32::MAX);
    assert_eq!(Id::new(u64::MAX).prefix_id(), u32::MAX);
    assert_eq!(Id::new(7).prefix_id(), 0);
}
