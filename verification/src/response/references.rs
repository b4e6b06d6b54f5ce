//! Resolving the references of a call against the responses so far.

use vstd::prelude::*;
use vstd::string::StringExecFns;
use crate::error::MethodError;
use crate::method::copy::CopyRequest;
use crate::method::copy::CopyRequestView;
use crate::method::get::GetRequest;
use crate::method::get::GetRequestView;
use crate::method::set::ChangesView;
use crate::method::set::changes_view;
use crate::method::set::creates_view;
use crate::method::set::SetRequest;
use crate::method::set::SetRequestView;
use crate::method::set::updates_view;
use crate::object::contains_key;
use crate::object::lookup;
use crate::object::Object;
use crate::request::method::MethodName;
use crate::request::MethodRequest;
use crate::request::MethodRequestView;
use crate::request::reference::IdsView;
use crate::request::reference::ids_view;
use crate::request::reference::MaybeReference;
use crate::request::reference::PathItem;
use crate::request::reference::PathItemView;
use crate::request::reference::path_view;
use crate::request::reference::ResultReference;
use crate::request::reference::ResultReferenceView;
use crate::request::RequestMethod;
use crate::request::RequestMethodView;
use crate::response::alias_id;
use crate::response::Response;
use crate::response::ResponseEntryView;
use crate::response::ResponseMethod;
use crate::response::result_value;
use crate::types::id::Id;
use crate::types::property::Property;
use crate::types::value::list_view;
use crate::types::value::SetValue;
use crate::types::value::SetValueView;
use crate::types::value::Value;
use crate::types::value::ValueView;

verus! {

/// What a value adds to the result of a wildcard: its items if it is a
/// list, else itself.
pub open spec fn flattened(value: ValueView) -> Seq<ValueView> {
    match value {
        ValueView::List(items) => items,
        _ => seq![value],
    }
}

/// The value that the steps of `path` from index `from` on lead to when
/// they start at `value`. A property step leads into the first entry of
/// that name of an object. A wildcard step leads into every item of a list
/// and gathers what the rest of the path finds there into one list, the
/// items of a list that is found taking the place of the list. Nothing is
/// found where a step does not fit the value it meets.
pub open spec fn eval_path(value: ValueView, path: Seq<PathItemView>, from: nat) -> Option<
    ValueView,
>
    decreases path.len() - from, 0nat,
{
    if from >= path.len() {
        Some(value)
    } else {
        match (path[from as int], value) {
            (PathItemView::Property(name), ValueView::Object(entries)) => if contains_key(
                entries,
                name,
            ) {
                eval_path(lookup(entries, name), path, from + 1)
            } else {
                None
            },
            (PathItemView::Wildcard, ValueView::List(items)) => match eval_each(
                items,
                0,
                path,
                from + 1,
            ) {
                Some(found) => Some(ValueView::List(found)),
                None => None,
            },
            _ => None,
        }
    }
}

/// What the steps of `path` from index `from` on find in the items from
/// index `at` on, gathered in order; nothing if they find nothing in one of
/// the items.
pub open spec fn eval_each(items: Seq<ValueView>, at: nat, path: Seq<PathItemView>, from: nat) -> Option<
    Seq<ValueView>,
>
    decreases path.len() - from, items.len() - at + 1,
{
    if at >= items.len() {
        Some(Seq::empty())
    } else {
        match eval_path(items[at as int], path, from) {
            Some(found) => match eval_each(items, at + 1, path, from) {
                Some(rest) => Some(flattened(found) + rest),
                None => None,
            },
            None => None,
        }
    }
}

/// Index of the first response at or after `from` to the call `result_of`
/// that bears the method name `name`.
pub open spec fn find_response(
    responses: Seq<ResponseEntryView>,
    result_of: Seq<char>,
    name: MethodName,
    from: int,
) -> Option<int>
    decreases responses.len() - from,
{
    if from < 0 || from >= responses.len() {
        None
    } else if responses[from].id == result_of && responses[from].name == name {
        Some(from)
    } else {
        find_response(responses, result_of, name, from + 1)
    }
}

/// The value that a result reference names: in the first response with its
/// call-id and method name, what its path leads to. Nothing where no
/// response matches, where the response is an error, or where the path
/// finds nothing.
pub open spec fn referenced(responses: Seq<ResponseEntryView>, reference: ResultReferenceView) -> Option<
    ValueView,
> {
    match find_response(responses, reference.result_of, reference.name, 0) {
        Some(i) => match result_value(responses[i].method) {
            Some(root) => eval_path(root, reference.path, 0),
            None => None,
        },
        None => None,
    }
}

/// Whether what was found is what the contract asks for.
pub open spec fn is_found(wanted: Option<ValueView>, got: Option<Value>) -> bool {
    match (wanted, got) {
        (Some(value), Some(got)) => got@ == value,
        (None, None) => true,
        _ => false,
    }
}

/// Follows `path` from its step `from` on, starting at the object
/// `object`, and gives a copy of what it leads to.
pub fn eval_object_path(object: &Object<Value>, path: &Vec<PathItem>, from: usize) -> (r: Option<
    Value,
>)
    ensures
        is_found(eval_path(ValueView::Object(object@), path_view(path@), from as nat), r),
    decreases path@.len() - from, 0nat,
{
    if from >= path.len() {
        return Some(Value::Object(object.duplicate()));
    }
    assert(path_view(path@)[from as int] == path@[from as int]@);
    match &path[from] {
        PathItem::Property(name) => {
            if object.contains_key(name) {
                eval_value_path(object.get(name), path, from + 1)
            } else {
                None
            }
        },
        PathItem::Wildcard => None,
    }
}

/// Follows `path` from its step `from` on, starting at `value`, and gives a
/// copy of what it leads to.
pub fn eval_value_path(value: &Value, path: &Vec<PathItem>, from: usize) -> (r: Option<Value>)
    ensures
        is_found(eval_path(value@, path_view(path@), from as nat), r),
    decreases path@.len() - from, 1nat,
{
    if from >= path.len() {
        return Some(value.clone());
    }
    assert(path_view(path@)[from as int] == path@[from as int]@);
    match value {
        Value::Object(object) => eval_object_path(object, path, from),
        Value::List(items) => {
            match &path[from] {
                PathItem::Property(_) => None,
                PathItem::Wildcard => {
                    let ghost model = list_view(items@);
                    let ghost steps = path_view(path@);
                    let mut found: Vec<Value> = Vec::new();
                    let mut i: usize = 0;
                    while i < items.len()
                        invariant
                            i <= items@.len(),
                            from < path.len(),
                            model == list_view(items@),
                            steps == path_view(path@),
                            value@ == ValueView::List(model),
                            steps[from as int] == PathItemView::Wildcard,
                            eval_each(model, 0, steps, (from + 1) as nat) == match eval_each(
                                model,
                                i as nat,
                                steps,
                                (from + 1) as nat,
                            ) {
                                Some(rest) => Some(list_view(found@) + rest),
                                None => None,
                            },
                        decreases items@.len() - i,
                    {
                        let ghost done = list_view(found@);
                        assert(model[i as int] == items@[i as int]@);
                        match eval_value_path(&items[i], path, from + 1) {
                            Some(Value::List(inner)) => {
                                let ghost added = list_view(inner@);
                                let mut inner = inner;
                                found.append(&mut inner);
                                proof {
                                    assert(list_view(found@) =~= done + added);
                                    match eval_each(
                                        model,
                                        (i + 1) as nat,
                                        steps,
                                        (from + 1) as nat,
                                    ) {
                                        Some(rest) => {
                                            assert(done + (added + rest) =~= list_view(found@)
                                                + rest);
                                        },
                                        None => {},
                                    }
                                }
                            },
                            Some(other) => {
                                let ghost added = seq![other@];
                                found.push(other);
                                proof {
                                    assert(list_view(found@) =~= done + added);
                                    match eval_each(
                                        model,
                                        (i + 1) as nat,
                                        steps,
                                        (from + 1) as nat,
                                    ) {
                                        Some(rest) => {
                                            assert(done + (added + rest) =~= list_view(found@)
                                                + rest);
                                        },
                                        None => {},
                                    }
                                }
                            },
                            None => {
                                return None;
                            },
                        }
                        i += 1;
                    }
                    assert(list_view(found@) + Seq::<ValueView>::empty() =~= list_view(found@));
                    Some(Value::List(found))
                },
            }
        },
        _ => None,
    }
}

impl Response {
    /// Position of the first response to the call `result_of` that bears
    /// the method name `name`.
    pub fn find_response(&self, result_of: &str, name: MethodName) -> (r: Option<usize>)
        ensures
            match r {
                Some(i) => find_response(self@.method_responses, result_of@, name, 0) == Some(
                    i as int,
                ) && i < self.method_responses@.len(),
                None => find_response(self@.method_responses, result_of@, name, 0) is None,
            },
    {
        let ghost model = self@.method_responses;
        let mut i: usize = 0;
        while i < self.method_responses.len()
            invariant
                i <= self.method_responses@.len(),
                model == self@.method_responses,
                find_response(model, result_of@, name, 0) == find_response(
                    model,
                    result_of@,
                    name,
                    i as int,
                ),
            decreases self.method_responses@.len() - i,
        {
            let entry = &self.method_responses[i];
            assert(model[i as int] == entry@);
            if crate::codec::text::same_text(entry.id.as_str(), result_of) && entry.name == name {
                return Some(i);
            }
            i += 1;
        }
        None
    }

    /// A copy of the value that a result reference names.
    pub fn eval_result_reference(&self, reference: &ResultReference) -> (r: Option<Value>)
        ensures
            is_found(referenced(self@.method_responses, reference@), r),
    {
        let i = match self.find_response(reference.result_of.as_str(), reference.name) {
            Some(i) => i,
            None => {
                return None;
            },
        };
        assert(self@.method_responses[i as int] == self.method_responses@[i as int]@);
        match &self.method_responses[i].method {
            ResponseMethod::Get(document) => eval_object_path(document, &reference.path, 0),
            ResponseMethod::Query(document) => eval_object_path(document, &reference.path, 0),
            ResponseMethod::SetItems(response) => eval_object_path(
                &response.document(),
                &reference.path,
                0,
            ),
            ResponseMethod::Changes(document) => eval_object_path(document, &reference.path, 0),
            ResponseMethod::Copy(response) => eval_object_path(
                &response.document(),
                &reference.path,
                0,
            ),
            ResponseMethod::CopyBlob(document) => eval_object_path(document, &reference.path, 0),
            ResponseMethod::ImportEmail(response) => eval_object_path(
                &response.document(),
                &reference.path,
                0,
            ),
            ResponseMethod::ParseEmail(document) => eval_object_path(document, &reference.path, 0),
            ResponseMethod::QueryChanges(document) => eval_object_path(
                document,
                &reference.path,
                0,
            ),
            ResponseMethod::SearchSnippet(document) => eval_object_path(
                document,
                &reference.path,
                0,
            ),
            ResponseMethod::ValidateScript(document) => eval_object_path(
                document,
                &reference.path,
                0,
            ),
            ResponseMethod::Echo(value) => eval_value_path(value, &reference.path, 0),
            ResponseMethod::Error(_) => None,
        }
    }
}

/// What the error says when a creation id names nothing.
pub open spec fn unknown_alias_text() -> Seq<char> {
    "Id reference not found."@
}

/// What the error says when a result reference names nothing.
pub open spec fn failed_reference_text() -> Seq<char> {
    "Failed to evaluate result reference."@
}

/// Whether `error` reports an invalid reference in the words `text`.
pub open spec fn is_reference_error(error: MethodError, text: Seq<char>) -> bool {
    match error {
        MethodError::InvalidResultReference(said) => said@ == text,
        _ => false,
    }
}

/// A submitted value with its reference resolved: a creation id becomes the
/// id that stands under it, a result reference the value that it names.
/// Values and patches stay as they are. The error is what to say where the
/// reference names nothing.
pub open spec fn resolved_value(
    responses: Seq<ResponseEntryView>,
    created_ids: Seq<(Seq<char>, u64)>,
    value: SetValueView,
) -> Result<SetValueView, Seq<char>> {
    match value {
        SetValueView::IdReference(alias) => match alias_id(created_ids, alias) {
            Some(id) => Ok(SetValueView::Value(ValueView::Id(id))),
            None => Err(unknown_alias_text()),
        },
        SetValueView::ResultReference(reference) => match referenced(responses, reference) {
            Some(found) => Ok(SetValueView::Value(found)),
            None => Err(failed_reference_text()),
        },
        _ => Ok(value),
    }
}

/// The submitted properties of one object with every reference resolved, in
/// the same order; the error of the first reference that names nothing.
pub open spec fn resolved_changes(
    responses: Seq<ResponseEntryView>,
    created_ids: Seq<(Seq<char>, u64)>,
    changes: ChangesView,
) -> Result<ChangesView, Seq<char>>
    decreases changes.len(),
{
    if changes.len() == 0 {
        Ok(Seq::empty())
    } else {
        match resolved_value(responses, created_ids, changes[0].1) {
            Ok(value) => match resolved_changes(responses, created_ids, changes.drop_first()) {
                Ok(rest) => Ok(seq![(changes[0].0, value)] + rest),
                Err(text) => Err(text),
            },
            Err(text) => Err(text),
        }
    }
}

/// The objects of a section, each under its key, with every reference
/// resolved; the error of the first reference that names nothing.
pub open spec fn resolved_section<K>(
    responses: Seq<ResponseEntryView>,
    created_ids: Seq<(Seq<char>, u64)>,
    section: Seq<(K, ChangesView)>,
) -> Result<Seq<(K, ChangesView)>, Seq<char>>
    decreases section.len(),
{
    if section.len() == 0 {
        Ok(Seq::empty())
    } else {
        match resolved_changes(responses, created_ids, section[0].1) {
            Ok(changes) => match resolved_section(responses, created_ids, section.drop_first()) {
                Ok(rest) => Ok(seq![(section[0].0, changes)] + rest),
                Err(text) => Err(text),
            },
            Err(text) => Err(text),
        }
    }
}

/// Whether every item is an id.
pub open spec fn all_ids(items: Seq<ValueView>) -> bool {
    forall|i: int| 0 <= i < items.len() ==> (#[trigger] items[i]) is Id
}

/// The ids that the items are.
pub open spec fn ids_of(items: Seq<ValueView>) -> Seq<u64> {
    Seq::new(items.len(), |i: int| items[i]->Id_0)
}

/// A list of ids with its reference resolved: the list itself where it is
/// given outright, else the list of ids that the reference names.
pub open spec fn resolved_ids(responses: Seq<ResponseEntryView>, ids: IdsView) -> Result<
    Seq<u64>,
    Seq<char>,
> {
    match ids {
        IdsView::Value(ids) => Ok(ids),
        IdsView::Reference(reference) => match referenced(responses, reference) {
            Some(ValueView::List(items)) => if all_ids(items) {
                Ok(ids_of(items))
            } else {
                Err(failed_reference_text())
            },
            _ => Err(failed_reference_text()),
        },
    }
}

/// An optional list of ids with its reference resolved.
pub open spec fn resolved_optional_ids(
    responses: Seq<ResponseEntryView>,
    ids: Option<IdsView>,
) -> Result<Option<IdsView>, Seq<char>> {
    match ids {
        Some(ids) => match resolved_ids(responses, ids) {
            Ok(ids) => Ok(Some(IdsView::Value(ids))),
            Err(text) => Err(text),
        },
        None => Ok(None),
    }
}

/// An optional section with every reference resolved.
pub open spec fn resolved_optional_section<K>(
    responses: Seq<ResponseEntryView>,
    created_ids: Seq<(Seq<char>, u64)>,
    section: Option<Seq<(K, ChangesView)>>,
) -> Result<Option<Seq<(K, ChangesView)>>, Seq<char>> {
    match section {
        Some(section) => match resolved_section(responses, created_ids, section) {
            Ok(section) => Ok(Some(section)),
            Err(text) => Err(text),
        },
        None => Ok(None),
    }
}

/// A Set call with every reference resolved: the create section first, then
/// the update section, then the ids to destroy.
pub open spec fn resolved_set(
    responses: Seq<ResponseEntryView>,
    created_ids: Seq<(Seq<char>, u64)>,
    request: SetRequestView,
) -> Result<SetRequestView, Seq<char>> {
    match resolved_optional_section(responses, created_ids, request.create) {
        Ok(create) => match resolved_optional_section(responses, created_ids, request.update) {
            Ok(update) => match resolved_optional_ids(responses, request.destroy) {
                Ok(destroy) => Ok(SetRequestView { create, update, destroy, ..request }),
                Err(text) => Err(text),
            },
            Err(text) => Err(text),
        },
        Err(text) => Err(text),
    }
}

/// A call on one account with every reference in its arguments resolved.
pub open spec fn resolved_request(
    responses: Seq<ResponseEntryView>,
    created_ids: Seq<(Seq<char>, u64)>,
    request: MethodRequestView,
) -> Result<MethodRequestView, Seq<char>> {
    match resolved_changes(responses, created_ids, request.arguments) {
        Ok(arguments) => Ok(MethodRequestView { arguments, ..request }),
        Err(text) => Err(text),
    }
}

/// A call with every reference resolved against the responses and the
/// creation ids so far; the error of the first reference that names
/// nothing. Afterwards the call holds values only.
pub open spec fn resolved_method(
    responses: Seq<ResponseEntryView>,
    created_ids: Seq<(Seq<char>, u64)>,
    method: RequestMethodView,
) -> Result<RequestMethodView, Seq<char>> {
    match method {
        RequestMethodView::Get(request) => match resolved_optional_ids(responses, request.ids) {
            Ok(ids) => Ok(RequestMethodView::Get(GetRequestView { ids, ..request })),
            Err(text) => Err(text),
        },
        RequestMethodView::SetItems(request) => match resolved_set(
            responses,
            created_ids,
            request,
        ) {
            Ok(request) => Ok(RequestMethodView::SetItems(request)),
            Err(text) => Err(text),
        },
        RequestMethodView::Copy(request) => match resolved_section(
            responses,
            created_ids,
            request.create,
        ) {
            Ok(create) => Ok(RequestMethodView::Copy(CopyRequestView { create, ..request })),
            Err(text) => Err(text),
        },
        RequestMethodView::Changes(request) => match resolved_request(
            responses,
            created_ids,
            request,
        ) {
            Ok(request) => Ok(RequestMethodView::Changes(request)),
            Err(text) => Err(text),
        },
        RequestMethodView::CopyBlob(request) => match resolved_request(
            responses,
            created_ids,
            request,
        ) {
            Ok(request) => Ok(RequestMethodView::CopyBlob(request)),
            Err(text) => Err(text),
        },
        RequestMethodView::ImportEmail(request) => match resolved_request(
            responses,
            created_ids,
            request,
        ) {
            Ok(request) => Ok(RequestMethodView::ImportEmail(request)),
            Err(text) => Err(text),
        },
        RequestMethodView::ParseEmail(request) => match resolved_request(
            responses,
            created_ids,
            request,
        ) {
            Ok(request) => Ok(RequestMethodView::ParseEmail(request)),
            Err(text) => Err(text),
        },
        RequestMethodView::QueryChanges(request) => match resolved_request(
            responses,
            created_ids,
            request,
        ) {
            Ok(request) => Ok(RequestMethodView::QueryChanges(request)),
            Err(text) => Err(text),
        },
        RequestMethodView::SearchSnippet(request) => match resolved_request(
            responses,
            created_ids,
            request,
        ) {
            Ok(request) => Ok(RequestMethodView::SearchSnippet(request)),
            Err(text) => Err(text),
        },
        RequestMethodView::ValidateScript(request) => match resolved_request(
            responses,
            created_ids,
            request,
        ) {
            Ok(request) => Ok(RequestMethodView::ValidateScript(request)),
            Err(text) => Err(text),
        },
        RequestMethodView::Query(_) => Ok(method),
        RequestMethodView::Echo(_) => Ok(method),
        RequestMethodView::Error(_) => Ok(method),
    }
}

proof fn lemma_changes_rest(entries: Seq<(Property, SetValue)>)
    requires
        entries.len() > 0,
    ensures
        changes_view(entries.remove(0)) == changes_view(entries).drop_first(),
        changes_view(entries)[0] == (entries[0].0@, entries[0].1@),
{
    assert(changes_view(entries.remove(0)) =~= changes_view(entries).drop_first());
}

proof fn lemma_creates_rest(entries: Seq<(String, Object<SetValue>)>)
    requires
        entries.len() > 0,
    ensures
        creates_view(entries.remove(0)) == creates_view(entries).drop_first(),
        creates_view(entries)[0] == (entries[0].0@, entries[0].1@),
{
    assert(creates_view(entries.remove(0)) =~= creates_view(entries).drop_first());
}

proof fn lemma_updates_rest(entries: Seq<(Id, Object<SetValue>)>)
    requires
        entries.len() > 0,
    ensures
        updates_view(entries.remove(0)) == updates_view(entries).drop_first(),
        updates_view(entries)[0] == (entries[0].0@, entries[0].1@),
{
    assert(updates_view(entries.remove(0)) =~= updates_view(entries).drop_first());
}

fn invalid_reference(text: &str) -> (r: MethodError)
    ensures
        is_reference_error(r, text@),
{
    MethodError::InvalidResultReference(String::from_str(text))
}

impl Response {
    /// Resolves the reference that a submitted value may be.
    pub fn resolve_value(&self, value: SetValue) -> (r: Result<SetValue, MethodError>)
        ensures
            match (resolved_value(self@.method_responses, self@.created_ids, value@), r) {
                (Ok(value), Ok(got)) => got@ == value,
                (Err(text), Err(error)) => is_reference_error(error, text),
                _ => false,
            },
    {
        match value {
            SetValue::IdReference(alias) => match self.get_id(alias.as_str()) {
                Some(id) => Ok(SetValue::Value(Value::Id(id))),
                None => Err(invalid_reference("Id reference not found.")),
            },
            SetValue::ResultReference(reference) => match self.eval_result_reference(&reference) {
                Some(found) => Ok(SetValue::Value(found)),
                None => Err(invalid_reference("Failed to evaluate result reference.")),
            },
            other => Ok(other),
        }
    }

    /// Resolves every reference among the submitted properties of one
    /// object.
    pub fn resolve_changes(&self, object: Object<SetValue>) -> (r: Result<
        Object<SetValue>,
        MethodError,
    >)
        ensures
            match (resolved_changes(self@.method_responses, self@.created_ids, object@), r) {
                (Ok(changes), Ok(got)) => got@ == changes,
                (Err(text), Err(error)) => is_reference_error(error, text),
                _ => false,
            },
    {
        let ghost responses = self@.method_responses;
        let ghost created_ids = self@.created_ids;
        let mut remaining = object.properties;
        let mut resolved: Vec<(Property, SetValue)> = Vec::with_capacity(remaining.len());
        assert(changes_view(resolved@) =~= Seq::empty());
        assert(forall|rest: ChangesView| Seq::<(crate::types::property::PropertyView, SetValueView)>::empty() + rest =~= rest);
        while remaining.len() > 0
            invariant
                responses == self@.method_responses,
                created_ids == self@.created_ids,
                resolved_changes(responses, created_ids, object@) == match resolved_changes(
                    responses,
                    created_ids,
                    changes_view(remaining@),
                ) {
                    Ok(rest) => Ok(changes_view(resolved@) + rest),
                    Err(text) => Err(text),
                },
            decreases remaining@.len(),
        {
            proof {
                lemma_changes_rest(remaining@);
            }
            let ghost done = changes_view(resolved@);
            let (property, value) = remaining.remove(0);
            match self.resolve_value(value) {
                Ok(value) => {
                    let ghost entry = (property@, value@);
                    resolved.push((property, value));
                    proof {
                        assert(changes_view(resolved@) =~= done.push(entry));
                        match resolved_changes(responses, created_ids, changes_view(remaining@)) {
                            Ok(rest) => {
                                assert(done + (seq![entry] + rest) =~= changes_view(resolved@)
                                    + rest);
                            },
                            Err(_) => {},
                        }
                    }
                },
                Err(error) => {
                    return Err(error);
                },
            }
        }
        let resolved = Object { properties: resolved };
        assert(resolved@ + ChangesView::empty() =~= resolved@);
        Ok(resolved)
    }

    /// Resolves every reference in a create section.
    pub fn resolve_creates(&self, section: Vec<(String, Object<SetValue>)>) -> (r: Result<
        Vec<(String, Object<SetValue>)>,
        MethodError,
    >)
        ensures
            match (
                resolved_section(
                    self@.method_responses,
                    self@.created_ids,
                    creates_view(section@),
                ),
                r,
            ) {
                (Ok(section), Ok(got)) => creates_view(got@) == section,
                (Err(text), Err(error)) => is_reference_error(error, text),
                _ => false,
            },
    {
        let ghost responses = self@.method_responses;
        let ghost created_ids = self@.created_ids;
        let mut remaining = section;
        let mut resolved: Vec<(String, Object<SetValue>)> = Vec::with_capacity(remaining.len());
        assert(creates_view(resolved@) =~= Seq::empty());
        assert(forall|rest: Seq<(Seq<char>, ChangesView)>| Seq::<(Seq<char>, ChangesView)>::empty() + rest =~= rest);
        while remaining.len() > 0
            invariant
                responses == self@.method_responses,
                created_ids == self@.created_ids,
                resolved_section(responses, created_ids, creates_view(section@))
                    == match resolved_section(responses, created_ids, creates_view(remaining@)) {
                    Ok(rest) => Ok(creates_view(resolved@) + rest),
                    Err(text) => Err(text),
                },
            decreases remaining@.len(),
        {
            proof {
                lemma_creates_rest(remaining@);
            }
            let ghost done = creates_view(resolved@);
            let (id, object) = remaining.remove(0);
            match self.resolve_changes(object) {
                Ok(object) => {
                    let ghost entry = (id@, object@);
                    resolved.push((id, object));
                    proof {
                        assert(creates_view(resolved@) =~= done.push(entry));
                        match resolved_section(responses, created_ids, creates_view(remaining@)) {
                            Ok(rest) => {
                                assert(done + (seq![entry] + rest) =~= creates_view(resolved@)
                                    + rest);
                            },
                            Err(_) => {},
                        }
                    }
                },
                Err(error) => {
                    return Err(error);
                },
            }
        }
        assert(creates_view(resolved@) + Seq::<(Seq<char>, ChangesView)>::empty() =~= creates_view(
            resolved@,
        ));
        Ok(resolved)
    }

    /// Resolves every reference in a section whose objects stand under
    /// ids.
    pub fn resolve_updates(&self, section: Vec<(Id, Object<SetValue>)>) -> (r: Result<
        Vec<(Id, Object<SetValue>)>,
        MethodError,
    >)
        ensures
            match (
                resolved_section(
                    self@.method_responses,
                    self@.created_ids,
                    updates_view(section@),
                ),
                r,
            ) {
                (Ok(section), Ok(got)) => updates_view(got@) == section,
                (Err(text), Err(error)) => is_reference_error(error, text),
                _ => false,
            },
    {
        let ghost responses = self@.method_responses;
        let ghost created_ids = self@.created_ids;
        let mut remaining = section;
        let mut resolved: Vec<(Id, Object<SetValue>)> = Vec::with_capacity(remaining.len());
        assert(updates_view(resolved@) =~= Seq::empty());
        assert(forall|rest: Seq<(u64, ChangesView)>| Seq::<(u64, ChangesView)>::empty() + rest =~= rest);
        while remaining.len() > 0
            invariant
                responses == self@.method_responses,
                created_ids == self@.created_ids,
                resolved_section(responses, created_ids, updates_view(section@))
                    == match resolved_section(responses, created_ids, updates_view(remaining@)) {
                    Ok(rest) => Ok(updates_view(resolved@) + rest),
                    Err(text) => Err(text),
                },
            decreases remaining@.len(),
        {
            proof {
                lemma_updates_rest(remaining@);
            }
            let ghost done = updates_view(resolved@);
            let (id, object) = remaining.remove(0);
            match self.resolve_changes(object) {
                Ok(object) => {
                    let ghost entry = (id@, object@);
                    resolved.push((id, object));
                    proof {
                        assert(updates_view(resolved@) =~= done.push(entry));
                        match resolved_section(responses, created_ids, updates_view(remaining@)) {
                            Ok(rest) => {
                                assert(done + (seq![entry] + rest) =~= updates_view(resolved@)
                                    + rest);
                            },
                            Err(_) => {},
                        }
                    }
                },
                Err(error) => {
                    return Err(error);
                },
            }
        }
        assert(updates_view(resolved@) + Seq::<(u64, ChangesView)>::empty() =~= updates_view(
            resolved@,
        ));
        Ok(resolved)
    }

    /// Resolves the reference that a list of ids may be.
    pub fn resolve_ids(&self, ids: MaybeReference) -> (r: Result<Vec<Id>, MethodError>)
        ensures
            match (resolved_ids(self@.method_responses, ids@), r) {
                (Ok(ids), Ok(got)) => ids_view(got@) == ids,
                (Err(text), Err(error)) => is_reference_error(error, text),
                _ => false,
            },
    {
        match ids {
            MaybeReference::Value(ids) => Ok(ids),
            MaybeReference::Reference(reference) => match self.eval_result_reference(&reference) {
                Some(Value::List(items)) => {
                    let ghost model = list_view(items@);
                    let mut found: Vec<Id> = Vec::with_capacity(items.len());
                    let mut i: usize = 0;
                    while i < items.len()
                        invariant
                            i <= items@.len(),
                            model == list_view(items@),
                            ids@ == IdsView::Reference(reference@),
                            referenced(self@.method_responses, reference@) == Some(
                                ValueView::List(model),
                            ),
                            found@.len() == i,
                            forall|j: int|
                                0 <= j < i ==> (#[trigger] model[j]) == ValueView::Id(found@[j]@),
                        decreases items@.len() - i,
                    {
                        assert(model[i as int] == items@[i as int]@);
                        match &items[i] {
                            Value::Id(id) => {
                                found.push(*id);
                            },
                            _ => {
                                return Err(
                                    invalid_reference("Failed to evaluate result reference."),
                                );
                            },
                        }
                        i += 1;
                    }
                    assert(ids_view(found@) =~= ids_of(model));
                    Ok(found)
                },
                _ => Err(invalid_reference("Failed to evaluate result reference.")),
            },
        }
    }
}

/// Whether a resolution is what the contract asks for.
pub open spec fn is_resolution(
    wanted: Result<RequestMethodView, Seq<char>>,
    got: Result<RequestMethod, MethodError>,
) -> bool {
    match (wanted, got) {
        (Ok(method), Ok(got)) => got@ == method,
        (Err(text), Err(error)) => is_reference_error(error, text),
        _ => false,
    }
}

impl Response {
    fn resolve_optional_ids(&self, ids: Option<MaybeReference>) -> (r: Result<
        Option<MaybeReference>,
        MethodError,
    >)
        ensures
            match (
                resolved_optional_ids(
                    self@.method_responses,
                    match ids {
                        Some(ids) => Some(ids@),
                        None => None,
                    },
                ),
                r,
            ) {
                (Ok(Some(ids)), Ok(Some(got))) => got@ == ids,
                (Ok(None), Ok(None)) => true,
                (Err(text), Err(error)) => is_reference_error(error, text),
                _ => false,
            },
    {
        match ids {
            Some(ids) => match self.resolve_ids(ids) {
                Ok(ids) => Ok(Some(MaybeReference::Value(ids))),
                Err(error) => Err(error),
            },
            None => Ok(None),
        }
    }

    fn resolve_set(&self, request: SetRequest) -> (r: Result<SetRequest, MethodError>)
        ensures
            match (resolved_set(self@.method_responses, self@.created_ids, request@), r) {
                (Ok(request), Ok(got)) => got@ == request,
                (Err(text), Err(error)) => is_reference_error(error, text),
                _ => false,
            },
    {
        let SetRequest { account_id, create, update, destroy, arguments } = request;
        let create = match create {
            Some(section) => match self.resolve_creates(section) {
                Ok(section) => Some(section),
                Err(error) => {
                    return Err(error);
                },
            },
            None => None,
        };
        let update = match update {
            Some(section) => match self.resolve_updates(section) {
                Ok(section) => Some(section),
                Err(error) => {
                    return Err(error);
                },
            },
            None => None,
        };
        let destroy = match self.resolve_optional_ids(destroy) {
            Ok(destroy) => destroy,
            Err(error) => {
                return Err(error);
            },
        };
        Ok(SetRequest { account_id, create, update, destroy, arguments })
    }

    fn resolve_request(&self, request: MethodRequest) -> (r: Result<MethodRequest, MethodError>)
        ensures
            match (resolved_request(self@.method_responses, self@.created_ids, request@), r) {
                (Ok(request), Ok(got)) => got@ == request,
                (Err(text), Err(error)) => is_reference_error(error, text),
                _ => false,
            },
    {
        let MethodRequest { account_id, arguments } = request;
        match self.resolve_changes(arguments) {
            Ok(arguments) => Ok(MethodRequest { account_id, arguments }),
            Err(error) => Err(error),
        }
    }

    /// Resolves every reference of a call against the responses and the
    /// creation ids so far. The call that comes back holds values only; the
    /// error is an invalid result reference.
    pub fn resolve_references(&self, method: RequestMethod) -> (r: Result<
        RequestMethod,
        MethodError,
    >)
        ensures
            is_resolution(resolved_method(self@.method_responses, self@.created_ids, method@), r),
    {
        match method {
            RequestMethod::Get(request) => {
                let GetRequest { account_id, ids, arguments } = request;
                match self.resolve_optional_ids(ids) {
                    Ok(ids) => Ok(RequestMethod::Get(GetRequest { account_id, ids, arguments })),
                    Err(error) => Err(error),
                }
            },
            RequestMethod::SetItems(request) => match self.resolve_set(request) {
                Ok(request) => Ok(RequestMethod::SetItems(request)),
                Err(error) => Err(error),
            },
            RequestMethod::Copy(request) => {
                let CopyRequest {
                    from_account_id,
                    account_id,
                    create,
                    on_success_destroy_original,
                } = request;
                match self.resolve_updates(create) {
                    Ok(create) => Ok(
                        RequestMethod::Copy(
                            CopyRequest {
                                from_account_id,
                                account_id,
                                create,
                                on_success_destroy_original,
                            },
                        ),
                    ),
                    Err(error) => Err(error),
                }
            },
            RequestMethod::Changes(request) => match self.resolve_request(request) {
                Ok(request) => Ok(RequestMethod::Changes(request)),
                Err(error) => Err(error),
            },
            RequestMethod::CopyBlob(request) => match self.resolve_request(request) {
                Ok(request) => Ok(RequestMethod::CopyBlob(request)),
                Err(error) => Err(error),
            },
            RequestMethod::ImportEmail(request) => match self.resolve_request(request) {
                Ok(request) => Ok(RequestMethod::ImportEmail(request)),
                Err(error) => Err(error),
            },
            RequestMethod::ParseEmail(request) => match self.resolve_request(request) {
                Ok(request) => Ok(RequestMethod::ParseEmail(request)),
                Err(error) => Err(error),
            },
            RequestMethod::QueryChanges(request) => match self.resolve_request(request) {
                Ok(request) => Ok(RequestMethod::QueryChanges(request)),
                Err(error) => Err(error),
            },
            RequestMethod::SearchSnippet(request) => match self.resolve_request(request) {
                Ok(request) => Ok(RequestMethod::SearchSnippet(request)),
                Err(error) => Err(error),
            },
            RequestMethod::ValidateScript(request) => match self.resolve_request(request) {
                Ok(request) => Ok(RequestMethod::ValidateScript(request)),
                Err(error) => Err(error),
            },
            RequestMethod::Query(request) => Ok(RequestMethod::Query(request)),
            RequestMethod::Echo(value) => Ok(RequestMethod::Echo(value)),
            RequestMethod::Error(error) => Ok(RequestMethod::Error(error)),
        }
    }
}

} // verus!
