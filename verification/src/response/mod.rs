//! Responses: what the calls of a batch came to, in the order in which they
//! were completed.

use vstd::prelude::*;
use crate::error::MethodError;
use crate::error::MethodErrorView;
use crate::method::set::SetResponse;
use crate::method::set::SetResponseView;
use crate::object::Object;
use crate::object::ObjectView;
use crate::request::Call;
use crate::request::method::MethodName;
use crate::types::id::Id;
use crate::types::property::EXTENSION_TAG;
use crate::types::property::Property;
use crate::types::property::PropertyView;
use crate::types::value::Value;
use crate::types::value::ValueView;

pub mod references;

verus! {

/// What one call came to. A response that is not of a kind of its own
/// holds its result document.
#[derive(Clone, Debug, PartialEq, Eq)]
pub enum ResponseMethod {
    Get(Object<Value>),
    Query(Object<Value>),
    /// The response to a `set`.
    SetItems(SetResponse),
    Changes(Object<Value>),
    Copy(SetResponse),
    CopyBlob(Object<Value>),
    ImportEmail(SetResponse),
    ParseEmail(Object<Value>),
    QueryChanges(Object<Value>),
    SearchSnippet(Object<Value>),
    ValidateScript(Object<Value>),
    Echo(Value),
    Error(MethodError),
}

/// The response to a batch.
#[derive(Clone, Debug, PartialEq, Eq)]
pub struct Response {
    /// One entry for every call that was completed, follow-up calls
    /// included, in the order of completion.
    pub method_responses: Vec<Call<ResponseMethod>>,
    /// The state of the client's session when the request came in.
    pub session_state: u32,
    /// The ids given to created objects, under the creation ids that the
    /// client chose. Entries are only ever added; of two entries under one
    /// creation id the later one counts.
    pub created_ids: Vec<(String, Id)>,
}

pub enum ResponseMethodView {
    Get(ObjectView),
    Query(ObjectView),
    SetItems(SetResponseView),
    Changes(ObjectView),
    Copy(SetResponseView),
    CopyBlob(ObjectView),
    ImportEmail(SetResponseView),
    ParseEmail(ObjectView),
    QueryChanges(ObjectView),
    SearchSnippet(ObjectView),
    ValidateScript(ObjectView),
    Echo(ValueView),
    Error(MethodErrorView),
}

impl View for ResponseMethod {
    type V = ResponseMethodView;

    open spec fn view(&self) -> ResponseMethodView {
        match self {
            ResponseMethod::Get(document) => ResponseMethodView::Get(document@),
            ResponseMethod::Query(document) => ResponseMethodView::Query(document@),
            ResponseMethod::SetItems(response) => ResponseMethodView::SetItems(response@),
            ResponseMethod::Changes(document) => ResponseMethodView::Changes(document@),
            ResponseMethod::Copy(response) => ResponseMethodView::Copy(response@),
            ResponseMethod::CopyBlob(document) => ResponseMethodView::CopyBlob(document@),
            ResponseMethod::ImportEmail(response) => ResponseMethodView::ImportEmail(response@),
            ResponseMethod::ParseEmail(document) => ResponseMethodView::ParseEmail(document@),
            ResponseMethod::QueryChanges(document) => ResponseMethodView::QueryChanges(document@),
            ResponseMethod::SearchSnippet(document) => ResponseMethodView::SearchSnippet(document@),
            ResponseMethod::ValidateScript(document) => ResponseMethodView::ValidateScript(
                document@,
            ),
            ResponseMethod::Echo(value) => ResponseMethodView::Echo(value@),
            ResponseMethod::Error(error) => ResponseMethodView::Error(error@),
        }
    }
}

/// One entry of a response as contracts see it.
pub struct ResponseEntryView {
    pub id: Seq<char>,
    pub name: MethodName,
    pub method: ResponseMethodView,
}

impl View for Call<ResponseMethod> {
    type V = ResponseEntryView;

    open spec fn view(&self) -> ResponseEntryView {
        ResponseEntryView { id: self.id@, name: self.name, method: self.method@ }
    }
}

/// The entry that reports the failure of the call `id`.
pub open spec fn error_entry(id: Seq<char>, error: MethodErrorView) -> ResponseEntryView {
    ResponseEntryView {
        id,
        name: MethodName::spec_error(),
        method: ResponseMethodView::Error(error),
    }
}

/// The entries of a response as contracts see them, in order.
pub open spec fn responses_view(responses: Seq<Call<ResponseMethod>>) -> Seq<ResponseEntryView> {
    Seq::new(responses.len(), |i: int| responses[i]@)
}

/// The creation ids as contracts see them, in the order in which they were
/// added.
pub open spec fn created_ids_view(created_ids: Seq<(String, Id)>) -> Seq<(Seq<char>, u64)> {
    Seq::new(created_ids.len(), |i: int| (created_ids[i].0@, created_ids[i].1@))
}

/// A response as contracts see it.
pub struct ResponseView {
    pub method_responses: Seq<ResponseEntryView>,
    pub session_state: u32,
    pub created_ids: Seq<(Seq<char>, u64)>,
}

impl View for Response {
    type V = ResponseView;

    open spec fn view(&self) -> ResponseView {
        ResponseView {
            method_responses: responses_view(self.method_responses@),
            session_state: self.session_state,
            created_ids: created_ids_view(self.created_ids@),
        }
    }
}

/// The id that stands under `alias`: that of the last entry under it.
pub open spec fn alias_id(created_ids: Seq<(Seq<char>, u64)>, alias: Seq<char>) -> Option<u64>
    decreases created_ids.len(),
{
    if created_ids.len() == 0 {
        None
    } else if created_ids.last().0 == alias {
        Some(created_ids.last().1)
    } else {
        alias_id(created_ids.drop_last(), alias)
    }
}

/// The created objects as the entries of an object: each under its creation
/// id as an extension property.
pub open spec fn created_entries(created: Seq<(Seq<char>, ObjectView)>) -> ObjectView {
    Seq::new(
        created.len(),
        |i: int|
            (
                PropertyView { tag: EXTENSION_TAG, name: created[i].0 },
                ValueView::Object(created[i].1),
            ),
    )
}

/// Ids as a list of values.
pub open spec fn id_values(ids: Seq<u64>) -> Seq<ValueView> {
    Seq::new(ids.len(), |i: int| ValueView::Id(ids[i]))
}

/// The ids of the updated objects.
pub open spec fn updated_ids(updated: Seq<(u64, Option<ObjectView>)>) -> Seq<u64> {
    Seq::new(updated.len(), |i: int| updated[i].0)
}

/// The result document of a Set response: what was created, by creation
/// id, and the ids of what was updated and of what was destroyed.
pub open spec fn set_document(response: SetResponseView) -> ObjectView {
    seq![
        (Property::Created@, ValueView::Object(created_entries(response.created))),
        (Property::Updated@, ValueView::List(id_values(updated_ids(response.updated)))),
        (Property::Destroyed@, ValueView::List(id_values(response.destroyed))),
    ]
}

/// The result that a path into a response starts from; a failed call has
/// none.
pub open spec fn result_value(method: ResponseMethodView) -> Option<ValueView> {
    match method {
        ResponseMethodView::Get(document) => Some(ValueView::Object(document)),
        ResponseMethodView::Query(document) => Some(ValueView::Object(document)),
        ResponseMethodView::SetItems(response) => Some(ValueView::Object(set_document(response))),
        ResponseMethodView::Changes(document) => Some(ValueView::Object(document)),
        ResponseMethodView::Copy(response) => Some(ValueView::Object(set_document(response))),
        ResponseMethodView::CopyBlob(document) => Some(ValueView::Object(document)),
        ResponseMethodView::ImportEmail(response) => Some(
            ValueView::Object(set_document(response)),
        ),
        ResponseMethodView::ParseEmail(document) => Some(ValueView::Object(document)),
        ResponseMethodView::QueryChanges(document) => Some(ValueView::Object(document)),
        ResponseMethodView::SearchSnippet(document) => Some(ValueView::Object(document)),
        ResponseMethodView::ValidateScript(document) => Some(ValueView::Object(document)),
        ResponseMethodView::Echo(value) => Some(value),
        ResponseMethodView::Error(_) => None,
    }
}

impl SetResponse {
    /// The result document of the response.
    pub fn document(&self) -> (r: Object<Value>)
        ensures
            r@ == set_document(self@),
    {
        let mut created: Vec<(Property, Value)> = Vec::new();
        let mut i: usize = 0;
        while i < self.created.len()
            invariant
                i <= self.created@.len(),
                created@.len() == i,
                forall|j: int|
                    0 <= j < i ==> (#[trigger] created@[j]).0@ == (PropertyView {
                        tag: EXTENSION_TAG,
                        name: self.created@[j].0@,
                    }) && created@[j].1@ == ValueView::Object(self.created@[j].1@),
            decreases self.created@.len() - i,
        {
            let entry = &self.created[i];
            created.push((Property::Extension(entry.0.clone()), Value::Object(entry.1.duplicate())));
            i += 1;
        }
        let created = Object { properties: created };
        assert(created@ =~= created_entries(self@.created));

        let mut updated: Vec<Value> = Vec::new();
        let mut i: usize = 0;
        while i < self.updated.len()
            invariant
                i <= self.updated@.len(),
                updated@.len() == i,
                forall|j: int| 0 <= j < i ==> (#[trigger] updated@[j])@ == ValueView::Id(self.updated@[j].0@),
            decreases self.updated@.len() - i,
        {
            updated.push(Value::Id(self.updated[i].0));
            i += 1;
        }
        assert(crate::types::value::list_view(updated@) =~= id_values(updated_ids(self@.updated)));

        let mut destroyed: Vec<Value> = Vec::new();
        let mut i: usize = 0;
        while i < self.destroyed.len()
            invariant
                i <= self.destroyed@.len(),
                destroyed@.len() == i,
                forall|j: int| 0 <= j < i ==> (#[trigger] destroyed@[j])@ == ValueView::Id(self.destroyed@[j]@),
            decreases self.destroyed@.len() - i,
        {
            destroyed.push(Value::Id(self.destroyed[i]));
            i += 1;
        }
        assert(crate::types::value::list_view(destroyed@) =~= id_values(self@.destroyed));

        let document = Object::with_capacity(3).with_property(
            Property::Created,
            Value::Object(created),
        ).with_property(Property::Updated, Value::List(updated)).with_property(
            Property::Destroyed,
            Value::List(destroyed),
        );
        assert(document@ =~= set_document(self@));
        document
    }
}

impl Response {
    /// An empty response for a session in state `session_state`, with the
    /// creation ids that the client sent along and room for `capacity`
    /// entries.
    pub fn new(session_state: u32, created_ids: Vec<(String, Id)>, capacity: usize) -> (r: Response)
        ensures
            r@ == (ResponseView {
                method_responses: Seq::empty(),
                session_state,
                created_ids: created_ids_view(created_ids@),
            }),
    {
        let r = Response {
            method_responses: Vec::with_capacity(capacity),
            session_state,
            created_ids,
        };
        assert(r@.method_responses =~= Seq::empty());
        r
    }

    /// Adds the response to the call `id`.
    pub fn push_response(&mut self, id: String, name: MethodName, method: ResponseMethod)
        ensures
            final(self)@ == (ResponseView {
                method_responses: old(self)@.method_responses.push(
                    ResponseEntryView { id: id@, name, method: method@ },
                ),
                ..old(self)@
            }),
    {
        self.method_responses.push(Call { id, name, method });
        assert(self@.method_responses =~= old(self)@.method_responses.push(
            ResponseEntryView { id: id@, name, method: method@ },
        ));
    }

    /// Adds an error in place of the response to the call `id`.
    pub fn push_error(&mut self, id: String, error: MethodError)
        ensures
            final(self)@ == (ResponseView {
                method_responses: old(self)@.method_responses.push(error_entry(id@, error@)),
                ..old(self)@
            }),
    {
        self.push_response(id, MethodName::error(), ResponseMethod::Error(error));
    }

    /// Records that the object created as `alias` was given the id `id`.
    pub fn push_created_id(&mut self, alias: String, id: Id)
        ensures
            final(self)@ == (ResponseView {
                created_ids: old(self)@.created_ids.push((alias@, id@)),
                ..old(self)@
            }),
    {
        self.created_ids.push((alias, id));
        assert(self@.created_ids =~= old(self)@.created_ids.push((alias@, id@)));
    }

    /// The id that stands under `alias`, if any.
    pub fn get_id(&self, alias: &str) -> (r: Option<Id>)
        ensures
            match (alias_id(self@.created_ids, alias@), r) {
                (Some(id), Some(got)) => got@ == id,
                (None, None) => true,
                _ => false,
            },
    {
        let ghost model = self@.created_ids;
        let mut i: usize = self.created_ids.len();
        assert(model.subrange(0, i as int) =~= model);
        while i > 0
            invariant
                i <= self.created_ids@.len(),
                model == self@.created_ids,
                alias_id(model, alias@) == alias_id(model.subrange(0, i as int), alias@),
            decreases i,
        {
            let ghost prefix = model.subrange(0, i as int);
            assert(prefix.last() == model[i - 1]);
            assert(prefix.drop_last() =~= model.subrange(0, i - 1));
            i -= 1;
            if crate::codec::text::same_text(self.created_ids[i].0.as_str(), alias) {
                return Some(self.created_ids[i].1);
            }
        }
        None
    }
}

} // verus!
