//! Set: create, update and destroy objects of one data type.

use vstd::prelude::*;
use crate::error::MethodError;
use crate::error::SetError;
use crate::error::SetErrorType;
use crate::error::SetErrorView;
use crate::object::lookup;
use crate::object::Object;
use crate::object::ObjectView;
use crate::request::reference::IdsView;
use crate::request::reference::ids_view;
use crate::request::reference::MaybeReference;
use crate::types::id::Id;
use crate::types::property::Property;
use crate::types::property::PropertyView;
use crate::types::state::StateChange;
use crate::types::value::MaybePatchValue;
use crate::types::value::MaybePatchValueView;
use crate::types::value::SetValue;
use crate::types::value::SetValueView;
use crate::types::value::Value;
use crate::types::value::ValueView;

verus! {

/// The data type that a Set call works on.
#[derive(Clone, Copy, Debug, PartialEq, Eq, Structural)]
pub enum RequestArguments {
    Email,
    Mailbox,
    Identity,
    EmailSubmission,
    PushSubscription,
    SieveScript,
    VacationResponse,
}

/// The submitted properties of one object as contracts see them, in order.
pub type ChangesView = Seq<(PropertyView, SetValueView)>;

/// The submitted properties of one object as contracts see them.
pub open spec fn changes_view(entries: Seq<(Property, SetValue)>) -> ChangesView {
    Seq::new(entries.len(), |i: int| (entries[i].0@, entries[i].1@))
}

impl View for Object<SetValue> {
    type V = ChangesView;

    open spec fn view(&self) -> ChangesView {
        changes_view(self.properties@)
    }
}

/// The objects to create, each under the creation id that the client chose.
pub open spec fn creates_view(creates: Seq<(String, Object<SetValue>)>) -> Seq<
    (Seq<char>, ChangesView),
> {
    Seq::new(creates.len(), |i: int| (creates[i].0@, creates[i].1@))
}

/// The objects to update, each under its id.
pub open spec fn updates_view(updates: Seq<(Id, Object<SetValue>)>) -> Seq<(u64, ChangesView)> {
    Seq::new(updates.len(), |i: int| (updates[i].0@, updates[i].1@))
}

/// A Set call: three sections, worked through in the order create, update,
/// destroy.
#[derive(Clone, Debug, PartialEq, Eq)]
pub struct SetRequest {
    pub account_id: Id,
    pub create: Option<Vec<(String, Object<SetValue>)>>,
    pub update: Option<Vec<(Id, Object<SetValue>)>>,
    pub destroy: Option<MaybeReference>,
    pub arguments: RequestArguments,
}

pub struct SetRequestView {
    pub account_id: u64,
    pub create: Option<Seq<(Seq<char>, ChangesView)>>,
    pub update: Option<Seq<(u64, ChangesView)>>,
    pub destroy: Option<IdsView>,
    pub arguments: RequestArguments,
}

impl View for SetRequest {
    type V = SetRequestView;

    open spec fn view(&self) -> SetRequestView {
        SetRequestView {
            account_id: self.account_id@,
            create: match self.create {
                Some(create) => Some(creates_view(create@)),
                None => None,
            },
            update: match self.update {
                Some(update) => Some(updates_view(update@)),
                None => None,
            },
            destroy: match self.destroy {
                Some(destroy) => Some(destroy@),
                None => None,
            },
            arguments: self.arguments,
        }
    }
}

impl SetRequest {
    /// Number of objects that the call names in its three sections. A
    /// destroy section that is still a reference counts as none.
    pub open spec fn spec_len(&self) -> nat {
        (match self.create {
            Some(create) => create@.len(),
            None => 0,
        }) + (match self.update {
            Some(update) => update@.len(),
            None => 0,
        }) + (match self.destroy {
            Some(MaybeReference::Value(ids)) => ids@.len(),
            _ => 0,
        })
    }

    /// Whether the call names more than `max_objects` objects.
    pub fn exceeds(&self, max_objects: usize) -> (r: bool)
        ensures
            r == (self.spec_len() > max_objects),
    {
        let creates: usize = match &self.create {
            Some(create) => create.len(),
            None => 0,
        };
        let updates: usize = match &self.update {
            Some(update) => update.len(),
            None => 0,
        };
        let destroys: usize = match &self.destroy {
            Some(MaybeReference::Value(ids)) => ids.len(),
            _ => 0,
        };
        creates > max_objects || updates > max_objects - creates || destroys > max_objects - creates
            - updates
    }

    /// Takes the create section out of the call; none is an empty one.
    pub fn unwrap_create(&mut self) -> (r: Vec<(String, Object<SetValue>)>)
        ensures
            r@ == match old(self).create {
                Some(create) => create@,
                None => Seq::empty(),
            },
            final(self).create is None,
            final(self).account_id == old(self).account_id,
            final(self).update == old(self).update,
            final(self).destroy == old(self).destroy,
            final(self).arguments == old(self).arguments,
    {
        match self.create.take() {
            Some(create) => create,
            None => Vec::new(),
        }
    }

    /// Takes the update section out of the call; none is an empty one.
    pub fn unwrap_update(&mut self) -> (r: Vec<(Id, Object<SetValue>)>)
        ensures
            r@ == match old(self).update {
                Some(update) => update@,
                None => Seq::empty(),
            },
            final(self).update is None,
            final(self).account_id == old(self).account_id,
            final(self).create == old(self).create,
            final(self).destroy == old(self).destroy,
            final(self).arguments == old(self).arguments,
    {
        match self.update.take() {
            Some(update) => update,
            None => Vec::new(),
        }
    }

    /// Takes the destroy section out of the call. None, or one that is
    /// still a reference, is an empty one.
    pub fn unwrap_destroy(&mut self) -> (r: Vec<Id>)
        ensures
            r@ == match old(self).destroy {
                Some(MaybeReference::Value(ids)) => ids@,
                _ => Seq::empty(),
            },
            final(self).destroy is None,
            final(self).account_id == old(self).account_id,
            final(self).create == old(self).create,
            final(self).update == old(self).update,
            final(self).arguments == old(self).arguments,
    {
        match self.destroy.take() {
            Some(MaybeReference::Value(ids)) => ids,
            _ => Vec::new(),
        }
    }
}

/// The response to a Set call: what was done, and what was rejected and
/// why, section by section.
#[derive(Clone, Debug, PartialEq, Eq)]
pub struct SetResponse {
    pub account_id: Id,
    pub created: Vec<(String, Object<Value>)>,
    pub updated: Vec<(Id, Option<Object<Value>>)>,
    pub destroyed: Vec<Id>,
    pub not_created: Vec<(String, SetError)>,
    pub not_updated: Vec<(Id, SetError)>,
    pub not_destroyed: Vec<(Id, SetError)>,
    pub state_change: Option<StateChange>,
}

/// A Set response as contracts see it.
pub struct SetResponseView {
    pub account_id: u64,
    pub created: Seq<(Seq<char>, ObjectView)>,
    pub updated: Seq<(u64, Option<ObjectView>)>,
    pub destroyed: Seq<u64>,
    pub not_created: Seq<(Seq<char>, SetErrorView)>,
    pub not_updated: Seq<(u64, SetErrorView)>,
    pub not_destroyed: Seq<(u64, SetErrorView)>,
    pub state_change: Option<StateChange>,
}

pub open spec fn created_view(created: Seq<(String, Object<Value>)>) -> Seq<(Seq<char>, ObjectView)> {
    Seq::new(created.len(), |i: int| (created[i].0@, created[i].1@))
}

/// The properties that the server changed, if any, as contracts see them.
pub open spec fn changed_view(changed: Option<Object<Value>>) -> Option<ObjectView> {
    match changed {
        Some(object) => Some(object@),
        None => None,
    }
}

pub open spec fn updated_view(updated: Seq<(Id, Option<Object<Value>>)>) -> Seq<
    (u64, Option<ObjectView>),
> {
    Seq::new(
        updated.len(),
        |i: int| (updated[i].0@, changed_view(updated[i].1)),
    )
}

pub open spec fn not_created_view(rejected: Seq<(String, SetError)>) -> Seq<
    (Seq<char>, SetErrorView),
> {
    Seq::new(rejected.len(), |i: int| (rejected[i].0@, rejected[i].1@))
}

pub open spec fn rejected_view(rejected: Seq<(Id, SetError)>) -> Seq<(u64, SetErrorView)> {
    Seq::new(rejected.len(), |i: int| (rejected[i].0@, rejected[i].1@))
}

impl View for SetResponse {
    type V = SetResponseView;

    open spec fn view(&self) -> SetResponseView {
        SetResponseView {
            account_id: self.account_id@,
            created: created_view(self.created@),
            updated: updated_view(self.updated@),
            destroyed: ids_view(self.destroyed@),
            not_created: not_created_view(self.not_created@),
            not_updated: rejected_view(self.not_updated@),
            not_destroyed: rejected_view(self.not_destroyed@),
            state_change: self.state_change,
        }
    }
}

/// Index of the first object created under `alias`.
pub open spec fn created_position(
    created: Seq<(Seq<char>, ObjectView)>,
    alias: Seq<char>,
    from: int,
) -> Option<int>
    decreases created.len() - from,
{
    if from < 0 || from >= created.len() {
        None
    } else if created[from].0 == alias {
        Some(from)
    } else {
        created_position(created, alias, from + 1)
    }
}

/// The id of the first object created under `alias`, if there is one and
/// it has an id.
pub open spec fn created_id(created: Seq<(Seq<char>, ObjectView)>, alias: Seq<char>) -> Option<u64> {
    match created_position(created, alias, 0) {
        Some(i) => match lookup(created[i].1, Property::Id@) {
            ValueView::Id(id) => Some(id),
            _ => None,
        },
        None => None,
    }
}

/// The rejection of a reference to a creation id that names nothing.
pub open spec fn unknown_alias() -> SetErrorView {
    SetErrorView {
        type_: SetErrorType::NotFound,
        description: Some("Id reference not found."@),
        properties: None,
    }
}

/// The rejection of a reference into the results of another call, which
/// nothing inside a Set call can resolve.
pub open spec fn unresolved_reference() -> SetErrorView {
    SetErrorView {
        type_: SetErrorType::NotFound,
        description: Some("Result reference could not be resolved."@),
        properties: None,
    }
}

/// A submitted value with its reference resolved against the objects that
/// the same Set call has created so far.
pub open spec fn resolved_in_set(created: Seq<(Seq<char>, ObjectView)>, value: SetValueView) -> Result<
    MaybePatchValueView,
    SetErrorView,
> {
    match value {
        SetValueView::Value(value) => Ok(MaybePatchValueView::Value(value)),
        SetValueView::Patch(patch) => Ok(MaybePatchValueView::Patch(patch)),
        SetValueView::IdReference(alias) => match created_id(created, alias) {
            Some(id) => Ok(MaybePatchValueView::Value(ValueView::Id(id))),
            None => Err(unknown_alias()),
        },
        SetValueView::ResultReference(_) => Err(unresolved_reference()),
    }
}

impl SetResponseView {
    /// Whether anything was created, updated or destroyed.
    pub open spec fn has_changes(self) -> bool {
        self.created.len() > 0 || self.updated.len() > 0 || self.destroyed.len() > 0
    }

    /// A response that reports nothing yet.
    pub open spec fn empty(account_id: u64) -> SetResponseView {
        SetResponseView {
            account_id,
            created: Seq::empty(),
            updated: Seq::empty(),
            destroyed: Seq::empty(),
            not_created: Seq::empty(),
            not_updated: Seq::empty(),
            not_destroyed: Seq::empty(),
            state_change: None,
        }
    }

    /// The object that reports a creation: its id and nothing else.
    pub open spec fn created_object(id: u64) -> ObjectView {
        seq![(Property::Id@, ValueView::Id(id))]
    }
}

impl SetResponse {
    /// An empty response to `request`; no response at all where the request
    /// names more than `max_objects` objects.
    pub fn from_request(request: &SetRequest, max_objects: usize) -> (r: Result<
        SetResponse,
        MethodError,
    >)
        ensures
            match r {
                Ok(response) => request.spec_len() <= max_objects && response@
                    == SetResponseView::empty(request.account_id@),
                Err(error) => request.spec_len() > max_objects && error
                    == MethodError::RequestTooLarge,
            },
    {
        if request.exceeds(max_objects) {
            Err(MethodError::RequestTooLarge)
        } else {
            let response = SetResponse {
                account_id: request.account_id,
                created: Vec::new(),
                updated: Vec::new(),
                destroyed: Vec::new(),
                not_created: Vec::new(),
                not_updated: Vec::new(),
                not_destroyed: Vec::new(),
                state_change: None,
            };
            assert(response@.created =~= Seq::empty());
            assert(response@.updated =~= Seq::empty());
            assert(response@.destroyed =~= Seq::empty());
            assert(response@.not_created =~= Seq::empty());
            assert(response@.not_updated =~= Seq::empty());
            assert(response@.not_destroyed =~= Seq::empty());
            Ok(response)
        }
    }

    /// Reports the creation of the object submitted as `id`, stored as
    /// document `document_id`.
    pub fn created(&mut self, id: String, document_id: u32)
        ensures
            final(self)@ == (SetResponseView {
                created: old(self)@.created.push(
                    (id@, SetResponseView::created_object(document_id as u64)),
                ),
                ..old(self)@
            }),
    {
        let object = Object::with_capacity(1).with_property(
            Property::Id,
            Value::Id(Id::new(document_id as u64)),
        );
        assert(object@ =~= SetResponseView::created_object(document_id as u64));
        self.created.push((id, object));
        assert(created_view(self.created@) =~= old(self)@.created.push(
            (id@, SetResponseView::created_object(document_id as u64)),
        ));
    }

    /// Reports that the object `id` was updated, with the properties that
    /// the server changed on its own, if any.
    pub fn updated(&mut self, id: Id, changed: Option<Object<Value>>)
        ensures
            final(self)@ == (SetResponseView {
                updated: old(self)@.updated.push((id@, changed_view(changed))),
                ..old(self)@
            }),
    {
        let ghost entry = (id@, changed_view(changed));
        self.updated.push((id, changed));
        assert(updated_view(self.updated@) =~= old(self)@.updated.push(entry));
    }

    /// Reports that the object `id` was destroyed.
    pub fn destroyed(&mut self, id: Id)
        ensures
            final(self)@ == (SetResponseView {
                destroyed: old(self)@.destroyed.push(id@),
                ..old(self)@
            }),
    {
        self.destroyed.push(id);
        assert(ids_view(self.destroyed@) =~= old(self)@.destroyed.push(id@));
    }

    /// Reports that the create submitted as `id` was rejected.
    pub fn not_created(&mut self, id: String, error: SetError)
        ensures
            final(self)@ == (SetResponseView {
                not_created: old(self)@.not_created.push((id@, error@)),
                ..old(self)@
            }),
    {
        self.not_created.push((id, error));
        assert(not_created_view(self.not_created@) =~= old(self)@.not_created.push(
            (id@, error@),
        ));
    }

    /// Reports that the update of `id` was rejected.
    pub fn not_updated(&mut self, id: Id, error: SetError)
        ensures
            final(self)@ == (SetResponseView {
                not_updated: old(self)@.not_updated.push((id@, error@)),
                ..old(self)@
            }),
    {
        self.not_updated.push((id, error));
        assert(rejected_view(self.not_updated@) =~= old(self)@.not_updated.push((id@, error@)));
    }

    /// Reports that the destroy of `id` was rejected.
    pub fn not_destroyed(&mut self, id: Id, error: SetError)
        ensures
            final(self)@ == (SetResponseView {
                not_destroyed: old(self)@.not_destroyed.push((id@, error@)),
                ..old(self)@
            }),
    {
        self.not_destroyed.push((id, error));
        assert(rejected_view(self.not_destroyed@) =~= old(self)@.not_destroyed.push(
            (id@, error@),
        ));
    }

    /// Whether anything was created, updated or destroyed.
    pub fn has_changes(&self) -> (r: bool)
        ensures
            r == self@.has_changes(),
    {
        self.created.len() > 0 || self.updated.len() > 0 || self.destroyed.len() > 0
    }

    /// The id of the first object created under `alias`, if there is one
    /// and it has an id.
    pub fn get_id(&self, alias: &str) -> (r: Option<Id>)
        ensures
            match (created_id(self@.created, alias@), r) {
                (Some(id), Some(got)) => got@ == id,
                (None, None) => true,
                _ => false,
            },
    {
        let ghost model = created_view(self.created@);
        let mut i: usize = 0;
        while i < self.created.len()
            invariant
                i <= self.created@.len(),
                model == created_view(self.created@),
                created_position(model, alias@, 0) == created_position(model, alias@, i as int),
            decreases self.created@.len() - i,
        {
            if crate::codec::text::same_text(self.created[i].0.as_str(), alias) {
                return match self.created[i].1.get(&Property::Id) {
                    Value::Id(id) => Some(*id),
                    _ => None,
                };
            }
            i += 1;
        }
        None
    }

    /// Resolves the reference that a submitted value may be, against the
    /// objects that this response reports as created.
    pub fn eval_object_references(&self, value: SetValue) -> (r: Result<MaybePatchValue, SetError>)
        ensures
            match (resolved_in_set(self@.created, value@), r) {
                (Ok(resolved), Ok(got)) => got@ == resolved,
                (Err(error), Err(got)) => got@ == error,
                _ => false,
            },
    {
        match value {
            SetValue::Value(value) => Ok(MaybePatchValue::Value(value)),
            SetValue::Patch(patch) => Ok(MaybePatchValue::Patch(patch)),
            SetValue::IdReference(alias) => match self.get_id(alias.as_str()) {
                Some(id) => Ok(MaybePatchValue::Value(Value::Id(id))),
                None => Err(SetError::not_found().with_description("Id reference not found.")),
            },
            SetValue::ResultReference(_) => Err(
                SetError::not_found().with_description("Result reference could not be resolved."),
            ),
        }
    }
}

} // verus!
