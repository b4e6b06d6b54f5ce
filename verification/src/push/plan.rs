//! What becomes of one submitted create or update of a push subscription.

use vstd::prelude::*;
use crate::error::properties_view;
use crate::error::SetError;
use crate::error::SetErrorType;
use crate::error::SetErrorView;
use crate::method::set::ChangesView;
use crate::method::set::changes_view;
use crate::method::set::resolved_in_set;
use crate::method::set::SetResponse;
use crate::object::contains_key;
use crate::object::Object;
use crate::object::ObjectView;
use crate::object::without;
use crate::object::with_set;
use crate::push::validate::expiry_limit;
use crate::push::validate::latest_expiry;
use crate::push::validate::push_value_verdict;
use crate::push::validate::validate_push_value_at;
use crate::types::date::UTCDate;
use crate::types::property::Property;
use crate::types::property::PropertyView;
use crate::types::value::SetValue;
use crate::types::value::Value;
use crate::types::value::ValueView;

verus! {

/// What one submitted property comes to, on a create (`current` is nothing)
/// or on an update (`current` is the subscription as changed so far): its
/// reference is resolved, then the policy is applied.
pub open spec fn submitted_value(
    property: PropertyView,
    value: crate::types::value::SetValueView,
    created: Seq<(Seq<char>, ObjectView)>,
    current: Option<ObjectView>,
    now: u64,
) -> Result<ValueView, SetErrorView> {
    match resolved_in_set(created, value) {
        Ok(resolved) => push_value_verdict(property, resolved, current, now),
        Err(error) => Err(error),
    }
}

/// The new subscription after the submitted properties are applied to
/// `push` in order: a `Null` outcome is passed over, any other value is set.
/// The first rejection ends it.
pub open spec fn created_with(
    changes: ChangesView,
    push: ObjectView,
    created: Seq<(Seq<char>, ObjectView)>,
    now: u64,
) -> Result<ObjectView, SetErrorView>
    decreases changes.len(),
{
    if changes.len() == 0 {
        Ok(push)
    } else {
        match submitted_value(changes[0].0, changes[0].1, created, None, now) {
            Ok(ValueView::Null) => created_with(changes.drop_first(), push, created, now),
            Ok(value) => created_with(
                changes.drop_first(),
                with_set(push, changes[0].0, value),
                created,
                now,
            ),
            Err(error) => Err(error),
        }
    }
}

/// The stored subscription after the submitted properties are applied to
/// `push` in order: a `Null` outcome removes the property, any other value
/// is set. Each property is judged against the subscription as the
/// properties before it left it. The first rejection ends it.
pub open spec fn updated_with(
    changes: ChangesView,
    push: ObjectView,
    created: Seq<(Seq<char>, ObjectView)>,
    now: u64,
) -> Result<ObjectView, SetErrorView>
    decreases changes.len(),
{
    if changes.len() == 0 {
        Ok(push)
    } else {
        match submitted_value(changes[0].0, changes[0].1, created, Some(push), now) {
            Ok(ValueView::Null) => updated_with(
                changes.drop_first(),
                without(push, changes[0].0),
                created,
                now,
            ),
            Ok(value) => updated_with(
                changes.drop_first(),
                with_set(push, changes[0].0, value),
                created,
                now,
            ),
            Err(error) => Err(error),
        }
    }
}

/// The rejection of a create when the account has as many subscriptions as
/// it may.
pub open spec fn too_many_subscriptions() -> SetErrorView {
    SetErrorView {
        type_: SetErrorType::Forbidden,
        description: Some(
            "There are too many subscriptions, please delete some before adding a new one."@,
        ),
        properties: None,
    }
}

/// The rejection of a create that lacks the device or the URL.
pub open spec fn missing_required() -> SetErrorView {
    SetErrorView {
        type_: SetErrorType::InvalidProperties,
        description: Some("Missing required properties"@),
        properties: Some(seq![Property::DeviceClientId@, Property::Url@]),
    }
}

/// `push` with an expiry: its own, or the latest allowed if it has none.
pub open spec fn with_expiry(push: ObjectView, now: u64) -> ObjectView {
    if contains_key(push, Property::Expires@) {
        push
    } else {
        push.push((Property::Expires@, ValueView::Date(expiry_limit(now))))
    }
}

/// The subscription that a create comes to, before it is given its
/// verification code. `existing` is the number of subscriptions that the
/// account has, `max_total` the number it may have.
///
/// The create is rejected if the account is at its limit; else if one of
/// its properties is rejected; else if it names no device or no URL.
/// Otherwise the subscription holds the accepted properties, and an expiry
/// of seven days from `now` if none was submitted.
pub open spec fn subscription_to_create(
    changes: ChangesView,
    created: Seq<(Seq<char>, ObjectView)>,
    existing: nat,
    max_total: nat,
    now: u64,
) -> Result<ObjectView, SetErrorView> {
    if existing >= max_total {
        Err(too_many_subscriptions())
    } else {
        match created_with(changes, ObjectView::empty(), created, now) {
            Ok(push) => if !contains_key(push, Property::DeviceClientId@) || !contains_key(
                push,
                Property::Url@,
            ) {
                Err(missing_required())
            } else {
                Ok(with_expiry(push, now))
            },
            Err(error) => Err(error),
        }
    }
}

/// `push` with `code` as its verification code, stored last under `Value`.
pub open spec fn with_code(push: ObjectView, code: Seq<char>) -> ObjectView {
    push.push((Property::Value@, ValueView::Text(code)))
}

/// Whether a plan is what the contract asks for.
pub open spec fn is_plan(wanted: Result<ObjectView, SetErrorView>, got: Result<Object<Value>, SetError>) -> bool {
    match (wanted, got) {
        (Ok(push), Ok(got)) => got@ == push,
        (Err(error), Err(got)) => got@ == error,
        _ => false,
    }
}

/// Dropping the first submitted property before or after taking views is
/// the same.
proof fn lemma_changes_rest(entries: Seq<(Property, SetValue)>)
    requires
        entries.len() > 0,
    ensures
        changes_view(entries.remove(0)) == changes_view(entries).drop_first(),
        changes_view(entries)[0] == (entries[0].0@, entries[0].1@),
{
    assert(changes_view(entries.remove(0)) =~= changes_view(entries).drop_first());
}

/// Plans the create of a subscription from its submitted properties: the
/// object to store but for its verification code, or the rejection.
pub fn plan_create(
    object: Object<SetValue>,
    response: &SetResponse,
    existing: usize,
    max_total: usize,
    now: u64,
) -> (r: Result<Object<Value>, SetError>)
    ensures
        is_plan(
            subscription_to_create(
                object@,
                response@.created,
                existing as nat,
                max_total as nat,
                now,
            ),
            r,
        ),
{
    if existing >= max_total {
        return Err(
            SetError::forbidden().with_description(
                "There are too many subscriptions, please delete some before adding a new one.",
            ),
        );
    }
    let mut push = Object::with_capacity(object.properties.len());
    let mut properties = object.properties;
    while properties.len() > 0
        invariant
            existing < max_total,
            created_with(object@, ObjectView::empty(), response@.created, now) == created_with(
                changes_view(properties@),
                push@,
                response@.created,
                now,
            ),
        decreases properties@.len(),
    {
        proof {
            lemma_changes_rest(properties@);
        }
        let (property, value) = properties.remove(0);
        let outcome = match response.eval_object_references(value) {
            Ok(resolved) => validate_push_value_at(&property, resolved, None, now),
            Err(error) => Err(error),
        };
        match outcome {
            Ok(Value::Null) => {},
            Ok(value) => {
                push.set(property, value);
            },
            Err(error) => {
                return Err(error);
            },
        }
    }
    if !push.contains_key(&Property::DeviceClientId) || !push.contains_key(&Property::Url) {
        let mut required: Vec<Property> = Vec::new();
        required.push(Property::DeviceClientId);
        required.push(Property::Url);
        assert(properties_view(required@) =~= seq![Property::DeviceClientId@, Property::Url@]);
        return Err(
            SetError::invalid_properties().with_properties(required).with_description(
                "Missing required properties",
            ),
        );
    }
    if !push.contains_key(&Property::Expires) {
        push.append(Property::Expires, Value::Date(UTCDate::from_timestamp(latest_expiry(now))));
    }
    Ok(push)
}

/// Plans the update of the stored subscription `push` from the submitted
/// properties: the object to store in its place, or the rejection.
pub fn plan_update(
    changes: Object<SetValue>,
    push: Object<Value>,
    response: &SetResponse,
    now: u64,
) -> (r: Result<Object<Value>, SetError>)
    ensures
        is_plan(updated_with(changes@, push@, response@.created, now), r),
{
    let mut current = push;
    let mut properties = changes.properties;
    while properties.len() > 0
        invariant
            updated_with(changes@, push@, response@.created, now) == updated_with(
                changes_view(properties@),
                current@,
                response@.created,
                now,
            ),
        decreases properties@.len(),
    {
        proof {
            lemma_changes_rest(properties@);
        }
        let (property, value) = properties.remove(0);
        let outcome = match response.eval_object_references(value) {
            Ok(resolved) => validate_push_value_at(&property, resolved, Some(&current), now),
            Err(error) => Err(error),
        };
        match outcome {
            Ok(Value::Null) => {
                current.remove(&property);
            },
            Ok(value) => {
                current.set(property, value);
            },
            Err(error) => {
                return Err(error);
            },
        }
    }
    Ok(current)
}

/// Gives a planned subscription its verification code.
pub fn seal(push: Object<Value>, code: String) -> (r: Object<Value>)
    ensures
        r@ == with_code(push@, code@),
{
    push.with_property(Property::Value, Value::Text(code))
}

} // verus!
