//! What holds of every create, update and destroy of a push subscription.

use vstd::prelude::*;
use crate::error::SetErrorType;
use crate::error::SetErrorView;
use crate::method::set::ChangesView;
use crate::object::contains_key;
use crate::object::lemma_get_after_append;
use crate::object::lemma_get_after_set;
use crate::object::lemma_get_other_after_set;
use crate::object::lookup;
use crate::object::ObjectView;
use crate::object::with_set;
use crate::push::plan::created_with;
use crate::push::plan::missing_required;
use crate::push::plan::submitted_value;
use crate::push::plan::subscription_to_create;
use crate::push::plan::too_many_subscriptions;
use crate::push::plan::updated_with;
use crate::push::set::document_of;
use crate::push::set::PushSetPlan;
use crate::push::set::PushSetView;
use crate::push::validate::clamp_expiry;
use crate::push::validate::code_mismatch;
use crate::push::validate::EXPIRES_MAX;
use crate::push::validate::expiry_limit;
use crate::push::validate::has_https_prefix;
use crate::push::validate::push_value_outcome;
use crate::push::validate::push_value_verdict;
use crate::types::property::Property;
use crate::types::property::PropertyView;
use crate::types::value::MaybePatchValueView;
use crate::types::value::SetValueView;
use crate::types::value::ValueView;

verus! {

/// Whether some submitted property bears the name `key`.
pub open spec fn names(changes: ChangesView, key: PropertyView) -> bool {
    exists|i: int| 0 <= i < changes.len() && (#[trigger] changes[i]).0 == key
}

/// A new subscription has a property only if it was submitted.
pub proof fn lemma_created_has_only_submitted(
    changes: ChangesView,
    push: ObjectView,
    created: Seq<(Seq<char>, ObjectView)>,
    now: u64,
    key: PropertyView,
)
    requires
        !names(changes, key),
        !contains_key(push, key),
    ensures
        match created_with(changes, push, created, now) {
            Ok(result) => !contains_key(result, key),
            Err(_) => true,
        },
    decreases changes.len(),
{
    if changes.len() > 0 {
        let rest = changes.drop_first();
        assert(changes[0].0 != key);
        assert(!names(rest, key)) by {
            if names(rest, key) {
                let i = choose|i: int| 0 <= i < rest.len() && (#[trigger] rest[i]).0 == key;
                assert(changes[i + 1].0 == key);
            }
        }
        match submitted_value(changes[0].0, changes[0].1, created, None, now) {
            Ok(ValueView::Null) => {
                lemma_created_has_only_submitted(rest, push, created, now, key);
            },
            Ok(value) => {
                lemma_get_other_after_set(push, changes[0].0, value, key);
                lemma_created_has_only_submitted(
                    rest,
                    with_set(push, changes[0].0, value),
                    created,
                    now,
                    key,
                );
            },
            Err(_) => {},
        }
    }
}

/// A create that names no device, or no URL, and whose properties are all
/// accepted, is rejected for its missing properties: the rejection names
/// both the device and the URL.
pub proof fn law_create_requires_device_and_url(
    changes: ChangesView,
    created: Seq<(Seq<char>, ObjectView)>,
    existing: nat,
    max_total: nat,
    now: u64,
)
    requires
        existing < max_total,
        created_with(changes, ObjectView::empty(), created, now) is Ok,
        !names(changes, Property::DeviceClientId@) || !names(changes, Property::Url@),
    ensures
        subscription_to_create(changes, created, existing, max_total, now) == Err::<
            ObjectView,
            SetErrorView,
        >(missing_required()),
        missing_required().type_ == SetErrorType::InvalidProperties,
        missing_required().properties == Some(seq![Property::DeviceClientId@, Property::Url@]),
{
    let empty = ObjectView::empty();
    if !names(changes, Property::DeviceClientId@) {
        lemma_created_has_only_submitted(changes, empty, created, now, Property::DeviceClientId@);
    } else {
        lemma_created_has_only_submitted(changes, empty, created, now, Property::Url@);
    }
}

/// One rejected property rejects the whole create.
pub proof fn law_rejected_property_rejects_create(
    changes: ChangesView,
    push: ObjectView,
    created: Seq<(Seq<char>, ObjectView)>,
    now: u64,
    i: int,
)
    requires
        0 <= i < changes.len(),
        submitted_value(changes[i].0, changes[i].1, created, None, now) is Err,
    ensures
        created_with(changes, push, created, now) is Err,
    decreases changes.len(),
{
    if i > 0 {
        let rest = changes.drop_first();
        assert(rest[i - 1] == changes[i]);
        match submitted_value(changes[0].0, changes[0].1, created, None, now) {
            Ok(ValueView::Null) => {
                law_rejected_property_rejects_create(rest, push, created, now, i - 1);
            },
            Ok(value) => {
                law_rejected_property_rejects_create(
                    rest,
                    with_set(push, changes[0].0, value),
                    created,
                    now,
                    i - 1,
                );
            },
            Err(_) => {},
        }
    }
}

/// A create whose URL does not start with `https://` is rejected.
pub proof fn law_create_requires_https(
    changes: ChangesView,
    created: Seq<(Seq<char>, ObjectView)>,
    existing: nat,
    max_total: nat,
    now: u64,
    i: int,
    url: Seq<char>,
)
    requires
        0 <= i < changes.len(),
        changes[i] == (Property::Url@, SetValueView::Value(ValueView::Text(url))),
        !has_https_prefix(url),
    ensures
        subscription_to_create(changes, created, existing, max_total, now) is Err,
{
    law_rejected_property_rejects_create(changes, ObjectView::empty(), created, now, i);
}

/// A create that submits no expiry is stored with the latest expiry
/// allowed: seven days from now.
pub proof fn law_create_defaults_expiry(
    changes: ChangesView,
    created: Seq<(Seq<char>, ObjectView)>,
    existing: nat,
    max_total: nat,
    now: u64,
)
    requires
        !names(changes, Property::Expires@),
        subscription_to_create(changes, created, existing, max_total, now) is Ok,
    ensures
        lookup(
            subscription_to_create(changes, created, existing, max_total, now)->Ok_0,
            Property::Expires@,
        ) == ValueView::Date(expiry_limit(now)),
        now + EXPIRES_MAX <= i64::MAX ==> expiry_limit(now) == now + EXPIRES_MAX,
{
    let empty = ObjectView::empty();
    lemma_created_has_only_submitted(changes, empty, created, now, Property::Expires@);
    let push = created_with(changes, empty, created, now)->Ok_0;
    lemma_get_after_append(push, Property::Expires@, ValueView::Date(expiry_limit(now)));
}

/// Whether the expiry of `push`, if it has one, is a date within the limit.
pub open spec fn expiry_within_limit(push: ObjectView, now: u64) -> bool {
    contains_key(push, Property::Expires@) ==> match lookup(push, Property::Expires@) {
        ValueView::Date(expires) => expires <= expiry_limit(now),
        _ => false,
    }
}

proof fn lemma_created_expiry_within_limit(
    changes: ChangesView,
    push: ObjectView,
    created: Seq<(Seq<char>, ObjectView)>,
    now: u64,
)
    requires
        expiry_within_limit(push, now),
    ensures
        match created_with(changes, push, created, now) {
            Ok(result) => expiry_within_limit(result, now),
            Err(_) => true,
        },
    decreases changes.len(),
{
    if changes.len() > 0 {
        let rest = changes.drop_first();
        let key = changes[0].0;
        match submitted_value(key, changes[0].1, created, None, now) {
            Ok(ValueView::Null) => {
                lemma_created_expiry_within_limit(rest, push, created, now);
            },
            Ok(value) => {
                if key == Property::Expires@ {
                    lemma_get_after_set(push, key, value);
                } else {
                    lemma_get_other_after_set(push, key, value, Property::Expires@);
                }
                lemma_created_expiry_within_limit(rest, with_set(push, key, value), created, now);
            },
            Err(_) => {},
        }
    }
}

/// Whatever expiry a create submits, the subscription is stored with one
/// that is no later than seven days from now.
pub proof fn law_create_clamps_expiry(
    changes: ChangesView,
    created: Seq<(Seq<char>, ObjectView)>,
    existing: nat,
    max_total: nat,
    now: u64,
)
    requires
        subscription_to_create(changes, created, existing, max_total, now) is Ok,
    ensures
        match lookup(
            subscription_to_create(changes, created, existing, max_total, now)->Ok_0,
            Property::Expires@,
        ) {
            ValueView::Date(expires) => expires <= expiry_limit(now) && expires <= now
                + EXPIRES_MAX,
            _ => false,
        },
{
    let empty = ObjectView::empty();
    lemma_created_expiry_within_limit(changes, empty, created, now);
    let push = created_with(changes, empty, created, now)->Ok_0;
    if !contains_key(push, Property::Expires@) {
        lemma_get_after_append(push, Property::Expires@, ValueView::Date(expiry_limit(now)));
    }
}

/// A submitted expiry beyond the limit is brought back to the limit; one
/// within the limit is kept.
pub proof fn law_expiry_is_clamped(
    expires: i64,
    current: Option<ObjectView>,
    now: u64,
    keys_decode: bool,
)
    ensures
        push_value_outcome(
            Property::Expires@,
            MaybePatchValueView::Value(ValueView::Date(expires)),
            current,
            now,
            keys_decode,
        ) == Ok::<ValueView, SetErrorView>(ValueView::Date(clamp_expiry(expires, now))),
        expires - now > EXPIRES_MAX ==> clamp_expiry(expires, now) == expiry_limit(now),
        expires - now <= EXPIRES_MAX ==> clamp_expiry(expires, now) == expires,
{
}

/// On an update, the verification code is accepted exactly when it is the
/// stored one; any other is rejected as a mismatch.
pub proof fn law_verification_code(code: Seq<char>, stored: ObjectView, now: u64)
    ensures
        push_value_verdict(
            Property::VerificationCode@,
            MaybePatchValueView::Value(ValueView::Text(code)),
            Some(stored),
            now,
        ) == if lookup(stored, Property::Value@) == ValueView::Text(code) {
            Ok::<ValueView, SetErrorView>(ValueView::Text(code))
        } else {
            Err::<ValueView, SetErrorView>(code_mismatch(Property::VerificationCode@))
        },
{
}

/// An update that submits the right verification code and nothing else is
/// accepted, and stores the code; one that submits a wrong code is
/// rejected.
pub proof fn law_update_with_code(
    code: Seq<char>,
    stored: ObjectView,
    created: Seq<(Seq<char>, ObjectView)>,
    now: u64,
)
    ensures
        updated_with(
            seq![(Property::VerificationCode@, SetValueView::Value(ValueView::Text(code)))],
            stored,
            created,
            now,
        ) == if lookup(stored, Property::Value@) == ValueView::Text(code) {
            Ok::<ObjectView, SetErrorView>(
                with_set(stored, Property::VerificationCode@, ValueView::Text(code)),
            )
        } else {
            Err::<ObjectView, SetErrorView>(code_mismatch(Property::VerificationCode@))
        },
{
    let changes = seq![(Property::VerificationCode@, SetValueView::Value(ValueView::Text(code)))];
    law_verification_code(code, stored, now);
    assert(changes.drop_first().len() == 0);
    if lookup(stored, Property::Value@) == ValueView::Text(code) {
        let after = with_set(stored, Property::VerificationCode@, ValueView::Text(code));
        assert(updated_with(changes.drop_first(), after, created, now) == Ok::<
            ObjectView,
            SetErrorView,
        >(after));
    }
}

/// One property that is rejected whatever the subscription holds rejects
/// the whole update.
pub proof fn law_rejected_property_rejects_update(
    changes: ChangesView,
    push: ObjectView,
    created: Seq<(Seq<char>, ObjectView)>,
    now: u64,
    i: int,
)
    requires
        0 <= i < changes.len(),
        forall|stored: ObjectView| #[trigger]
            submitted_value(changes[i].0, changes[i].1, created, Some(stored), now) is Err,
    ensures
        updated_with(changes, push, created, now) is Err,
    decreases changes.len(),
{
    if i > 0 {
        let rest = changes.drop_first();
        assert(rest[i - 1] == changes[i]);
        match submitted_value(changes[0].0, changes[0].1, created, Some(push), now) {
            Ok(ValueView::Null) => {
                law_rejected_property_rejects_update(
                    rest,
                    crate::object::without(push, changes[0].0),
                    created,
                    now,
                    i - 1,
                );
            },
            Ok(value) => {
                law_rejected_property_rejects_update(
                    rest,
                    with_set(push, changes[0].0, value),
                    created,
                    now,
                    i - 1,
                );
            },
            Err(_) => {},
        }
    } else {
        assert(submitted_value(changes[0].0, changes[0].1, created, Some(push), now) is Err);
    }
}

/// An update that submits a URL is rejected, whatever the URL: the URL is
/// set on create and never after. The same holds of the device.
pub proof fn law_url_is_create_only(
    changes: ChangesView,
    push: ObjectView,
    created: Seq<(Seq<char>, ObjectView)>,
    now: u64,
    i: int,
)
    requires
        0 <= i < changes.len(),
        changes[i].0 == Property::Url@ || changes[i].0 == Property::DeviceClientId@,
    ensures
        updated_with(changes, push, created, now) is Err,
{
    law_rejected_property_rejects_update(changes, push, created, now, i);
}

/// A create is rejected as forbidden when the account has as many
/// subscriptions as it may, whatever the create submits.
pub proof fn law_create_respects_cap(
    changes: ChangesView,
    created: Seq<(Seq<char>, ObjectView)>,
    existing: nat,
    max_total: nat,
    now: u64,
)
    requires
        existing >= max_total,
    ensures
        subscription_to_create(changes, created, existing, max_total, now) == Err::<
            ObjectView,
            SetErrorView,
        >(too_many_subscriptions()),
        too_many_subscriptions().type_ == SetErrorType::Forbidden,
{
}

/// A prefix of a prefix is a prefix.
proof fn lemma_prefix_of_prefix<A>(a: Seq<A>, b: Seq<A>, c: Seq<A>)
    requires
        a.is_prefix_of(b),
        b.is_prefix_of(c),
    ensures
        a.is_prefix_of(c),
{
    assert(a =~= c.subrange(0, a.len() as int)) by {
        assert forall|i: int| 0 <= i < a.len() implies a[i] == c[i] by {
            assert(a[i] == b.subrange(0, a.len() as int)[i]);
            assert(b[i] == c.subrange(0, b.len() as int)[i]);
        }
    }
}

/// Looking for the next task takes nothing back: the account keeps its
/// documents, and what the response reports as not destroyed stays
/// reported, in its place.
pub proof fn lemma_next_task_keeps(state: PushSetView, now: u64)
    ensures
        state.next_task(now).0.push_ids == state.push_ids,
        state.next_task(now).0.will_destroy == state.will_destroy,
        state.response.not_destroyed.is_prefix_of(state.next_task(now).0.response.not_destroyed),
    decreases state.remaining(),
{
    let before = state.response.not_destroyed;
    assert(before.is_prefix_of(before)) by {
        assert(before =~= before.subrange(0, before.len() as int));
    }
    if state.creates.len() > 0 {
        let id = state.creates[0].0;
        let rest = PushSetView { creates: state.creates.drop_first(), ..state };
        match subscription_to_create(
            state.creates[0].1,
            state.response.created,
            state.push_ids.len(),
            state.push_max_total,
            now,
        ) {
            Ok(_) => {},
            Err(error) => {
                lemma_next_task_keeps(rest.not_created(id, error), now);
            },
        }
    } else if state.updates.len() > 0 {
        let id = state.updates[0].0;
        let rest = PushSetView { updates: state.updates.drop_first(), ..state };
        if state.will_destroy.contains(id) {
            lemma_next_task_keeps(
                rest.not_updated(id, SetErrorView::bare(SetErrorType::WillDestroy)),
                now,
            );
        }
    } else if state.destroys.len() > 0 {
        let id = state.destroys[0];
        let rest = PushSetView { destroys: state.destroys.drop_first(), ..state };
        if !state.push_ids.contains(document_of(id)) {
            let reported = rest.not_destroyed(id, SetErrorView::bare(SetErrorType::NotFound));
            lemma_next_task_keeps(reported, now);
            assert(before.is_prefix_of(reported.response.not_destroyed)) by {
                assert(before =~= reported.response.not_destroyed.subrange(
                    0,
                    before.len() as int,
                ));
            }
            lemma_prefix_of_prefix(
                before,
                reported.response.not_destroyed,
                reported.next_task(now).0.response.not_destroyed,
            );
        }
    }
}

/// A subscription that the request created can be destroyed by the same
/// request: once its creation is reported, the account has its document,
/// and when its destroy is taken up the task is to destroy that document.
pub proof fn law_created_can_be_destroyed(
    state: PushSetView,
    alias: Seq<char>,
    document_id: u32,
    id: u64,
    now: u64,
)
    requires
        document_of(id) == document_id,
    ensures
        state.created(alias, document_id).push_ids.contains(document_id),
        ({
            let after = state.created(alias, document_id);
            after.creates.len() == 0 && after.updates.len() == 0 && after.destroys.len() > 0
                && after.destroys[0] == id ==> after.next_task(now).1 == (
            PushSetPlan::Destroy { document_id })
        }),
{
    let after = state.created(alias, document_id);
    if !state.push_ids.contains(document_id) {
        assert(state.push_ids.push(document_id)[state.push_ids.len() as int] == document_id);
    }
}

/// The destroy of a document that the account does not have is reported
/// as not destroyed, for it was not found.
pub proof fn law_destroy_of_unknown_is_not_found(state: PushSetView, now: u64)
    requires
        state.creates.len() == 0,
        state.updates.len() == 0,
        state.destroys.len() > 0,
        !state.push_ids.contains(document_of(state.destroys[0])),
    ensures
        state.next_task(now).0.response.not_destroyed.len()
            > state.response.not_destroyed.len(),
        state.next_task(now).0.response.not_destroyed[state.response.not_destroyed.len() as int]
            == (state.destroys[0], SetErrorView::bare(SetErrorType::NotFound)),
{
    let id = state.destroys[0];
    let rest = PushSetView { destroys: state.destroys.drop_first(), ..state };
    let reported = rest.not_destroyed(id, SetErrorView::bare(SetErrorType::NotFound));
    let k = state.response.not_destroyed.len() as int;
    lemma_next_task_keeps(reported, now);
    let after = reported.next_task(now).0.response.not_destroyed;
    assert(reported.response.not_destroyed[k] == (id, SetErrorView::bare(SetErrorType::NotFound)));
    assert(after[k] == after.subrange(0, reported.response.not_destroyed.len() as int)[k]);
}

/// An update of a subscription that the same request destroys is reported
/// as not updated, for it will be destroyed; nothing is loaded for it.
pub proof fn law_update_of_destroyed_is_refused(state: PushSetView, now: u64)
    requires
        state.creates.len() == 0,
        state.updates.len() > 0,
        state.will_destroy.contains(state.updates[0].0),
    ensures
        state.next_task(now) == (PushSetView {
            updates: state.updates.drop_first(),
            ..state
        }).not_updated(
            state.updates[0].0,
            SetErrorView::bare(SetErrorType::WillDestroy),
        ).next_task(now),
{
}

} // verus!
