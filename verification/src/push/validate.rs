//! The policy for the properties of a push subscription.

use vstd::prelude::*;
use vstd::string::StrSliceExecFns;
use crate::clock::now;
use crate::codec::text::utf8_len;
use crate::error::SetError;
use crate::error::SetErrorView;
use crate::object::lookup;
use crate::object::Object;
use crate::object::ObjectView;
use crate::types::date::UTCDate;
use crate::types::property::Property;
use crate::types::property::PropertyView;
use crate::types::type_state::parse_type_state;
use crate::types::type_state::TypeState;
use crate::types::value::list_view;
use crate::types::value::MaybePatchValue;
use crate::types::value::MaybePatchValueView;
use crate::types::value::Value;
use crate::types::value::ValueView;

verus! {

/// A subscription expires at most this many seconds from now: 7 days.
pub const EXPIRES_MAX: i64 = 604800;

/// What decoding `text` as URL-safe base64 with padding gives: the bytes,
/// or nothing where `text` is no such encoding. The decoder is the base64
/// crate's; nothing more is said of it here.
pub uninterp spec fn url_safe_base64_decoded(text: Seq<char>) -> Option<Seq<u8>>;

/// `decode` of the base64 crate's `URL_SAFE` engine (the URL-safe alphabet,
/// padding required): the decoded bytes, or nothing where the engine reports
/// an error. The result depends on the text alone. Believed, not proved.
#[verifier::external_body]
fn decode_url_safe_base64(text: &str) -> (r: Option<Vec<u8>>)
    ensures
        match (url_safe_base64_decoded(text@), r) {
            (Some(bytes), Some(got)) => got@ == bytes,
            (None, None) => true,
            _ => false,
        },
{
    match base64::Engine::decode(&base64::engine::general_purpose::URL_SAFE, text) {
        Ok(bytes) => Some(bytes),
        Err(_) => None,
    }
}

/// The latest expiry that a subscription may have at time `now`: seven days
/// on, or the last second that a timestamp can hold if that comes first.
pub open spec fn expiry_limit(now: u64) -> i64 {
    if now + EXPIRES_MAX > i64::MAX {
        i64::MAX
    } else {
        (now + EXPIRES_MAX) as i64
    }
}

/// `expires`, brought back to the latest expiry allowed if it lies beyond.
pub open spec fn clamp_expiry(expires: i64, now: u64) -> i64 {
    if expires > expiry_limit(now) {
        expiry_limit(now)
    } else {
        expires
    }
}

/// Whether `value` is text of fewer than `limit` bytes.
pub open spec fn is_text_below(value: ValueView, limit: nat) -> bool {
    match value {
        ValueView::Text(text) => utf8_len(text) < limit,
        _ => false,
    }
}

/// Whether `text` starts with `https://`.
pub open spec fn has_https_prefix(text: Seq<char>) -> bool {
    text.len() >= 8 && text.subrange(0, 8) == seq!['h', 't', 't', 'p', 's', ':', '/', '/']
}

/// Whether `value` is an object of exactly two entries in which `Auth` and
/// `P256dh` both read as text of fewer than 1024 bytes.
pub open spec fn is_key_pair(value: ValueView) -> bool {
    match value {
        ValueView::Object(entries) => {
            &&& entries.len() == 2
            &&& is_text_below(lookup(entries, Property::Auth@), 1024)
            &&& is_text_below(lookup(entries, Property::P256dh@), 1024)
        },
        _ => false,
    }
}

/// Whether the `Auth` and `P256dh` of a key pair are both URL-safe base64.
pub open spec fn key_pair_decodes(value: ValueView) -> bool {
    match value {
        ValueView::Object(entries) => match (
            lookup(entries, Property::Auth@),
            lookup(entries, Property::P256dh@),
        ) {
            (ValueView::Text(auth), ValueView::Text(p256dh)) => url_safe_base64_decoded(auth)
                is Some && url_safe_base64_decoded(p256dh) is Some,
            _ => false,
        },
        _ => false,
    }
}

/// Whether every item is text that names a type state.
pub open spec fn all_type_states(items: Seq<ValueView>) -> bool {
    forall|i: int|
        0 <= i < items.len() ==> match #[trigger] items[i] {
            ValueView::Text(name) => parse_type_state(name) is Some,
            _ => false,
        }
}

/// The rejection of a value that the policy has no place for.
pub open spec fn could_not_be_set(property: PropertyView) -> SetErrorView {
    SetErrorView::invalid_property(property, "Field could not be set."@)
}

/// The rejection of a verification code that is not the stored one.
pub open spec fn code_mismatch(property: PropertyView) -> SetErrorView {
    SetErrorView::invalid_property(property, "Verification code does not match."@)
}

/// The policy. `current` is the stored subscription on an update and
/// nothing on a create; `keys_decode` says whether both keys of a key pair
/// are URL-safe base64, and is read for a key pair only.
///
/// | Property | Create | Update | Accepted |
/// |---|---|---|---|
/// | DeviceClientId | yes | no | text below 255 bytes |
/// | Url | yes | no | text below 512 bytes that starts with `https://` |
/// | Keys | yes | no | a key pair whose keys decode; `Null` always, to clear |
/// | Expires | yes | yes | a date, clamped to the limit; `Null` for the limit |
/// | Types | yes | yes | a list of type state names; `Null` to clear |
/// | VerificationCode | no | yes | the stored `Value`; `Null` to clear |
///
/// What is accepted comes back as the value to store, `Null` standing for
/// "clear". Everything else is rejected as a value that could not be set,
/// but for a wrong verification code, which is rejected as a mismatch.
pub open spec fn push_value_outcome(
    property: PropertyView,
    value: MaybePatchValueView,
    current: Option<ObjectView>,
    now: u64,
    keys_decode: bool,
) -> Result<ValueView, SetErrorView> {
    match value {
        MaybePatchValueView::Patch(_) => Err(could_not_be_set(property)),
        MaybePatchValueView::Value(value) => if property == Property::DeviceClientId@ {
            if current is None && is_text_below(value, 255) {
                Ok(value)
            } else {
                Err(could_not_be_set(property))
            }
        } else if property == Property::Url@ {
            if current is None && is_text_below(value, 512) && has_https_prefix(value->Text_0) {
                Ok(value)
            } else {
                Err(could_not_be_set(property))
            }
        } else if property == Property::Keys@ {
            if value is Null {
                Ok(ValueView::Null)
            } else if current is None && is_key_pair(value) && keys_decode {
                Ok(value)
            } else {
                Err(could_not_be_set(property))
            }
        } else if property == Property::Expires@ {
            match value {
                ValueView::Date(expires) => Ok(ValueView::Date(clamp_expiry(expires, now))),
                ValueView::Null => Ok(ValueView::Date(expiry_limit(now))),
                _ => Err(could_not_be_set(property)),
            }
        } else if property == Property::Types@ {
            match value {
                ValueView::List(items) => if all_type_states(items) {
                    Ok(value)
                } else {
                    Err(could_not_be_set(property))
                },
                ValueView::Null => Ok(ValueView::Null),
                _ => Err(could_not_be_set(property)),
            }
        } else if property == Property::VerificationCode@ {
            match value {
                ValueView::Text(code) => match current {
                    Some(stored) => if lookup(stored, Property::Value@) == value {
                        Ok(value)
                    } else {
                        Err(code_mismatch(property))
                    },
                    None => Err(could_not_be_set(property)),
                },
                ValueView::Null => Ok(ValueView::Null),
                _ => Err(could_not_be_set(property)),
            }
        } else {
            Err(could_not_be_set(property))
        },
    }
}

/// Whether both keys of a submitted key pair decode; `false` for anything
/// that is not a key pair.
pub open spec fn submitted_keys_decode(value: MaybePatchValueView) -> bool {
    match value {
        MaybePatchValueView::Value(value) => is_key_pair(value) && key_pair_decodes(value),
        MaybePatchValueView::Patch(_) => false,
    }
}

/// The policy with the keys tested by the decoder.
pub open spec fn push_value_verdict(
    property: PropertyView,
    value: MaybePatchValueView,
    current: Option<ObjectView>,
    now: u64,
) -> Result<ValueView, SetErrorView> {
    push_value_outcome(property, value, current, now, submitted_keys_decode(value))
}

/// The stored subscription as contracts see it.
pub open spec fn current_view(current: Option<&Object<Value>>) -> Option<ObjectView> {
    match current {
        Some(object) => Some(object@),
        None => None,
    }
}

/// Whether an outcome of the policy is what the contract asks for.
pub open spec fn is_outcome(
    wanted: Result<ValueView, SetErrorView>,
    got: Result<Value, SetError>,
) -> bool {
    match (wanted, got) {
        (Ok(value), Ok(got)) => got@ == value,
        (Err(error), Err(got)) => got@ == error,
        _ => false,
    }
}

/// The latest expiry allowed at time `now`.
pub fn latest_expiry(now: u64) -> (limit: i64)
    ensures
        limit == expiry_limit(now),
{
    if now > 0x7fff_ffff_ffff_ffff - 604800 {
        i64::MAX
    } else {
        now as i64 + EXPIRES_MAX
    }
}

fn reject(property: &Property) -> (r: SetError)
    ensures
        r@ == could_not_be_set(property@),
{
    SetError::invalid_properties().with_property(property.clone()).with_description(
        "Field could not be set.",
    )
}

fn text_below(value: &Value, limit: usize) -> (r: bool)
    ensures
        r == is_text_below(value@, limit as nat),
{
    match value {
        Value::Text(text) => text.as_str().as_bytes().len() < limit,
        _ => false,
    }
}

/// Whether `text` starts with `https://`.
pub fn starts_with_https(text: &str) -> (r: bool)
    ensures
        r == has_https_prefix(text@),
{
    if text.unicode_len() < 8 {
        return false;
    }
    let r = text.get_char(0) == 'h' && text.get_char(1) == 't' && text.get_char(2) == 't'
        && text.get_char(3) == 'p' && text.get_char(4) == 's' && text.get_char(5) == ':'
        && text.get_char(6) == '/' && text.get_char(7) == '/';
    proof {
        let prefix = seq!['h', 't', 't', 'p', 's', ':', '/', '/'];
        if r {
            assert(text@.subrange(0, 8) =~= prefix);
        } else {
            assert(forall|i: int| 0 <= i < 8 ==> text@.subrange(0, 8)[i] == text@[i]);
            assert(prefix[0] == 'h' && prefix[1] == 't' && prefix[2] == 't' && prefix[3] == 'p'
                && prefix[4] == 's' && prefix[5] == ':' && prefix[6] == '/' && prefix[7] == '/');
        }
    }
    r
}

fn key_pair(value: &Value) -> (r: bool)
    ensures
        r == is_key_pair(value@),
{
    match value {
        Value::Object(keys) => keys.len() == 2 && text_below(keys.get(&Property::Auth), 1024)
            && text_below(keys.get(&Property::P256dh), 1024),
        _ => false,
    }
}

fn type_states(items: &Vec<Value>) -> (r: bool)
    ensures
        r == all_type_states(list_view(items@)),
{
    let ghost model = list_view(items@);
    let mut i: usize = 0;
    while i < items.len()
        invariant
            i <= items@.len(),
            model == list_view(items@),
            forall|j: int|
                0 <= j < i ==> match #[trigger] model[j] {
                    ValueView::Text(name) => parse_type_state(name) is Some,
                    _ => false,
                },
        decreases items@.len() - i,
    {
        assert(model[i as int] == items@[i as int]@);
        let named = match items[i].as_string() {
            Some(name) => TypeState::parse(name).is_some(),
            None => false,
        };
        if !named {
            return false;
        }
        i += 1;
    }
    true
}

/// Whether both keys of `value` decode as URL-safe base64, where `value`
/// is a key pair; `false` where it is none.
pub fn keys_decode(value: &MaybePatchValue) -> (r: bool)
    ensures
        r == submitted_keys_decode(value@),
{
    match value {
        MaybePatchValue::Value(value) => {
            if !key_pair(value) {
                return false;
            }
            match value {
                Value::Object(keys) => match (
                    keys.get(&Property::Auth),
                    keys.get(&Property::P256dh),
                ) {
                    (Value::Text(auth), Value::Text(p256dh)) => decode_url_safe_base64(
                        auth.as_str(),
                    ).is_some() && decode_url_safe_base64(p256dh.as_str()).is_some(),
                    _ => false,
                },
                _ => false,
            }
        },
        MaybePatchValue::Patch(_) => false,
    }
}

/// Applies the policy to one submitted value, the keys' test given as
/// `keys_decode`: the value to store, or the rejection.
pub fn check_push_value(
    property: &Property,
    value: MaybePatchValue,
    current: Option<&Object<Value>>,
    now: u64,
    keys_decode: bool,
) -> (r: Result<Value, SetError>)
    ensures
        is_outcome(push_value_outcome(property@, value@, current_view(current), now, keys_decode), r),
{
    let value = match value {
        MaybePatchValue::Value(value) => value,
        MaybePatchValue::Patch(_) => {
            return Err(reject(property));
        },
    };
    match property {
        Property::DeviceClientId => {
            if current.is_none() && text_below(&value, 255) {
                Ok(value)
            } else {
                Err(reject(property))
            }
        },
        Property::Url => {
            let accepted = current.is_none() && text_below(&value, 512) && match &value {
                Value::Text(url) => starts_with_https(url.as_str()),
                _ => false,
            };
            if accepted {
                Ok(value)
            } else {
                Err(reject(property))
            }
        },
        Property::Keys => {
            if let Value::Null = value {
                Ok(Value::Null)
            } else if current.is_none() && key_pair(&value) && keys_decode {
                Ok(value)
            } else {
                Err(reject(property))
            }
        },
        Property::Expires => {
            let limit = latest_expiry(now);
            match value {
                Value::Date(expires) => {
                    if expires.timestamp() > limit {
                        Ok(Value::Date(UTCDate::from_timestamp(limit)))
                    } else {
                        Ok(Value::Date(expires))
                    }
                },
                Value::Null => Ok(Value::Date(UTCDate::from_timestamp(limit))),
                _ => Err(reject(property)),
            }
        },
        Property::Types => {
            match value {
                Value::List(items) => {
                    if type_states(&items) {
                        Ok(Value::List(items))
                    } else {
                        Err(reject(property))
                    }
                },
                Value::Null => Ok(Value::Null),
                _ => Err(reject(property)),
            }
        },
        Property::VerificationCode => {
            match value {
                Value::Text(code) => match current {
                    Some(stored) => {
                        let matches = match stored.get(&Property::Value) {
                            Value::Text(expected) => *expected == code,
                            _ => false,
                        };
                        if matches {
                            Ok(Value::Text(code))
                        } else {
                            Err(
                                SetError::invalid_properties().with_property(
                                    property.clone(),
                                ).with_description("Verification code does not match."),
                            )
                        }
                    },
                    None => Err(reject(property)),
                },
                Value::Null => Ok(Value::Null),
                _ => Err(reject(property)),
            }
        },
        _ => Err(reject(property)),
    }
}

/// Applies the policy to one submitted value at time `now`: the value to
/// store, or the rejection. The keys of a key pair are tested with the
/// base64 decoder.
pub fn validate_push_value_at(
    property: &Property,
    value: MaybePatchValue,
    current: Option<&Object<Value>>,
    now: u64,
) -> (r: Result<Value, SetError>)
    ensures
        is_outcome(push_value_verdict(property@, value@, current_view(current), now), r),
{
    let decode = match property {
        Property::Keys => keys_decode(&value),
        _ => false,
    };
    check_push_value(property, value, current, now, decode)
}

/// Applies the policy to one submitted value at the time that the system
/// clock shows: the value to store, or the rejection.
pub fn validate_push_value(
    property: &Property,
    value: MaybePatchValue,
    current: Option<&Object<Value>>,
) -> (r: Result<Value, SetError>)
    ensures
        exists|now: u64|
            is_outcome(
                #[trigger] push_value_verdict(property@, value@, current_view(current), now),
                r,
            ),
{
    validate_push_value_at(property, value, current, now())
}

} // verus!
