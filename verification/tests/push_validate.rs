use jmap_core::error::SetError;
use jmap_core::error::SetErrorType;
use jmap_core::object::Object;
use jmap_core::push::validate::check_push_value;
use jmap_core::push::validate::keys_decode;
use jmap_core::push::validate::latest_expiry;
use jmap_core::push::validate::starts_with_https;
use jmap_core::push::validate::validate_push_value;
use jmap_core::push::validate::validate_push_value_at;
use jmap_core::push::validate::EXPIRES_MAX;
use jmap_core::types::date::UTCDate;
use jmap_core::types::property::Property;
use jmap_core::types::value::MaybePatchValue;
use jmap_core::types::value::Value;

const NOW: u64 = 1_700_000_000;

fn text(s: &str) -> Value {
    Value::Text(s.to_string())
}

fn submitted(value: Value) -> MaybePatchValue {
    MaybePatchValue::Value(value)
}

fn could_not_be_set(property: Property) -> SetError {
    SetError {
        type_: SetErrorType::InvalidProperties,
        description: Some("Field could not be set.".to_string()),
        properties: Some(vec![property]),
    }
}

fn keys(auth: &str, p256dh: &str) -> Value {
    Value::Object(
        Object::with_capacity(2)
            .with_property(Property::Auth, text(auth))
            .with_property(Property::P256dh, text(p256dh)),
    )
}

fn stored_with_code(code: &str) -> Object<Value> {
    Object::with_capacity(2)
        .with_property(Property::DeviceClientId, text("devA"))
        .with_property(Property::Value, text(code))
}

#[test]
fn device_client_id_is_accepted_on_create() {
    let r = validate_push_value_at(&Property::DeviceClientId, submitted(text("devA")), None, NOW);
    assert_eq!(r, Ok(text("devA")));
}

#[test]
fn device_client_id_must_be_shorter_than_255_bytes() {
    let longest = "a".repeat(254);
    let r = validate_push_value_at(&Property::DeviceClientId, submitted(text(&longest)), None, NOW);
    assert_eq!(r, Ok(text(&longest)));
    let too_long = "a".repeat(255);
    let r = validate_push_value_at(&Property::DeviceClientId, submitted(text(&too_long)), None, NOW);
    assert_eq!(r, Err(could_not_be_set(Property::DeviceClientId)));
}

#[test]
fn device_client_id_is_rejected_on_update() {
    let stored = stored_with_code("abc");
    let r = validate_push_value_at(&Property::DeviceClientId, submitted(text("devB")), Some(&stored), NOW);
    assert_eq!(r, Err(could_not_be_set(Property::DeviceClientId)));
}

#[test]
fn device_client_id_must_be_text() {
    let r = validate_push_value_at(&Property::DeviceClientId, submitted(Value::UnsignedInt(1)), None, NOW);
    assert_eq!(r, Err(could_not_be_set(Property::DeviceClientId)));
    let r = validate_push_value_at(&Property::DeviceClientId, submitted(Value::Null), None, NOW);
    assert_eq!(r, Err(could_not_be_set(Property::DeviceClientId)));
}

#[test]
fn https_url_is_accepted_on_create() {
    let r = validate_push_value_at(&Property::Url, submitted(text("https://push.example/x")), None, NOW);
    assert_eq!(r, Ok(text("https://push.example/x")));
    let r = validate_push_value_at(&Property::Url, submitted(text("https://")), None, NOW);
    assert_eq!(r, Ok(text("https://")));
}

#[test]
fn plain_http_url_is_rejected() {
    let r = validate_push_value_at(&Property::Url, submitted(text("http://example.com/push")), None, NOW);
    assert_eq!(r, Err(could_not_be_set(Property::Url)));
}

#[test]
fn url_prefix_is_case_sensitive_and_complete() {
    for url in ["HTTPS://example.com", "https:/example.com", "https:/", "", " https://example.com"] {
        let r = validate_push_value_at(&Property::Url, submitted(text(url)), None, NOW);
        assert_eq!(r, Err(could_not_be_set(Property::Url)));
    }
}

#[test]
fn url_must_be_shorter_than_512_bytes() {
    let longest = format!("https://{}", "a".repeat(511 - 8));
    assert_eq!(longest.len(), 511);
    let r = validate_push_value_at(&Property::Url, submitted(text(&longest)), None, NOW);
    assert_eq!(r, Ok(text(&longest)));
    let too_long = format!("https://{}", "a".repeat(512 - 8));
    let r = validate_push_value_at(&Property::Url, submitted(text(&too_long)), None, NOW);
    assert_eq!(r, Err(could_not_be_set(Property::Url)));
}

#[test]
fn url_length_counts_bytes_not_characters() {
    let url = format!("https://{}", "\u{e9}".repeat(252));
    assert_eq!(url.len(), 8 + 504);
    let r = validate_push_value_at(&Property::Url, submitted(text(&url)), None, NOW);
    assert_eq!(r, Err(could_not_be_set(Property::Url)));
}

#[test]
fn url_is_rejected_on_update() {
    let stored = stored_with_code("abc");
    let r = validate_push_value_at(&Property::Url, submitted(text("https://push.example/y")), Some(&stored), NOW);
    assert_eq!(r, Err(could_not_be_set(Property::Url)));
    let r = validate_push_value_at(&Property::Url, submitted(Value::Null), Some(&stored), NOW);
    assert_eq!(r, Err(could_not_be_set(Property::Url)));
}

#[test]
fn starts_with_https_examples() {
    assert!(starts_with_https("https://a"));
    assert!(starts_with_https("https://"));
    assert!(!starts_with_https("https:/"));
    assert!(!starts_with_https("http://a"));
    assert!(!starts_with_https("\u{e9}ttps://a"));
}

#[test]
fn keys_with_url_safe_base64_are_accepted() {
    let value = keys("aGVsbG8gd29ybGQ=", "YWJj");
    let r = validate_push_value_at(&Property::Keys, submitted(value.clone()), None, NOW);
    assert_eq!(r, Ok(value));
    let value = keys("-_-_", "");
    let r = validate_push_value_at(&Property::Keys, submitted(value.clone()), None, NOW);
    assert_eq!(r, Ok(value));
}

#[test]
fn keys_that_are_not_url_safe_base64_are_rejected() {
    for (auth, p256dh) in [("not base64!", "YWJj"), ("YWJj", "a+b/"), ("YWJj", "YWJ"), ("YQ", "YWJj")] {
        let r = validate_push_value_at(&Property::Keys, submitted(keys(auth, p256dh)), None, NOW);
        assert_eq!(r, Err(could_not_be_set(Property::Keys)));
    }
}

#[test]
fn keys_decode_reports_what_the_decoder_says() {
    assert!(keys_decode(&submitted(keys("YWJj", "YWJj"))));
    assert!(!keys_decode(&submitted(keys("YWJj", "!!!!"))));
    assert!(!keys_decode(&submitted(text("YWJj"))));
    assert!(!keys_decode(&MaybePatchValue::Patch(vec![])));
}

#[test]
fn keys_must_hold_exactly_auth_and_p256dh() {
    let missing = Value::Object(Object::with_capacity(1).with_property(Property::Auth, text("YWJj")));
    let r = validate_push_value_at(&Property::Keys, submitted(missing), None, NOW);
    assert_eq!(r, Err(could_not_be_set(Property::Keys)));
    let extra = Value::Object(
        Object::with_capacity(3)
            .with_property(Property::Auth, text("YWJj"))
            .with_property(Property::P256dh, text("YWJj"))
            .with_property(Property::Name, text("x")),
    );
    let r = validate_push_value_at(&Property::Keys, submitted(extra), None, NOW);
    assert_eq!(r, Err(could_not_be_set(Property::Keys)));
    let wrong_kind = Value::Object(
        Object::with_capacity(2)
            .with_property(Property::Auth, Value::UnsignedInt(1))
            .with_property(Property::P256dh, text("YWJj")),
    );
    let r = validate_push_value_at(&Property::Keys, submitted(wrong_kind), None, NOW);
    assert_eq!(r, Err(could_not_be_set(Property::Keys)));
}

#[test]
fn keys_must_be_shorter_than_1024_bytes() {
    let longest = "A".repeat(1020);
    let r = validate_push_value_at(&Property::Keys, submitted(keys(&longest, "YWJj")), None, NOW);
    assert!(r.is_ok());
    let too_long = "A".repeat(1024);
    let r = validate_push_value_at(&Property::Keys, submitted(keys(&too_long, "YWJj")), None, NOW);
    assert_eq!(r, Err(could_not_be_set(Property::Keys)));
}

#[test]
fn keys_are_rejected_on_update_but_null_clears() {
    let stored = stored_with_code("abc");
    let r = validate_push_value_at(&Property::Keys, submitted(keys("YWJj", "YWJj")), Some(&stored), NOW);
    assert_eq!(r, Err(could_not_be_set(Property::Keys)));
    let r = validate_push_value_at(&Property::Keys, submitted(Value::Null), Some(&stored), NOW);
    assert_eq!(r, Ok(Value::Null));
    let r = validate_push_value_at(&Property::Keys, submitted(Value::Null), None, NOW);
    assert_eq!(r, Ok(Value::Null));
}

#[test]
fn check_push_value_takes_the_keys_test_as_given() {
    let value = keys("!!!!", "????");
    let r = check_push_value(&Property::Keys, submitted(value.clone()), None, NOW, true);
    assert_eq!(r, Ok(value.clone()));
    let r = check_push_value(&Property::Keys, submitted(value), None, NOW, false);
    assert_eq!(r, Err(could_not_be_set(Property::Keys)));
}

#[test]
fn expires_within_seven_days_is_kept() {
    let soon = NOW as i64 + 3600;
    let r = validate_push_value_at(&Property::Expires, submitted(Value::Date(UTCDate::from_timestamp(soon))), None, NOW);
    assert_eq!(r, Ok(Value::Date(UTCDate::from_timestamp(soon))));
    let edge = NOW as i64 + EXPIRES_MAX;
    let r = validate_push_value_at(&Property::Expires, submitted(Value::Date(UTCDate::from_timestamp(edge))), None, NOW);
    assert_eq!(r, Ok(Value::Date(UTCDate::from_timestamp(edge))));
}

#[test]
fn expires_far_in_the_future_is_clamped() {
    let far = NOW as i64 + 365 * 24 * 3600;
    let r = validate_push_value_at(&Property::Expires, submitted(Value::Date(UTCDate::from_timestamp(far))), None, NOW);
    assert_eq!(r, Ok(Value::Date(UTCDate::from_timestamp(1_700_604_800))));
    let r = validate_push_value_at(&Property::Expires, submitted(Value::Date(UTCDate::from_timestamp(i64::MAX))), None, NOW);
    assert_eq!(r, Ok(Value::Date(UTCDate::from_timestamp(1_700_604_800))));
    let just_over = NOW as i64 + EXPIRES_MAX + 1;
    let r = validate_push_value_at(&Property::Expires, submitted(Value::Date(UTCDate::from_timestamp(just_over))), None, NOW);
    assert_eq!(r, Ok(Value::Date(UTCDate::from_timestamp(1_700_604_800))));
}

#[test]
fn expires_in_the_past_is_kept() {
    let r = validate_push_value_at(&Property::Expires, submitted(Value::Date(UTCDate::from_timestamp(-5))), None, NOW);
    assert_eq!(r, Ok(Value::Date(UTCDate::from_timestamp(-5))));
    let r = validate_push_value_at(&Property::Expires, submitted(Value::Date(UTCDate::from_timestamp(i64::MIN))), None, NOW);
    assert_eq!(r, Ok(Value::Date(UTCDate::from_timestamp(i64::MIN))));
}

#[test]
fn expires_null_resets_to_seven_days() {
    let r = validate_push_value_at(&Property::Expires, submitted(Value::Null), None, NOW);
    assert_eq!(r, Ok(Value::Date(UTCDate::from_timestamp(1_700_604_800))));
    let stored = stored_with_code("abc");
    let r = validate_push_value_at(&Property::Expires, submitted(Value::Null), Some(&stored), 0);
    assert_eq!(r, Ok(Value::Date(UTCDate::from_timestamp(604_800))));
}

#[test]
fn expires_is_accepted_on_update() {
    let stored = stored_with_code("abc");
    let r = validate_push_value_at(&Property::Expires, submitted(Value::Date(UTCDate::from_timestamp(NOW as i64 + 60))), Some(&stored), NOW);
    assert_eq!(r, Ok(Value::Date(UTCDate::from_timestamp(NOW as i64 + 60))));
}

#[test]
fn expires_must_be_a_date() {
    let r = validate_push_value_at(&Property::Expires, submitted(Value::UnsignedInt(NOW)), None, NOW);
    assert_eq!(r, Err(could_not_be_set(Property::Expires)));
}

#[test]
fn latest_expiry_is_capped_at_the_last_timestamp() {
    assert_eq!(latest_expiry(0), 604_800);
    assert_eq!(latest_expiry(NOW), 1_700_604_800);
    assert_eq!(latest_expiry(i64::MAX as u64 - 604_800), i64::MAX);
    assert_eq!(latest_expiry(i64::MAX as u64 - 604_799), i64::MAX);
    assert_eq!(latest_expiry(u64::MAX), i64::MAX);
    let r = validate_push_value_at(&Property::Expires, submitted(Value::Date(UTCDate::from_timestamp(i64::MAX))), None, u64::MAX);
    assert_eq!(r, Ok(Value::Date(UTCDate::from_timestamp(i64::MAX))));
}

#[test]
fn types_must_all_be_type_states() {
    let good = Value::List(vec![text("Email"), text("Mailbox"), text("EmailDelivery")]);
    let r = validate_push_value_at(&Property::Types, submitted(good.clone()), None, NOW);
    assert_eq!(r, Ok(good));
    let empty = Value::List(vec![]);
    let r = validate_push_value_at(&Property::Types, submitted(empty.clone()), None, NOW);
    assert_eq!(r, Ok(empty));
    for bad in [
        Value::List(vec![text("Email"), text("email")]),
        Value::List(vec![text("Calendar")]),
        Value::List(vec![Value::UnsignedInt(1)]),
        text("Email"),
    ] {
        let r = validate_push_value_at(&Property::Types, submitted(bad), None, NOW);
        assert_eq!(r, Err(could_not_be_set(Property::Types)));
    }
}

#[test]
fn types_are_accepted_on_update_and_null_clears() {
    let stored = stored_with_code("abc");
    let good = Value::List(vec![text("Thread"), text("Identity"), text("EmailSubmission")]);
    let r = validate_push_value_at(&Property::Types, submitted(good.clone()), Some(&stored), NOW);
    assert_eq!(r, Ok(good));
    let r = validate_push_value_at(&Property::Types, submitted(Value::Null), Some(&stored), NOW);
    assert_eq!(r, Ok(Value::Null));
}

#[test]
fn verification_code_must_match_the_stored_value() {
    let stored = stored_with_code("s3cr3t");
    let r = validate_push_value_at(&Property::VerificationCode, submitted(text("s3cr3t")), Some(&stored), NOW);
    assert_eq!(r, Ok(text("s3cr3t")));
    let r = validate_push_value_at(&Property::VerificationCode, submitted(text("wrong")), Some(&stored), NOW);
    assert_eq!(
        r,
        Err(SetError {
            type_: SetErrorType::InvalidProperties,
            description: Some("Verification code does not match.".to_string()),
            properties: Some(vec![Property::VerificationCode]),
        })
    );
}

#[test]
fn verification_code_needs_a_stored_text_value() {
    let without = Object::with_capacity(0);
    let r = validate_push_value_at(&Property::VerificationCode, submitted(text("x")), Some(&without), NOW);
    assert_eq!(r.unwrap_err().description, Some("Verification code does not match.".to_string()));
    let not_text = Object::with_capacity(1).with_property(Property::Value, Value::UnsignedInt(7));
    let r = validate_push_value_at(&Property::VerificationCode, submitted(text("7")), Some(&not_text), NOW);
    assert_eq!(r.unwrap_err().description, Some("Verification code does not match.".to_string()));
}

#[test]
fn verification_code_is_rejected_on_create_but_null_clears() {
    let r = validate_push_value_at(&Property::VerificationCode, submitted(text("x")), None, NOW);
    assert_eq!(r, Err(could_not_be_set(Property::VerificationCode)));
    let r = validate_push_value_at(&Property::VerificationCode, submitted(Value::Null), None, NOW);
    assert_eq!(r, Ok(Value::Null));
}

#[test]
fn other_properties_and_patches_are_rejected() {
    let r = validate_push_value_at(&Property::Value, submitted(text("x")), None, NOW);
    assert_eq!(r, Err(could_not_be_set(Property::Value)));
    let r = validate_push_value_at(&Property::Name, submitted(text("x")), None, NOW);
    assert_eq!(r, Err(could_not_be_set(Property::Name)));
    let extension = Property::Extension("x-vendor".to_string());
    let r = validate_push_value_at(&extension, submitted(text("x")), None, NOW);
    assert_eq!(r, Err(could_not_be_set(extension)));
    let r = validate_push_value_at(&Property::Types, MaybePatchValue::Patch(vec![text("Email")]), None, NOW);
    assert_eq!(r, Err(could_not_be_set(Property::Types)));
}

#[test]
fn expiry_defaults_to_seven_days_from_the_clock() {
    let before = jmap_core::clock::now() as i64;
    let r = validate_push_value(&Property::Expires, submitted(Value::Null), None);
    let after = jmap_core::clock::now() as i64;
    match r {
        Ok(Value::Date(expires)) => {
            assert!(before + EXPIRES_MAX <= expires.timestamp());
            assert!(expires.timestamp() <= after + EXPIRES_MAX);
            assert!(after - before <= 1);
        }
        other => panic!("unexpected outcome {:?}", other),
    }
}

#[test]
fn clock_reads_a_time_after_2020() {
    assert!(jmap_core::clock::now() > 1_577_836_800);
}
