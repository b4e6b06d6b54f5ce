use jmap_core::object::index::BitmapKey;
use jmap_core::object::index::Operation;
use jmap_core::object::index::ValueClass;
use jmap_core::object::Object;
use jmap_core::types::blob::BlobId;
use jmap_core::types::date::UTCDate;
use jmap_core::types::id::Id;
use jmap_core::types::keyword::Keyword;
use jmap_core::types::property::Property;
use jmap_core::types::state::StateChange;
use jmap_core::types::type_state::TypeState;
use jmap_core::types::value::Value;

fn text(s: &str) -> Value {
    Value::Text(s.to_string())
}

#[test]
fn property_tags_are_stable() {
    assert_eq!(Property::Id.tag(), 0);
    assert_eq!(Property::DeviceClientId.tag(), 15);
    assert_eq!(Property::Url.tag(), 16);
    assert_eq!(Property::Keys.tag(), 17);
    assert_eq!(Property::Expires.tag(), 18);
    assert_eq!(Property::Types.tag(), 19);
    assert_eq!(Property::VerificationCode.tag(), 20);
    assert_eq!(Property::Value.tag(), 21);
    assert_eq!(Property::Auth.tag(), 22);
    assert_eq!(Property::P256dh.tag(), 23);
    assert_eq!(Property::Destroyed.tag(), 28);
    assert_eq!(Property::Extension("x".to_string()).tag(), 255);
}

#[test]
fn every_property_tag_reads_back() {
    for tag in 0u8..=28 {
        let property = Property::from_tag(tag).expect("well-known tag");
        assert_eq!(property.tag(), tag);
        let mut buf = Vec::new();
        property.serialize_into(&mut buf);
        assert_eq!(buf, vec![tag]);
        assert_eq!(Property::deserialize_from(&buf, 0), Some((property.clone(), 1)));
        assert_eq!(property.clone(), property);
    }
    for tag in 29u8..=255 {
        assert_eq!(Property::from_tag(tag), None);
    }
}

#[test]
fn extension_property_is_written_as_text() {
    let property = Property::Extension("x-\u{e9}".to_string());
    let mut buf = vec![7];
    property.serialize_into(&mut buf);
    assert_eq!(buf, vec![7, 255, 4, b'x', b'-', 0xc3, 0xa9]);
    assert_eq!(Property::deserialize_from(&buf, 1), Some((property.clone(), 7)));
    assert_eq!(property.clone(), property);
    assert_eq!(Property::deserialize_from(&[255, 2, b'a'], 0), None);
    assert_eq!(Property::deserialize_from(&[255, 1, 0xff], 0), None);
    assert_eq!(Property::deserialize_from(&[200], 0), None);
    assert_eq!(Property::deserialize_from(&[], 0), None);
}

#[test]
fn properties_compare_by_tag_and_name() {
    assert_eq!(Property::Url, Property::Url);
    assert_ne!(Property::Url, Property::Keys);
    assert_eq!(Property::Extension("a".to_string()), Property::Extension("a".to_string()));
    assert_ne!(Property::Extension("a".to_string()), Property::Extension("b".to_string()));
    assert_ne!(Property::Extension("Url".to_string()), Property::Url);
    assert_ne!(Property::Url, Property::Extension("Url".to_string()));
}

#[test]
fn every_keyword_tag_reads_back() {
    for tag in 0u8..=11 {
        let keyword = Keyword::from_tag(tag).expect("system keyword");
        assert_eq!(keyword.tag(), tag);
        let mut buf = Vec::new();
        keyword.serialize_into(&mut buf);
        assert_eq!(buf, vec![tag]);
        assert_eq!(Keyword::deserialize_from(&buf, 0), Some((keyword.clone(), 1)));
    }
    assert_eq!(Keyword::from_tag(12), None);
    let custom = Keyword::Other("$label".to_string());
    let mut buf = Vec::new();
    custom.serialize_into(&mut buf);
    assert_eq!(buf, vec![255, 6, b'$', b'l', b'a', b'b', b'e', b'l']);
    assert_eq!(Keyword::deserialize_from(&buf, 0), Some((custom.clone(), 8)));
    assert_eq!(custom.clone(), custom);
    assert_eq!(Keyword::deserialize_from(&[12], 0), None);
}

#[test]
fn blob_id_reads_back() {
    let blob = BlobId::new(300, 7, u32::MAX);
    let mut buf = Vec::new();
    blob.serialize_into(&mut buf);
    assert_eq!(buf, vec![0xac, 0x02, 7, 0xff, 0xff, 0xff, 0xff, 0x0f]);
    assert_eq!(BlobId::deserialize_from(&buf, 0), Some((blob, 8)));
    assert_eq!(BlobId::deserialize_from(&buf[..7], 0), None);
    assert_eq!(BlobId::deserialize_from(&[0xff, 0xff, 0xff, 0xff, 0x10, 0, 0], 0), None);
    assert_eq!(BlobId::deserialize_from(&[1, 0, 0xff, 0xff, 0xff, 0xff, 0x10], 0), None);
    assert_eq!(BlobId::deserialize_from(&[1], 0), None);
}

#[test]
fn date_wire_form_is_the_same_bits() {
    assert_eq!(UTCDate::from_timestamp(0).to_wire(), 0);
    assert_eq!(UTCDate::from_timestamp(-1).to_wire(), u64::MAX);
    assert_eq!(UTCDate::from_timestamp(i64::MIN).to_wire(), 1 << 63);
    assert_eq!(UTCDate::from_timestamp(i64::MAX).to_wire(), (1 << 63) - 1);
    for timestamp in [i64::MIN, -2, -1, 0, 1, 311923920, i64::MAX] {
        assert_eq!(UTCDate::from_timestamp(timestamp).to_wire(), timestamp as u64);
        assert_eq!(UTCDate::from_wire(timestamp as u64).timestamp(), timestamp);
    }
}

#[test]
fn type_states_parse_by_name() {
    for state in [
        TypeState::Email,
        TypeState::EmailDelivery,
        TypeState::EmailSubmission,
        TypeState::Mailbox,
        TypeState::Thread,
        TypeState::Identity,
    ] {
        assert_eq!(TypeState::parse(state.as_str()), Some(state));
    }
    assert_eq!(TypeState::Email.as_str(), "Email");
    assert_eq!(TypeState::parse("email"), None);
    assert_eq!(TypeState::parse("Email "), None);
    assert_eq!(TypeState::parse(""), None);
    assert_eq!(TypeState::parse("Calendar"), None);
}

#[test]
fn value_reads_as_text_only_if_it_is_text() {
    assert_eq!(text("a").as_string(), Some("a"));
    assert_eq!(Value::UnsignedInt(1).as_string(), None);
    assert_eq!(Value::Null.as_string(), None);
}

#[test]
fn value_clone_is_deep() {
    let value = Value::List(vec![
        text("a"),
        Value::Object(
            Object::with_capacity(2)
                .with_property(Property::Extension("x".to_string()), Value::Blob(vec![1, 2]))
                .with_property(Property::Keywords, Value::Keyword(Keyword::Other("k".to_string()))),
        ),
        Value::Date(UTCDate::from_timestamp(-1)),
        Value::BlobId(BlobId::new(1, 2, 3)),
        Value::Id(Id::new(4)),
        Value::Bool(true),
        Value::Null,
    ]);
    assert_eq!(value.clone(), value);
    let object = Object::with_capacity(1).with_property(Property::List, value);
    assert_eq!(object.duplicate(), object);
}

#[test]
fn default_object_is_empty() {
    let object: Object<Value> = Object::default();
    assert_eq!(object.len(), 0);
}

#[test]
fn text_keyword_and_number_are_indexed() {
    let mut ops = Vec::new();
    text("hello").to_bitmaps(&mut ops, 3, true);
    Value::Keyword(Keyword::Seen).to_bitmaps(&mut ops, 4, false);
    Value::UnsignedInt(9).to_bitmaps(&mut ops, 5, true);
    assert_eq!(
        ops,
        vec![
            Operation { field: 3, key: BitmapKey::Text("hello".to_string()), set: true },
            Operation { field: 4, key: BitmapKey::Keyword(Keyword::Seen), set: false },
            Operation { field: 5, key: BitmapKey::UnsignedInt(9), set: true },
        ]
    );
}

#[test]
fn other_values_are_not_indexed() {
    let mut ops = Vec::new();
    for value in [
        Value::Null,
        Value::Bool(true),
        Value::Id(Id::new(1)),
        Value::Date(UTCDate::from_timestamp(1)),
        Value::Blob(vec![1]),
        Value::BlobId(BlobId::new(1, 2, 3)),
        Value::Object(Object::with_capacity(1).with_property(Property::Name, text("x"))),
    ] {
        value.to_bitmaps(&mut ops, 1, true);
    }
    assert!(ops.is_empty());
}

#[test]
fn list_items_are_indexed_one_level_deep() {
    let value = Value::List(vec![
        text("a"),
        Value::Bool(true),
        Value::UnsignedInt(2),
        Value::List(vec![text("nested")]),
        Value::Keyword(Keyword::Draft),
    ]);
    let mut ops = vec![Operation { field: 0, key: BitmapKey::UnsignedInt(0), set: false }];
    value.to_bitmaps(&mut ops, 8, true);
    assert_eq!(
        ops,
        vec![
            Operation { field: 0, key: BitmapKey::UnsignedInt(0), set: false },
            Operation { field: 8, key: BitmapKey::Text("a".to_string()), set: true },
            Operation { field: 8, key: BitmapKey::UnsignedInt(2), set: true },
            Operation { field: 8, key: BitmapKey::Keyword(Keyword::Draft), set: true },
        ]
    );
}

#[test]
fn value_class_of_a_property_is_its_tag_in_family_zero() {
    assert_eq!(ValueClass::from(Property::Value), ValueClass::Property { field: 21, family: 0 });
    assert_eq!(ValueClass::from(Property::Id), ValueClass::Property { field: 0, family: 0 });
}

#[test]
fn state_change_collects_types() {
    let change = StateChange::new(3).with_change(TypeState::Email, 1).with_change(TypeState::Mailbox, 2);
    assert_eq!(change.account_id, 3);
    assert_eq!(change.types, vec![(TypeState::Email, 1), (TypeState::Mailbox, 2)]);
}
