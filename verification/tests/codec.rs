use jmap_core::codec::leb128::next_leb128;
use jmap_core::codec::leb128::push_leb128;
use jmap_core::error::StoreError;
use jmap_core::object::Object;
use jmap_core::types::blob::BlobId;
use jmap_core::types::date::UTCDate;
use jmap_core::types::id::Id;
use jmap_core::types::keyword::Keyword;
use jmap_core::types::property::Property;
use jmap_core::types::value::Value;

fn round_trip(value: Value) {
    let bytes = value.clone().serialize();
    let (back, end) = Value::deserialize_from(&bytes, 0).expect("value decodes");
    assert_eq!(back, value);
    assert_eq!(end, bytes.len());
    assert_eq!(Value::deserialize(&bytes), Ok(value));
}

#[test]
fn leb128_small_numbers_take_one_byte() {
    let mut buf = Vec::new();
    push_leb128(&mut buf, 0);
    push_leb128(&mut buf, 127);
    assert_eq!(buf, vec![0, 127]);
}

#[test]
fn leb128_known_encodings() {
    let mut buf = Vec::new();
    push_leb128(&mut buf, 128);
    assert_eq!(buf, vec![0x80, 0x01]);
    let mut buf = Vec::new();
    push_leb128(&mut buf, 300);
    assert_eq!(buf, vec![0xac, 0x02]);
    let mut buf = Vec::new();
    push_leb128(&mut buf, u64::MAX);
    assert_eq!(buf, vec![0xff, 0xff, 0xff, 0xff, 0xff, 0xff, 0xff, 0xff, 0xff, 0x01]);
}

#[test]
fn leb128_reads_back_what_was_written() {
    for value in [0u64, 1, 127, 128, 255, 16383, 16384, 1 << 32, u64::MAX - 1, u64::MAX] {
        let mut buf = vec![9, 9];
        push_leb128(&mut buf, value);
        let end = buf.len();
        buf.push(7);
        assert_eq!(next_leb128(&buf, 2), Some((value, end)));
    }
}

#[test]
fn leb128_rejects_truncated_input() {
    assert_eq!(next_leb128(&[], 0), None);
    assert_eq!(next_leb128(&[0x80], 0), None);
    assert_eq!(next_leb128(&[0x80, 0x80], 0), None);
    assert_eq!(next_leb128(&[1], 1), None);
}

#[test]
fn leb128_rejects_numbers_beyond_64_bits() {
    let too_big = [0xff, 0xff, 0xff, 0xff, 0xff, 0xff, 0xff, 0xff, 0xff, 0x02];
    assert_eq!(next_leb128(&too_big, 0), None);
    let too_long = [0x80, 0x80, 0x80, 0x80, 0x80, 0x80, 0x80, 0x80, 0x80, 0x80, 0x00];
    assert_eq!(next_leb128(&too_long, 0), None);
}

#[test]
fn tag_table_is_frozen() {
    assert_eq!(Value::Text(String::new()).serialize(), vec![0, 0]);
    assert_eq!(Value::UnsignedInt(5).serialize(), vec![1, 5]);
    assert_eq!(Value::Bool(true).serialize(), vec![2]);
    assert_eq!(Value::Bool(false).serialize(), vec![3]);
    assert_eq!(Value::Id(Id::new(300)).serialize(), vec![4, 0xac, 0x02]);
    assert_eq!(Value::Date(UTCDate::from_timestamp(1)).serialize(), vec![5, 1]);
    assert_eq!(Value::BlobId(BlobId::new(1, 2, 3)).serialize(), vec![6, 1, 2, 3]);
    assert_eq!(Value::Blob(vec![0xaa, 0xbb]).serialize(), vec![7, 2, 0xaa, 0xbb]);
    assert_eq!(Value::Keyword(Keyword::Seen).serialize(), vec![8, 0]);
    assert_eq!(Value::List(vec![Value::Null]).serialize(), vec![9, 1, 11]);
    assert_eq!(Value::Object(Object::with_capacity(0)).serialize(), vec![10, 0]);
    assert_eq!(Value::Null.serialize(), vec![11]);
}

#[test]
fn text_is_length_prefixed_utf8() {
    let bytes = Value::Text("h\u{e9}".to_string()).serialize();
    assert_eq!(bytes, vec![0, 3, b'h', 0xc3, 0xa9]);
    round_trip(Value::Text("h\u{e9}llo \u{1f600}".to_string()));
}

#[test]
fn every_kind_round_trips() {
    round_trip(Value::Text("hello".to_string()));
    round_trip(Value::UnsignedInt(u64::MAX));
    round_trip(Value::Bool(true));
    round_trip(Value::Bool(false));
    round_trip(Value::Id(Id::new(0xdead_beef_0000_0001)));
    round_trip(Value::Date(UTCDate::from_timestamp(311923920)));
    round_trip(Value::BlobId(BlobId::new(u32::MAX, 255, 0)));
    round_trip(Value::Blob(vec![0, 1, 2, 255]));
    round_trip(Value::Keyword(Keyword::MdnSent));
    round_trip(Value::Keyword(Keyword::Other("$custom".to_string())));
    round_trip(Value::List(vec![Value::Text("a".to_string()), Value::UnsignedInt(1), Value::Null]));
    round_trip(Value::Null);
}

#[test]
fn dates_round_trip_over_the_whole_range() {
    for timestamp in [i64::MIN, i64::MIN + 1, -1, 0, 1, i64::MAX - 1, i64::MAX] {
        round_trip(Value::Date(UTCDate::from_timestamp(timestamp)));
    }
}

#[test]
fn negative_date_is_written_as_its_unsigned_bits() {
    let bytes = Value::Date(UTCDate::from_timestamp(-1)).serialize();
    assert_eq!(bytes, vec![5, 0xff, 0xff, 0xff, 0xff, 0xff, 0xff, 0xff, 0xff, 0xff, 0x01]);
}

#[test]
fn unknown_tag_decodes_to_no_value() {
    for tag in 12u8..=255 {
        assert_eq!(Value::deserialize_from(&[tag, 0, 0, 0], 0), None);
    }
    assert!(matches!(Value::deserialize(&[12]), Err(StoreError::InternalError(_))));
}

#[test]
fn truncated_input_decodes_to_no_value() {
    let bytes = Value::List(vec![Value::Text("abc".to_string()), Value::UnsignedInt(300)]).serialize();
    for len in 0..bytes.len() {
        assert_eq!(Value::deserialize_from(&bytes[..len], 0), None);
    }
}

#[test]
fn invalid_utf8_decodes_to_no_value() {
    assert_eq!(Value::deserialize_from(&[0, 2, 0xc3, 0x28], 0), None);
    assert_eq!(Value::deserialize_from(&[0, 1, 0xff], 0), None);
}

#[test]
fn trailing_bytes_are_ignored() {
    let mut bytes = Value::UnsignedInt(300).serialize();
    let end = bytes.len();
    bytes.extend_from_slice(&[1, 2, 3]);
    assert_eq!(Value::deserialize_from(&bytes, 0), Some((Value::UnsignedInt(300), end)));
    assert_eq!(Value::deserialize(&bytes), Ok(Value::UnsignedInt(300)));
}

fn nested(levels: usize) -> Value {
    let mut value = Value::Null;
    for _ in 0..levels {
        value = Value::List(vec![value]);
    }
    value
}

#[test]
fn nesting_up_to_the_limit_round_trips() {
    round_trip(nested(64));
}

#[test]
fn nesting_beyond_the_limit_decodes_to_no_value() {
    let bytes = nested(65).serialize();
    assert_eq!(Value::deserialize_from(&bytes, 0), None);
}

#[test]
fn object_round_trip_keeps_property_order() {
    let object = Object::with_capacity(2)
        .with_property(Property::Expires, Value::Date(UTCDate::from_timestamp(0)))
        .with_property(
            Property::Types,
            Value::List(vec![Value::Text("Email".to_string()), Value::Text("Mailbox".to_string())]),
        );
    let bytes = object.serialize();
    let back = Object::deserialize(&bytes).expect("object decodes");
    assert_eq!(back, object);
    assert_eq!(back.properties[0].0, Property::Expires);
    assert_eq!(back.properties[1].0, Property::Types);
    assert_eq!(
        bytes,
        vec![2, 18, 5, 0, 19, 9, 2, 0, 5, b'E', b'm', b'a', b'i', b'l', 0, 7, b'M', b'a', b'i', b'l', b'b', b'o', b'x']
    );
}

#[test]
fn object_round_trip_keeps_duplicates_and_extensions() {
    let object = Object::with_capacity(3)
        .with_property(Property::Url, Value::Text("first".to_string()))
        .with_property(Property::Extension("x-vendor".to_string()), Value::Bool(true))
        .with_property(Property::Url, Value::Text("second".to_string()));
    let bytes = object.serialize();
    let (back, end) = Object::deserialize_from(&bytes, 0).expect("object decodes");
    assert_eq!(end, bytes.len());
    assert_eq!(back, object);
    round_trip(Value::Object(object));
}

#[test]
fn object_with_unknown_property_tag_fails() {
    assert!(matches!(Object::deserialize(&[1, 200, 11]), Err(StoreError::InternalError(_))));
    assert_eq!(
        Object::deserialize(&[1, 200, 11]),
        Err(StoreError::InternalError("Failed to deserialize object.".to_string()))
    );
    assert_eq!(
        Value::deserialize(&[]),
        Err(StoreError::InternalError("Failed to deserialize value.".to_string()))
    );
}
