use jmap_core::object::Object;
use jmap_core::types::property::Property;
use jmap_core::types::value::Value;

fn text(s: &str) -> Value {
    Value::Text(s.to_string())
}

#[test]
fn set_then_get_returns_the_value() {
    let mut object = Object::with_capacity(1);
    assert!(object.set(Property::Name, text("inbox")));
    assert_eq!(object.get(&Property::Name), &text("inbox"));
}

#[test]
fn set_overwrites_in_place() {
    let mut object = Object::with_capacity(2);
    object.append(Property::Name, text("a"));
    object.append(Property::Role, text("b"));
    assert!(!object.set(Property::Name, text("c")));
    assert_eq!(object.len(), 2);
    assert_eq!(object.properties[0], (Property::Name, text("c")));
    assert_eq!(object.properties[1], (Property::Role, text("b")));
}

#[test]
fn append_permits_duplicates_and_get_returns_the_first() {
    let mut object = Object::with_capacity(2);
    object.append(Property::Name, text("v1"));
    object.append(Property::Name, text("v2"));
    assert_eq!(object.len(), 2);
    assert_eq!(object.get(&Property::Name), &text("v1"));
}

#[test]
fn remove_of_absent_property_returns_null() {
    let mut object = Object::with_capacity(1).with_property(Property::Name, text("a"));
    assert_eq!(object.remove(&Property::Url), Value::Null);
    assert_eq!(object.len(), 1);
}

#[test]
fn remove_returns_the_former_value_and_keeps_order() {
    let mut object = Object::with_capacity(3)
        .with_property(Property::Name, text("a"))
        .with_property(Property::Role, text("b"))
        .with_property(Property::Url, text("c"));
    assert_eq!(object.remove(&Property::Name), text("a"));
    assert_eq!(object.properties[0].0, Property::Role);
    assert_eq!(object.properties[1].0, Property::Url);
    assert!(!object.contains_key(&Property::Name));
}

#[test]
fn get_of_absent_property_returns_null() {
    let object = Object::with_capacity(0);
    assert_eq!(object.get(&Property::Keys), &Value::Null);
}

#[test]
fn extension_properties_compare_by_name() {
    let mut object = Object::with_capacity(2);
    object.set(Property::Extension("a".to_string()), text("1"));
    object.set(Property::Extension("b".to_string()), text("2"));
    object.set(Property::Extension("a".to_string()), text("3"));
    assert_eq!(object.len(), 2);
    assert_eq!(object.get(&Property::Extension("a".to_string())), &text("3"));
    assert_eq!(object.get(&Property::Extension("b".to_string())), &text("2"));
}
