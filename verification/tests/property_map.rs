use powerprofiles::dbus::properties::{PropertyMap, PropertyValue};

#[test]
fn get_returns_what_insert_stored() {
    let mut map = PropertyMap::new();
    assert_eq!(map.insert("ActiveProfile".to_owned(), PropertyValue::Str("balanced".to_owned())), None);
    assert_eq!(map.insert("Version".to_owned(), PropertyValue::Other), None);
    assert_eq!(map.get("ActiveProfile"), Some(&PropertyValue::Str("balanced".to_owned())));
    assert_eq!(map.get("Version"), Some(&PropertyValue::Other));
    assert_eq!(map.get("Profiles"), None);
    assert!(map.contains_key("Version"));
    assert!(!map.contains_key("version"));
}

#[test]
fn insert_replaces_and_returns_previous_value() {
    let mut map = PropertyMap::new();
    map.insert("ActiveProfile".to_owned(), PropertyValue::Str("balanced".to_owned()));
    let previous = map.insert("ActiveProfile".to_owned(), PropertyValue::Str("performance".to_owned()));
    assert_eq!(previous, Some(PropertyValue::Str("balanced".to_owned())));
    assert_eq!(map.get("ActiveProfile").and_then(|v| v.as_str()), Some("performance"));
}

#[test]
fn remove_deletes_only_its_key() {
    let mut map = PropertyMap::new();
    map.insert("a".to_owned(), PropertyValue::Str("1".to_owned()));
    map.insert("b".to_owned(), PropertyValue::Str("2".to_owned()));
    assert_eq!(map.remove("a"), Some(PropertyValue::Str("1".to_owned())));
    assert_eq!(map.remove("a"), None);
    assert!(!map.contains_key("a"));
    assert_eq!(map.get("b"), Some(&PropertyValue::Str("2".to_owned())));
}

#[test]
fn as_str_reads_only_strings() {
    assert_eq!(PropertyValue::Str("x".to_owned()).as_str(), Some("x"));
    assert_eq!(PropertyValue::Other.as_str(), None);
}
