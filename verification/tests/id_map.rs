use live_player::id_map::IdMap;

#[test]
fn insert_replaces_in_place() {
    let mut map: IdMap<u32> = IdMap::new();
    assert_eq!(map.len(), 0);
    assert_eq!(map.insert("a".to_string(), 1), None);
    assert_eq!(map.insert("b".to_string(), 2), None);
    assert_eq!(map.insert("a".to_string(), 3), Some(1));
    assert_eq!(map.len(), 2);
    assert_eq!(map.keys(), vec!["a".to_string(), "b".to_string()]);
    assert_eq!(map.get("a"), Some(&3));
    assert_eq!(map.get("b"), Some(&2));
    assert_eq!(map.get("c"), None);
    assert_eq!(map.position("b"), Some(1));
    assert_eq!(map.position("c"), None);
    assert_eq!(map.key_at(1), Some(&"b".to_string()));
    assert_eq!(map.key_at(2), None);
    assert_eq!(map.value_at(0), Some(&3));
    assert_eq!(map.value_at(2), None);
}

#[test]
fn remove_and_clear() {
    let mut map: IdMap<&'static str> = IdMap::new();
    map.insert("a".to_string(), "x");
    map.insert("b".to_string(), "y");
    map.insert("c".to_string(), "z");
    assert!(map.contains_key("b"));
    assert_eq!(map.remove("b"), Some("y"));
    assert_eq!(map.remove("b"), None);
    assert!(!map.contains_key("b"));
    assert_eq!(map.keys(), vec!["a".to_string(), "c".to_string()]);
    map.clear();
    assert_eq!(map.len(), 0);
    assert!(!map.contains_key("a"));
}
