use cpdb_rs::maps::StrMap;

#[test]
fn str_map_insert_replace_remove() {
    let mut m: StrMap<String> = StrMap::new();
    assert!(m.is_empty());
    m.insert("a".to_string(), "1".to_string());
    m.insert("b".to_string(), "2".to_string());
    m.insert("a".to_string(), "3".to_string());
    assert_eq!(m.len(), 2);
    assert_eq!(m.get("a").map(|s| s.as_str()), Some("3"));
    assert!(m.contains_key("b"));
    assert_eq!(m.take("b"), Some("2".to_string()));
    assert_eq!(m.take("b"), None);
    m.remove("a");
    assert!(m.is_empty());
}

#[test]
fn str_map_extend_prefers_right() {
    let mut left: StrMap<String> = StrMap::new();
    left.insert("x".to_string(), "1".to_string());
    left.insert("y".to_string(), "2".to_string());
    let mut right: StrMap<String> = StrMap::new();
    right.insert("y".to_string(), "20".to_string());
    right.insert("z".to_string(), "30".to_string());
    let copy = left.clone_map();
    left.extend_from(&right);
    assert_eq!(left.len(), 3);
    assert_eq!(left.get("x").map(|s| s.as_str()), Some("1"));
    assert_eq!(left.get("y").map(|s| s.as_str()), Some("20"));
    assert_eq!(left.get("z").map(|s| s.as_str()), Some("30"));
    assert_eq!(copy.len(), 2);
    assert_eq!(copy.get("y").map(|s| s.as_str()), Some("2"));
    let mut keys = Vec::new();
    for i in 0..left.entry_count() {
        keys.push(left.entry(i).0.clone());
    }
    keys.sort();
    assert_eq!(keys, vec!["x", "y", "z"]);
}

#[test]
fn str_maps_compare_by_entries_not_order() {
    let mut a: StrMap<String> = StrMap::new();
    a.insert("x".to_string(), "1".to_string());
    a.insert("y".to_string(), "2".to_string());
    let mut b: StrMap<String> = StrMap::new();
    b.insert("y".to_string(), "2".to_string());
    b.insert("x".to_string(), "1".to_string());
    assert!(a == b);
    b.insert("y".to_string(), "3".to_string());
    assert!(a != b);
    b.remove("y");
    assert!(a != b);
}
