use sealed_mail::labels::TextMap;

#[test]
fn text_map_insert_and_lookup() {
    let mut m = TextMap::new();
    assert!(m.is_empty());
    m.insert("x".to_string(), "1".to_string());
    m.insert("y".to_string(), "2".to_string());
    assert_eq!(m.len(), 2);
    assert!(m.contains_key("x"));
    assert!(!m.contains_key("z"));
    assert_eq!(m.get("y").map(|v| v.as_str()), Some("2"));
    assert_eq!(m.get("z"), None);
}

#[test]
fn text_map_insert_replaces_in_place() {
    let mut m = TextMap::new();
    m.insert("a".to_string(), "1".to_string());
    m.insert("b".to_string(), "2".to_string());
    m.insert("a".to_string(), "3".to_string());
    assert_eq!(m.len(), 2);
    assert_eq!(m.get("a").map(|v| v.as_str()), Some("3"));
    assert_eq!(m.keys_in_order(), vec!["a".to_string(), "b".to_string()]);
}
