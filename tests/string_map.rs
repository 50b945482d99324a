use forma::string_map::FormaMap;

#[test]
fn new_map_is_empty() {
    let m = FormaMap::new();
    assert_eq!(m.len(), 0);
    assert!(!m.contains("a"));
    assert_eq!(m.get("a"), None);
}

#[test]
fn set_get_and_overwrite() {
    let mut m = FormaMap::new();
    m.set("name", "forma");
    m.set("kind", "lang");
    assert_eq!(m.len(), 2);
    assert_eq!(m.get("name"), Some("forma".to_string()));
    m.set("name", "other");
    assert_eq!(m.len(), 2);
    assert_eq!(m.get("name"), Some("other".to_string()));
    assert_eq!(m.get("kind"), Some("lang".to_string()));
}

#[test]
fn remove_reports_presence() {
    let mut m = FormaMap::new();
    m.set("a", "1");
    m.set("b", "2");
    assert!(m.remove("a"));
    assert!(!m.remove("a"));
    assert!(!m.contains("a"));
    assert!(m.contains("b"));
    assert_eq!(m.len(), 1);
    assert!(!m.remove("zzz"));
}

#[test]
fn empty_key_and_value() {
    let mut m = FormaMap::new();
    m.set("", "");
    assert!(m.contains(""));
    assert_eq!(m.get(""), Some(String::new()));
}
