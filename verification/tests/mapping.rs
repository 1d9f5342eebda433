use cry::mapping::Mapping;

fn pair(key: &str, value: &str) -> (String, String) {
    (key.to_string(), value.to_string())
}

#[test]
fn new_mapping_is_empty() {
    let mapping = Mapping::new();
    assert!(mapping.entries().is_empty());
    assert_eq!(mapping.get("py"), None);
}

#[test]
fn insert_then_get_finds_the_value() {
    let mut mapping = Mapping::new();
    assert_eq!(mapping.insert("py".to_string(), "python3".to_string()), None);
    assert_eq!(mapping.get("py"), Some(&"python3".to_string()));
    assert_eq!(mapping.get("rs"), None);
}

#[test]
fn insert_on_a_held_key_replaces_the_value_in_place() {
    let mut mapping = Mapping::new();
    mapping.insert("py".to_string(), "python2".to_string());
    mapping.insert("rs".to_string(), "cargo run".to_string());
    let previous = mapping.insert("py".to_string(), "python3".to_string());
    assert_eq!(previous, Some("python2".to_string()));
    assert_eq!(mapping.entries(), vec![pair("py", "python3"), pair("rs", "cargo run")]);
}

#[test]
fn keys_are_told_apart_exactly() {
    let mut mapping = Mapping::new();
    mapping.insert("py".to_string(), "python3".to_string());
    assert_eq!(mapping.get("PY"), None);
    assert_eq!(mapping.get("py "), None);
    assert_eq!(mapping.get("p"), None);
    assert_eq!(mapping.get(""), None);
}

#[test]
fn the_empty_key_is_a_key_like_any_other() {
    let mut mapping = Mapping::new();
    mapping.insert(String::new(), "cat".to_string());
    assert_eq!(mapping.get(""), Some(&"cat".to_string()));
    assert_eq!(mapping.remove(""), Some("cat".to_string()));
    assert_eq!(mapping.get(""), None);
}

#[test]
fn remove_takes_the_entry_out_and_keeps_the_order_of_the_rest() {
    let mut mapping = Mapping::new();
    mapping.insert("a".to_string(), "1".to_string());
    mapping.insert("b".to_string(), "2".to_string());
    mapping.insert("c".to_string(), "3".to_string());
    assert_eq!(mapping.remove("b"), Some("2".to_string()));
    assert_eq!(mapping.get("b"), None);
    assert_eq!(mapping.entries(), vec![pair("a", "1"), pair("c", "3")]);
}

#[test]
fn remove_of_a_missing_key_changes_nothing() {
    let mut mapping = Mapping::new();
    mapping.insert("a".to_string(), "1".to_string());
    assert_eq!(mapping.remove("z"), None);
    assert_eq!(mapping.entries(), vec![pair("a", "1")]);
}

#[test]
fn entries_come_out_in_the_order_of_arrival() {
    let mut mapping = Mapping::new();
    mapping.insert("zeta".to_string(), "z".to_string());
    mapping.insert("alpha".to_string(), "a".to_string());
    mapping.insert("mid".to_string(), "m".to_string());
    assert_eq!(mapping.entries(), vec![pair("zeta", "z"), pair("alpha", "a"), pair("mid", "m")]);
}

#[test]
fn from_entries_lets_the_later_of_two_equal_keys_win() {
    let mapping =
        Mapping::from_entries(vec![pair("py", "python2"), pair("rs", "cargo"), pair("py", "python3")]);
    assert_eq!(mapping.entries(), vec![pair("py", "python3"), pair("rs", "cargo")]);
}

#[test]
fn from_entries_of_entries_gives_the_same_mapping() {
    let mut mapping = Mapping::new();
    mapping.insert("b".to_string(), "2".to_string());
    mapping.insert("a".to_string(), "1".to_string());
    let rebuilt = Mapping::from_entries(mapping.entries());
    assert_eq!(rebuilt, mapping);
    assert_eq!(rebuilt.entries(), vec![pair("b", "2"), pair("a", "1")]);
}

#[test]
fn clone_holds_the_same_entries() {
    let mut mapping = Mapping::new();
    mapping.insert("b".to_string(), "2".to_string());
    mapping.insert("a".to_string(), "1".to_string());
    let copy = mapping.clone();
    assert_eq!(copy, mapping);
    mapping.insert("c".to_string(), "3".to_string());
    assert_eq!(copy.entries(), vec![pair("b", "2"), pair("a", "1")]);
}
