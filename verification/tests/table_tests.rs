use gert::table::Table;

#[test]
fn new_table_holds_nothing() {
    let table: Table<u32> = Table::new();
    assert_eq!(table.get("a"), None);
    assert_eq!(table.get(""), None);
    assert!(table.entries().is_empty());
}

#[test]
fn insert_stores_a_value_for_a_key() {
    let mut table = Table::new();
    table.insert(String::from("jpg"), 1);
    table.insert(String::from("png"), 2);
    assert_eq!(table.get("jpg"), Some(&1));
    assert_eq!(table.get("png"), Some(&2));
    assert_eq!(table.get("gif"), None);
    assert_eq!(table.get("JPG"), None);
}

#[test]
fn insert_replaces_what_was_stored() {
    let mut table = Table::new();
    table.insert(String::from("a"), 1);
    table.insert(String::from("b"), 2);
    table.insert(String::from("a"), 3);
    assert_eq!(table.get("a"), Some(&3));
    assert_eq!(table.get("b"), Some(&2));
    let mut keys: Vec<&str> = table.entries().iter().map(|e| e.key.as_str()).collect();
    keys.sort();
    assert_eq!(keys, vec!["a", "b"]);
}

#[test]
fn clone_keeps_keys_and_values() {
    let mut table = Table::new();
    table.insert(String::from("a"), String::from("x"));
    table.insert(String::from("b"), String::from("y"));
    let copy = table.clone();
    table.insert(String::from("a"), String::from("z"));
    assert_eq!(copy.get("a"), Some(&String::from("x")));
    assert_eq!(copy.get("b"), Some(&String::from("y")));
    assert_eq!(copy.entries().len(), 2);
    assert_eq!(table.get("a"), Some(&String::from("z")));
}
