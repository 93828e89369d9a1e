use beast_glatisant::table::Table;

#[test]
fn table_starts_empty() {
    let table: Table<u32> = Table::new();
    assert_eq!(table.get("a"), None);
    assert_eq!(table.get(""), None);
}

#[test]
fn table_insert_then_get() {
    let mut table: Table<u32> = Table::new();
    table.insert("a".to_string(), 1);
    table.insert("b".to_string(), 2);
    table.insert(String::new(), 3);
    assert_eq!(table.get("a"), Some(&1));
    assert_eq!(table.get("b"), Some(&2));
    assert_eq!(table.get(""), Some(&3));
    assert_eq!(table.get("c"), None);
}

#[test]
fn table_insert_replaces() {
    let mut table: Table<&str> = Table::new();
    table.insert("a".to_string(), "one");
    table.insert("b".to_string(), "two");
    table.insert("a".to_string(), "three");
    assert_eq!(table.get("a"), Some(&"three"));
    assert_eq!(table.get("b"), Some(&"two"));
    table.remove("a");
    assert_eq!(table.get("a"), None);
}

#[test]
fn table_remove_takes_one_key_out() {
    let mut table: Table<u32> = Table::new();
    for (i, key) in ["a", "b", "c", "d"].iter().enumerate() {
        table.insert(key.to_string(), i as u32);
    }
    table.remove("b");
    table.remove("missing");
    assert_eq!(table.get("a"), Some(&0));
    assert_eq!(table.get("b"), None);
    assert_eq!(table.get("c"), Some(&2));
    assert_eq!(table.get("d"), Some(&3));
    table.remove("a");
    table.remove("d");
    table.remove("c");
    assert_eq!(table.get("c"), None);
    table.insert("b".to_string(), 9);
    assert_eq!(table.get("b"), Some(&9));
}
