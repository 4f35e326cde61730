use ledger_runtime::keyed_store::KeyedStore;

#[test]
fn keyed_store_starts_empty() {
    let store: KeyedStore<u32> = KeyedStore::new();
    assert_eq!(store.get(&"a".to_string()), None);
    assert_eq!(store.get(&"".to_string()), None);
}

#[test]
fn keyed_store_insert_then_get() {
    let mut store: KeyedStore<u32> = KeyedStore::new();
    store.insert("a".to_string(), 1);
    store.insert("b".to_string(), 2);
    store.insert("".to_string(), 3);
    assert_eq!(store.get(&"a".to_string()), Some(&1));
    assert_eq!(store.get(&"b".to_string()), Some(&2));
    assert_eq!(store.get(&"".to_string()), Some(&3));
    assert_eq!(store.get(&"c".to_string()), None);
}

#[test]
fn keyed_store_insert_overwrites() {
    let mut store: KeyedStore<u32> = KeyedStore::new();
    store.insert("a".to_string(), 1);
    store.insert("b".to_string(), 2);
    store.insert("a".to_string(), 10);
    assert_eq!(store.get(&"a".to_string()), Some(&10));
    assert_eq!(store.get(&"b".to_string()), Some(&2));
}

#[test]
fn keyed_store_remove() {
    let mut store: KeyedStore<String> = KeyedStore::new();
    store.insert("a".to_string(), "x".to_string());
    store.insert("b".to_string(), "y".to_string());
    store.insert("c".to_string(), "z".to_string());
    store.remove(&"b".to_string());
    assert_eq!(store.get(&"a".to_string()), Some(&"x".to_string()));
    assert_eq!(store.get(&"b".to_string()), None);
    assert_eq!(store.get(&"c".to_string()), Some(&"z".to_string()));
    store.remove(&"b".to_string());
    store.remove(&"missing".to_string());
    assert_eq!(store.get(&"a".to_string()), Some(&"x".to_string()));
    store.insert("b".to_string(), "w".to_string());
    assert_eq!(store.get(&"b".to_string()), Some(&"w".to_string()));
}
