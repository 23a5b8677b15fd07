use polymarket_scanner::table::KeyedTable;

#[test]
fn empty_table() {
    let t: KeyedTable<u32> = KeyedTable::new();
    assert_eq!(t.len(), 0);
    assert_eq!(t.get("a"), None);
    assert_eq!(t.position("a"), None);
}

#[test]
fn keys_keep_the_place_of_their_arrival() {
    let mut t: KeyedTable<u32> = KeyedTable::new();
    t.insert("b".to_string(), 1);
    t.insert("a".to_string(), 2);
    t.insert("c".to_string(), 3);
    t.insert("a".to_string(), 4);
    assert_eq!(t.len(), 3);
    assert_eq!(t.position("b"), Some(0));
    assert_eq!(t.position("a"), Some(1));
    assert_eq!(t.position("c"), Some(2));
    assert_eq!(t.position("d"), None);
    assert_eq!(t.key_at(0), "b");
    assert_eq!(t.key_at(1), "a");
    assert_eq!(t.key_at(2), "c");
    assert_eq!(*t.value_at(1), 4);
    assert_eq!(t.get("a"), Some(&4));
    assert_eq!(t.get("b"), Some(&1));
    assert_eq!(t.get("c"), Some(&3));
    assert_eq!(t.get(""), None);
}

#[test]
fn values_are_exchanged_in_place() {
    let mut t: KeyedTable<Vec<u32>> = KeyedTable::new();
    t.insert("a".to_string(), vec![1]);
    t.insert("b".to_string(), vec![2]);
    let mut v = vec![9, 9];
    t.swap_value(0, &mut v);
    assert_eq!(v, vec![1]);
    assert_eq!(t.get("a"), Some(&vec![9, 9]));
    assert_eq!(t.get("b"), Some(&vec![2]));
    assert_eq!(t.len(), 2);
    assert_eq!(t.key_at(0), "a");
}

#[test]
fn many_keys() {
    let mut t: KeyedTable<usize> = KeyedTable::new();
    for i in 0..2000 {
        t.insert(format!("key{}", i % 1500), i);
    }
    assert_eq!(t.len(), 1500);
    assert_eq!(t.get("key0"), Some(&1500));
    assert_eq!(t.get("key499"), Some(&1999));
    assert_eq!(t.get("key500"), Some(&500));
    assert_eq!(t.position("key1499"), Some(1499));
}
