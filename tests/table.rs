use generics_modifier::{GenericsError, LinkedTable};

#[test]
fn table_push_and_iterate_in_order() {
    let mut t: LinkedTable<u32> = LinkedTable::new();
    assert!(t.is_empty());
    t.push("b".to_string(), 2).unwrap();
    t.push("a".to_string(), 1).unwrap();
    t.push("c".to_string(), 3).unwrap();
    assert!(!t.is_empty());
    assert_eq!(t.len(), 3);
    let mut it = t.iter();
    let mut seen = Vec::new();
    while let Some(v) = it.next() {
        seen.push(*v);
    }
    assert_eq!(seen, vec![2, 1, 3]);
    assert_eq!(it.next(), None);
}

#[test]
fn table_rejects_duplicate() {
    let mut t: LinkedTable<u32> = LinkedTable::new();
    t.push("a".to_string(), 1).unwrap();
    assert_eq!(t.push("a".to_string(), 9), Err(GenericsError::DuplicateName("a".to_string())));
    assert_eq!(t.len(), 1);
    assert_eq!(*t.value_at(0), 1);
}

#[test]
fn table_get_mut_updates_in_place() {
    let mut t: LinkedTable<u32> = LinkedTable::new();
    t.push("a".to_string(), 1).unwrap();
    t.push("b".to_string(), 2).unwrap();
    *t.get_mut(&"b".to_string()).unwrap() = 20;
    assert!(t.get_mut(&"z".to_string()).is_none());
    assert_eq!(t.position(&"b".to_string()), Some(1));
    assert_eq!(t.position(&"z".to_string()), None);
    let mut it = t.iter();
    assert_eq!(it.next(), Some(&1));
    assert_eq!(it.next(), Some(&20));
    assert_eq!(it.next(), None);
}
