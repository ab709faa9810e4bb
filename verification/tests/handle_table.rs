use autd3capi_link_soem::handle::{HandleTable, NULL_HANDLE};

#[test]
fn a_new_table_knows_no_handle() {
    let table: HandleTable<u32> = HandleTable::new();
    assert!(table.get(NULL_HANDLE).is_none());
    assert!(table.get(1).is_none());
    assert!(table.get(usize::MAX).is_none());
}

#[test]
fn handles_are_issued_in_order_from_one() {
    let mut table = HandleTable::new();
    assert_eq!(table.insert("a"), 1);
    assert_eq!(table.insert("b"), 2);
    assert_eq!(table.insert("c"), 3);
    assert_eq!(table.get(1), Some(&"a"));
    assert_eq!(table.get(2), Some(&"b"));
    assert_eq!(table.get(3), Some(&"c"));
    assert_eq!(table.get(4), None);
}

#[test]
fn a_value_is_taken_once() {
    let mut table = HandleTable::new();
    let h = table.insert(String::from("only"));
    assert_eq!(table.take(h), Some(String::from("only")));
    assert_eq!(table.take(h), None);
    assert_eq!(table.get(h), None);
}

#[test]
fn taking_one_value_leaves_the_others() {
    let mut table = HandleTable::new();
    let a = table.insert(10u8);
    let b = table.insert(20u8);
    let c = table.insert(30u8);
    assert_eq!(table.take(b), Some(20));
    assert_eq!(table.get(a), Some(&10));
    assert_eq!(table.get(b), None);
    assert_eq!(table.get(c), Some(&30));
}

#[test]
fn a_dead_handle_is_never_issued_again() {
    let mut table = HandleTable::new();
    let first = table.insert(1u8);
    assert_eq!(table.take(first), Some(1));
    let second = table.insert(2u8);
    assert_ne!(first, second);
    assert_eq!(table.get(first), None);
    assert_eq!(table.get(second), Some(&2));
}

#[test]
fn the_null_handle_takes_nothing() {
    let mut table = HandleTable::new();
    table.insert(7u8);
    assert_eq!(table.take(NULL_HANDLE), None);
    assert_eq!(table.get(1), Some(&7));
}
