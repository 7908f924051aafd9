use linked_stack::bad_stack::List;

#[test]
fn bad_stack_basics() {
    let mut list = List::new();

    // empty list should return nothing upon pop
    assert_eq!(list.pop(), None);

    list.push(1);
    list.push(2);
    list.push(3);

    // populated list returns expected results upon pop
    assert_eq!(list.pop(), Some(3));
    assert_eq!(list.pop(), Some(2));

    list.push(4);

    // another check
    assert_eq!(list.pop(), Some(4));
    assert_eq!(list.pop(), Some(1));
    assert_eq!(list.pop(), None);
}

#[test]
fn bad_stack_pop_on_new_is_none_twice() {
    let mut list = List::new();
    assert_eq!(list.pop(), None);
    assert_eq!(list.pop(), None);
}

#[test]
fn bad_stack_push_then_pop_round_trip() {
    let mut list = List::new();
    list.push(10);
    list.push(-7);
    assert_eq!(list.pop(), Some(-7));
    assert_eq!(list.pop(), Some(10));
    assert_eq!(list.pop(), None);
}

#[test]
fn bad_stack_lifo_order() {
    let mut list = List::new();
    for i in 0..50 {
        list.push(i);
    }
    for i in (0..50).rev() {
        assert_eq!(list.pop(), Some(i));
    }
    assert_eq!(list.pop(), None);
}

#[test]
fn bad_stack_extreme_values() {
    let mut list = List::new();
    list.push(i32::MIN);
    list.push(i32::MAX);
    assert_eq!(list.pop(), Some(i32::MAX));
    assert_eq!(list.pop(), Some(i32::MIN));
}

#[test]
fn bad_stack_long_chain_teardown() {
    let mut list = List::new();
    for i in 0..100_000 {
        list.push(i);
    }
    drop(list);
}
