use wininfra::big_number::{BigNumber, Display};
use wininfra::linked_list::LinkedList;

#[test]
fn push_front_then_pop_front_gives_back_the_value() {
    let mut l: LinkedList<i32> = LinkedList::new();
    l.push_tail(2);
    l.push_front(1);
    assert_eq!(l.pop_front(), Some(1));
    assert_eq!(l.len(), 1);
    assert_eq!(l.peek_front(), Some(&2));
}

#[test]
fn push_tail_then_pop_tail_gives_back_the_value() {
    let mut l: LinkedList<&str> = LinkedList::new();
    l.push_tail("a");
    l.push_tail("b");
    assert_eq!(l.pop_tail(), Some("b"));
    assert_eq!(l.peek_tail(), Some(&"a"));
    assert_eq!(l.len(), 1);
}

#[test]
fn queue_order() {
    let mut l = LinkedList::new();
    for i in 0..5 {
        l.push_tail(i);
    }
    let mut out = Vec::new();
    while let Some(x) = l.pop_front() {
        out.push(x);
    }
    assert_eq!(out, vec![0, 1, 2, 3, 4]);
    assert!(l.is_empty());
    assert_eq!(l.pop_front(), None);
    assert_eq!(l.pop_tail(), None);
}

#[test]
fn stack_from_the_front() {
    let mut l = LinkedList::new();
    l.push_front(1);
    l.push_front(2);
    l.push_front(3);
    assert_eq!(l.peek_tail(), Some(&1));
    assert_eq!(l.pop_tail(), Some(1));
    assert_eq!(l.pop_tail(), Some(2));
    assert_eq!(l.pop_tail(), Some(3));
    assert_eq!(l.pop_tail(), None);
    assert_eq!(l.peek_tail(), None);
}

#[test]
fn peek_mut_writes_through() {
    let mut l = LinkedList::new();
    l.push_tail(10);
    l.push_tail(20);
    if let Some(v) = l.peek_front_mut() {
        *v = 11;
    }
    if let Some(v) = l.peek_tail_mut() {
        *v = 21;
    }
    assert_eq!(l.iter(), vec![&11, &21]);
    let mut empty: LinkedList<u8> = LinkedList::default();
    assert!(empty.peek_front_mut().is_none());
    assert!(empty.peek_tail_mut().is_none());
}

#[test]
fn iteration_and_clear() {
    let mut l = LinkedList::new();
    l.push_tail('x');
    l.push_tail('y');
    l.push_front('w');
    assert_eq!(l.iter(), vec![&'w', &'x', &'y']);
    l.clear();
    assert!(l.is_empty());
    assert_eq!(l.len(), 0);
    l.push_tail('z');
    assert_eq!(l.into_iter(), vec!['z']);
}

#[test]
fn big_number_displays_in_decimal() {
    assert_eq!(BigNumber::new(0).display(), "0");
    assert_eq!(BigNumber::new(1234567890).display(), "1234567890");
    assert_eq!(BigNumber::new(u64::MAX).display(), "18446744073709551615");
}
