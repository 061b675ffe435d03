use linked_lists::pstack::PStack;
use std::rc::Rc;

fn elements(list: &PStack<i32>) -> Vec<i32> {
    let mut out = Vec::new();
    let mut iter = list.iter();
    while let Some(x) = iter.next() {
        out.push(*x);
    }
    out
}

#[test]
fn basics() {
    let list = PStack::new();
    assert_eq!(list.head(), None);

    let list = list.prepend(1).prepend(2).prepend(3);
    assert_eq!(list.head(), Some(&3));

    let list = list.tail();
    assert_eq!(list.head(), Some(&2));

    let list = list.tail();
    assert_eq!(list.head(), Some(&1));

    let list = list.tail();
    assert_eq!(list.head(), None);

    // Make sure empty tail works
    let list = list.tail();
    assert_eq!(list.head(), None);
}

#[test]
fn pstack_iter() {
    let list = PStack::new().prepend(1).prepend(2).prepend(3);

    let mut iter = list.iter();
    assert_eq!(iter.next(), Some(&3));
    assert_eq!(iter.next(), Some(&2));
    assert_eq!(iter.next(), Some(&1));
}

#[test]
fn empty_tail_is_empty_any_number_of_times() {
    let mut list: PStack<u8> = PStack::new();
    assert_eq!(list.head(), None);
    for _ in 0..5 {
        list = list.tail();
        assert_eq!(list.head(), None);
        assert_eq!(list.iter().next(), None);
    }
}

#[test]
fn default_is_empty() {
    let list: PStack<i32> = PStack::default();
    assert_eq!(list.head(), None);
    assert_eq!(list.prepend(4).head(), Some(&4));
}

#[test]
fn lifo_order_of_three() {
    let list = PStack::new().prepend('a').prepend('b').prepend('c');
    assert_eq!(list.head(), Some(&'c'));
    assert_eq!(list.tail().head(), Some(&'b'));
    assert_eq!(list.tail().tail().head(), Some(&'a'));
    assert_eq!(list.tail().tail().tail().head(), None);
}

#[test]
fn deriving_leaves_the_original_alone() {
    let s1 = PStack::new().prepend(1).prepend(2);
    let s2 = s1.prepend(3);
    assert_eq!(s2.head(), Some(&3));
    assert_eq!(s1.head(), Some(&2));
    assert_eq!(s1.tail().head(), Some(&1));
    drop(s2);
    assert_eq!(s1.head(), Some(&2));
    assert_eq!(s1.tail().head(), Some(&1));
    assert_eq!(s1.tail().tail().head(), None);
}

#[test]
fn diverging_tails_keep_their_own_elements() {
    let ancestor = PStack::new().prepend(1).prepend(2).prepend(3);
    let left = ancestor.tail().prepend(10);
    let right = ancestor.tail().prepend(20);
    drop(ancestor);
    assert_eq!(elements(&left), vec![10, 2, 1]);
    assert_eq!(elements(&right), vec![20, 2, 1]);
    drop(left);
    assert_eq!(right.head(), Some(&20));
    assert_eq!(right.tail().head(), Some(&2));
    assert_eq!(right.tail().tail().head(), Some(&1));
}

#[test]
fn iteration_ends_after_the_last_element() {
    let list = PStack::new().prepend(1).prepend(2).prepend(3);
    let mut iter = list.iter();
    assert_eq!(iter.next(), Some(&3));
    assert_eq!(iter.next(), Some(&2));
    assert_eq!(iter.next(), Some(&1));
    assert_eq!(iter.next(), None);
    assert_eq!(iter.next(), None);
    // A fresh cursor starts again from the top.
    assert_eq!(list.iter().next(), Some(&3));
}

#[test]
fn nodes_are_released_with_their_last_handle() {
    let tracker = Rc::new(7);
    let base = PStack::new().prepend(Rc::clone(&tracker));
    assert_eq!(Rc::strong_count(&tracker), 2);
    let a = base.prepend(Rc::clone(&tracker));
    let b = base.tail().prepend(Rc::clone(&tracker));
    let c = a.tail();
    assert_eq!(Rc::strong_count(&tracker), 4);
    // The node under `base` is still held by `a` and `c`.
    drop(base);
    assert_eq!(Rc::strong_count(&tracker), 4);
    assert_eq!(c.head().map(|r| **r), Some(7));
    // Dropping `a` frees only its own top node.
    drop(a);
    assert_eq!(Rc::strong_count(&tracker), 3);
    drop(c);
    assert_eq!(Rc::strong_count(&tracker), 2);
    drop(b);
    assert_eq!(Rc::strong_count(&tracker), 1);
}

#[test]
fn shared_suffix_outlives_a_long_prefix() {
    let tracker = Rc::new(0);
    let shared = PStack::new().prepend(Rc::clone(&tracker));
    let mut long = shared.prepend(Rc::clone(&tracker));
    for _ in 0..1000 {
        long = long.prepend(Rc::clone(&tracker));
    }
    assert_eq!(Rc::strong_count(&tracker), 1003);
    drop(long);
    assert_eq!(Rc::strong_count(&tracker), 2);
    assert_eq!(shared.head().map(|r| **r), Some(0));
    drop(shared);
    assert_eq!(Rc::strong_count(&tracker), 1);
}

#[test]
fn dropping_a_very_long_stack_does_not_overflow() {
    let mut list = PStack::new();
    for i in 0..1_000_000u32 {
        list = list.prepend(i);
    }
    assert_eq!(list.head(), Some(&999_999));
    drop(list);
}
