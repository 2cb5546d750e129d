use linked_lists::second::List;

#[test]
fn basics() {
    let mut list: List<i32> = List::new();

    assert_eq!(list.pop(), None);

    list.push(1);
    list.push(2);
    list.push(3);
    list.push(4);

    assert_eq!(list.pop(), Some(4));
    assert_eq!(list.pop(), Some(3));

    list.push(5);
    list.push(6);

    assert_eq!(list.pop(), Some(6));
    assert_eq!(list.pop(), Some(5));

    assert_eq!(list.pop(), Some(2));
    assert_eq!(list.pop(), Some(1));
    assert_eq!(list.pop(), None);
}

#[test]
fn peek() {
    let mut list = List::new();

    assert_eq!(list.peek(), None);
    assert_eq!(list.peek_mut(), None);

    list.push(1);
    list.push(2);
    list.push(3);

    assert_eq!(list.peek(), Some(&3));
    assert_eq!(list.peek_mut(), Some(&mut 3));

    list.peek_mut().map(|value| {
        *value = 42;
    });

    assert_eq!(list.peek(), Some(&42));
    assert_eq!(list.pop(), Some(42));
}

#[test]
fn into_iter() {
    let mut list = List::new();

    list.push(1);
    list.push(2);
    list.push(3);

    let mut iter = list.into_iter();

    assert_eq!(iter.next(), Some(3));
    assert_eq!(iter.next(), Some(2));
    assert_eq!(iter.next(), Some(1));
    assert_eq!(iter.next(), None);
}

#[test]
fn iter() {
    let mut list = List::new();

    list.push(1);
    list.push(2);
    list.push(3);

    let mut iter = list.iter();

    assert_eq!(iter.next(), Some(&3));
    assert_eq!(iter.next(), Some(&2));
    assert_eq!(iter.next(), Some(&1));
    assert_eq!(iter.next(), None);

    let mut iter1 = list.iter();
    let mut iter2 = list.iter();

    let x = iter1.next();
    let y = iter2.next();
    assert_eq!(x, y);
}

#[test]
fn iter_mut() {
    let mut list = List::new();

    list.push(1);
    list.push(2);
    list.push(3);

    let mut iter = list.iter_mut();

    assert_eq!(iter.next(), Some(&mut 3));
    assert_eq!(iter.next(), Some(&mut 2));
    assert_eq!(iter.next(), Some(&mut 1));
    assert_eq!(iter.next(), None);
}

#[test]
fn pops_come_in_reverse_order_of_pushes() {
    let mut list = List::new();
    list.push(7);
    for x in 0..10 {
        list.push(x);
    }
    for x in (0..10).rev() {
        assert_eq!(list.pop(), Some(x));
    }
    assert_eq!(list.pop(), Some(7));
    assert_eq!(list.pop(), None);
    assert_eq!(list.pop(), None);
}

#[test]
fn iter_mut_yields_each_element_once() {
    let mut list = List::new();
    list.push(1);
    list.push(2);
    list.push(3);

    let mut iter = list.iter_mut();
    let a = iter.next().unwrap();
    let b = iter.next().unwrap();
    let c = iter.next().unwrap();
    assert!(iter.next().is_none());
    *a *= 10;
    *b *= 100;
    *c *= 1000;

    assert_eq!(list.pop(), Some(30));
    assert_eq!(list.pop(), Some(200));
    assert_eq!(list.pop(), Some(1000));
    assert_eq!(list.pop(), None);
}

#[test]
fn iter_leaves_the_stack_intact() {
    let mut list = List::new();
    list.push(1);
    list.push(2);
    let mut iter = list.iter();
    assert_eq!(iter.next(), Some(&2));
    assert_eq!(list.peek(), Some(&2));
    assert_eq!(list.pop(), Some(2));
    assert_eq!(list.pop(), Some(1));
}

#[test]
fn into_iter_of_empty_stack_is_exhausted() {
    let list: List<u8> = List::new();
    let mut iter = list.into_iter();
    assert_eq!(iter.next(), None);
    assert_eq!(iter.next(), None);
}

#[test]
fn dropping_a_long_stack_unlinks_it_in_a_loop() {
    let mut list = List::new();
    for x in 0..1_000_000u32 {
        list.push(x);
    }
    assert_eq!(list.peek(), Some(&999_999));
    drop(list);
}
