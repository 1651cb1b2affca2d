use lists::second::List;

#[test]
fn second_it_works() {
    assert_eq!(2 + 2, 4);
}

#[test]
fn second_basics() {
    let mut list = List::new();

    // Check empty list behaves right
    assert_eq!(list.pop(), None);

    // Populate list
    list.push(1);
    list.push(2);
    list.push(3);

    // Check normal removal
    assert_eq!(list.pop(), Some(3));
    assert_eq!(list.pop(), Some(2));

    // Push some more just to make sure nothing's corrupted
    list.push(4);
    list.push(5);

    // Check normal removal
    assert_eq!(list.pop(), Some(5));
    assert_eq!(list.pop(), Some(4));

    // Check exhaustion
    assert_eq!(list.pop(), Some(1));
    assert_eq!(list.pop(), None);
}

#[test]
fn peek() {
    let mut list = List::new();
    assert_eq!(list.peek(), None);
    assert_eq!(list.peek_mut(), None);
    list.push(1);
    list.push(2);
    list.push(3);

    assert_eq!(list.peek(), Some(&3));
    assert_eq!(list.peek_mut(), Some(&mut 3));
    list.peek_mut().map(|value| *value = 42);

    assert_eq!(list.peek(), Some(&42));
    assert_eq!(list.pop(), Some(42));
}

#[test]
fn into_iter() {
    let mut list = List::new();
    list.push(1);
    list.push(2);
    list.push(3);

    let mut iter = list.into_iter();
    assert_eq!(iter.next(), Some(3));
    assert_eq!(iter.next(), Some(2));
    assert_eq!(iter.next(), Some(1));
    assert_eq!(iter.next(), None);
}

#[test]
fn second_iter() {
    let mut list = List::new();
    list.push(1);
    list.push(2);
    list.push(3);

    let mut iter = list.iter();
    assert_eq!(iter.next(), Some(&3));
    assert_eq!(iter.next(), Some(&2));
    assert_eq!(iter.next(), Some(&1));
}

#[test]
fn iter_mut() {
    let mut list = List::new();
    list.push(1);
    list.push(2);
    list.push(3);

    let mut iter = list.iter_mut();
    assert_eq!(iter.next(), Some(&mut 3));
    assert_eq!(iter.next(), Some(&mut 2));
    assert_eq!(iter.next(), Some(&mut 1));
}

#[test]
fn second_new_is_empty() {
    let mut list: List<u8> = List::new();
    assert_eq!(list.peek(), None);
    assert_eq!(list.peek_mut(), None);
    assert_eq!(list.iter().next(), None);
    assert_eq!(list.iter_mut().next(), None);
    assert_eq!(list.pop(), None);
    assert_eq!(list.into_iter().next(), None);
}

#[test]
fn second_lifo_order() {
    let mut list = List::new();
    list.push("a");
    list.push("b");
    list.push("c");
    assert_eq!(list.pop(), Some("c"));
    assert_eq!(list.pop(), Some("b"));
    assert_eq!(list.pop(), Some("a"));
    assert_eq!(list.pop(), None);
}

#[test]
fn second_holds_elements_that_cannot_be_copied() {
    let mut list = List::new();
    list.push(String::from("one"));
    list.push(String::from("two"));
    assert_eq!(list.peek().map(|s| s.as_str()), Some("two"));
    assert_eq!(list.pop(), Some(String::from("two")));
    assert_eq!(list.pop(), Some(String::from("one")));
    assert_eq!(list.pop(), None);
}

#[test]
fn second_peek_leaves_the_stack_alone() {
    let mut list = List::new();
    list.push(1);
    list.push(2);
    assert_eq!(list.peek(), Some(&2));
    assert_eq!(list.peek(), Some(&2));
    assert_eq!(list.pop(), Some(2));
    assert_eq!(list.peek(), Some(&1));
    assert_eq!(list.pop(), Some(1));
    assert_eq!(list.peek(), None);
}

#[test]
fn second_peek_mut_changes_the_top_only() {
    let mut list = List::new();
    list.push(1);
    list.push(2);
    list.push(3);
    if let Some(top) = list.peek_mut() {
        *top = 42;
    }
    assert_eq!(list.peek(), Some(&42));
    assert_eq!(list.pop(), Some(42));
    assert_eq!(list.pop(), Some(2));
    assert_eq!(list.pop(), Some(1));
    assert_eq!(list.pop(), None);
}

#[test]
fn second_into_iter_is_exhausted_for_good() {
    let mut list = List::new();
    list.push(1);
    let mut iter = list.into_iter();
    assert_eq!(iter.next(), Some(1));
    assert_eq!(iter.next(), None);
    assert_eq!(iter.next(), None);
}

#[test]
fn second_iter_can_be_taken_again() {
    let mut list = List::new();
    list.push(1);
    list.push(2);
    list.push(3);

    for _ in 0..3 {
        let mut iter = list.iter();
        assert_eq!(iter.next(), Some(&3));
        assert_eq!(iter.next(), Some(&2));
        assert_eq!(iter.next(), Some(&1));
        assert_eq!(iter.next(), None);
        assert_eq!(iter.next(), None);
    }
    assert_eq!(list.pop(), Some(3));
}

#[test]
fn second_two_readers_at_once() {
    let mut list = List::new();
    list.push(1);
    list.push(2);
    let mut a = list.iter();
    let mut b = list.iter();
    assert_eq!(a.next(), Some(&2));
    assert_eq!(b.next(), Some(&2));
    assert_eq!(a.next(), Some(&1));
    assert_eq!(a.next(), None);
    assert_eq!(b.next(), Some(&1));
    assert_eq!(b.next(), None);
}

#[test]
fn second_iter_mut_writes_are_seen_by_iter() {
    let mut list = List::new();
    list.push(1);
    list.push(2);
    list.push(3);

    {
        let mut iter = list.iter_mut();
        while let Some(elem) = iter.next() {
            *elem *= 10;
        }
        assert_eq!(iter.next(), None);
    }

    let mut iter = list.iter();
    assert_eq!(iter.next(), Some(&30));
    assert_eq!(iter.next(), Some(&20));
    assert_eq!(iter.next(), Some(&10));
    assert_eq!(iter.next(), None);
}

#[test]
fn second_iter_mut_references_live_side_by_side() {
    let mut list = List::new();
    list.push(1);
    list.push(2);
    list.push(3);

    let mut iter = list.iter_mut();
    let first = iter.next().unwrap();
    let second = iter.next().unwrap();
    let third = iter.next().unwrap();
    *third = 100;
    *first = 300;
    *second = 200;
    assert_eq!(iter.next(), None);

    assert_eq!(list.pop(), Some(300));
    assert_eq!(list.pop(), Some(200));
    assert_eq!(list.pop(), Some(100));
    assert_eq!(list.pop(), None);
}

#[test]
fn second_iter_mut_left_half_way() {
    let mut list = List::new();
    list.push(1);
    list.push(2);
    list.push(3);

    {
        let mut iter = list.iter_mut();
        *iter.next().unwrap() = 30;
    }

    assert_eq!(list.pop(), Some(30));
    assert_eq!(list.pop(), Some(2));
    assert_eq!(list.pop(), Some(1));
    assert_eq!(list.pop(), None);
}

#[test]
fn second_long_chain_is_released() {
    let mut list = List::new();
    for i in 0..200_000u32 {
        list.push(i);
    }
    assert_eq!(list.peek(), Some(&199_999));
    drop(list);
}

#[test]
fn second_long_chain_is_released_by_its_cursor() {
    let mut list = List::new();
    for i in 0..200_000u32 {
        list.push(i);
    }
    let mut iter = list.into_iter();
    assert_eq!(iter.next(), Some(199_999));
    drop(iter);
}

#[test]
fn second_long_chain_walk() {
    let mut list = List::new();
    for i in 0..1000u32 {
        list.push(i);
    }
    let mut iter = list.iter();
    for i in (0..1000u32).rev() {
        assert_eq!(iter.next(), Some(&i));
    }
    assert_eq!(iter.next(), None);
}

#[test]
fn second_cursors_are_iterators() {
    let mut list = List::new();
    list.push(1);
    list.push(2);
    list.push(3);

    let seen: Vec<i32> = list.iter().copied().collect();
    assert_eq!(seen, vec![3, 2, 1]);

    for elem in list.iter_mut() {
        *elem += 1;
    }
    let seen: Vec<&i32> = list.iter().collect();
    assert_eq!(seen, vec![&4, &3, &2]);

    let mut sum = 0;
    for elem in list.iter() {
        sum += *elem;
    }
    assert_eq!(sum, 9);

    let drained: Vec<i32> = list.into_iter().collect();
    assert_eq!(drained, vec![4, 3, 2]);
}

#[test]
fn second_into_iter_drops_what_it_did_not_hand_out() {
    let mut list = List::new();
    list.push(String::from("a"));
    list.push(String::from("b"));
    list.push(String::from("c"));
    let mut iter = list.into_iter();
    assert_eq!(iter.next(), Some(String::from("c")));
    drop(iter);
}
