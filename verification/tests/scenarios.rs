use linked_collections::collection::Collection;
use linked_collections::linked_list::LinkedList;
use linked_collections::list::{List, ListResults};
use linked_collections::queue::Queue;
use linked_collections::stack::Stack;

#[test]
fn list_insert_reverses_order() {
    let mut ll = LinkedList::<i8>::new();
    ll.insert(1);
    ll.insert(2);
    ll.insert(3);

    assert_eq!(ll.get(0).unwrap(), 3);
    assert_eq!(ll.get(1).unwrap(), 2);
    assert_eq!(ll.get(2).unwrap(), 1);
}

#[test]
fn list_append_keeps_order() {
    let mut ll = LinkedList::<i8>::new();
    ll.append(1);
    ll.append(2);
    ll.append(3);

    assert_eq!(ll.get(0).unwrap(), 1);
    assert_eq!(ll.get(1).unwrap(), 2);
    assert_eq!(ll.get(2).unwrap(), 3);
}

#[test]
fn list_insert_then_get_front() {
    let mut ll = LinkedList::<i8>::new();
    ll.append(7);
    let len_before = ll.len();

    ll.insert(42);

    assert_eq!(ll.get(0).unwrap(), 42);
    assert_eq!(ll.len(), len_before + 1);
}

#[test]
fn list_append_lands_at_old_length() {
    let mut ll = LinkedList::<i8>::new();
    ll.insert(5);
    ll.insert(6);
    let len_before = ll.len();

    ll.append(42);

    assert_eq!(ll.get(len_before).unwrap(), 42);
    assert_eq!(ll.len(), len_before + 1);
}

#[test]
fn list_remove_middle_shifts_rest() {
    let mut ll = LinkedList::<i8>::new();
    ll.insert(1);
    ll.insert(2);
    ll.insert(3);

    let removed = ll.remove(1).unwrap();

    assert_eq!(removed, 2);
    assert_eq!(ll.len(), 2);
    assert_eq!(ll.get(0).unwrap(), 3);
    assert_eq!(ll.get(1).unwrap(), 1);
}

#[test]
fn empty_list_always_reports_list_is_empty() {
    let mut ll = LinkedList::<i8>::new();

    assert!(matches!(ll.get(0), Err(ListResults::ListIsEmpty)));
    assert!(matches!(ll.get(100), Err(ListResults::ListIsEmpty)));
    assert!(matches!(ll.remove(0), Err(ListResults::ListIsEmpty)));
    assert!(matches!(ll.remove(100), Err(ListResults::ListIsEmpty)));
}

#[test]
fn non_empty_list_reports_index_too_big() {
    let mut ll = LinkedList::<i8>::new();
    ll.append(1);
    ll.append(2);

    assert!(matches!(ll.get(2), Err(ListResults::IndexTooBig)));
    assert!(matches!(ll.get(50), Err(ListResults::IndexTooBig)));
    assert!(matches!(ll.remove(2), Err(ListResults::IndexTooBig)));
    assert_eq!(ll.len(), 2);
}

#[test]
fn contains_agrees_with_get() {
    let mut ll = LinkedList::<i8>::new();
    ll.append(4);
    ll.append(8);
    ll.append(15);

    for index in 0..ll.len() {
        let value = ll.get(index).unwrap();
        assert!(ll.contains(value));
    }
    assert!(!ll.contains(16));
}

#[test]
fn copied_list_reads_the_same_and_is_independent() {
    let mut original = LinkedList::<i8>::new();
    original.append(1);
    original.append(2);
    original.append(3);

    let mut copied = LinkedList::create_from_other_list(&original);

    for index in 0..3 {
        assert_eq!(copied.get(index).unwrap(), original.get(index).unwrap());
    }

    copied.remove(0).unwrap();

    assert_eq!(copied.len(), 2);
    assert_eq!(original.len(), 3);
    assert_eq!(original.get(0).unwrap(), 1);
}

#[test]
fn queue_is_first_in_first_out() {
    let mut queue = Queue::<i8>::new();
    queue.insert(1);
    queue.insert(2);
    queue.insert(3);

    assert_eq!(queue.dequeue().unwrap(), 1);
    assert_eq!(queue.dequeue().unwrap(), 2);
    assert_eq!(queue.len(), 1);
    assert!(queue.contains(3));
}

#[test]
fn queue_dequeue_empty_reports_list_is_empty() {
    let mut queue = Queue::<i8>::new();
    assert!(matches!(queue.dequeue(), Err(ListResults::ListIsEmpty)));
}

#[test]
fn stack_is_last_in_first_out() {
    let mut stack = Stack::<i8>::new();
    stack.insert(1);
    stack.insert(2);
    stack.insert(3);

    assert_eq!(stack.pop().unwrap(), 3);
    assert_eq!(stack.pop().unwrap(), 2);
    assert_eq!(stack.len(), 1);
    assert!(stack.contains(1));
}

#[test]
fn stack_pop_empty_reports_list_is_empty() {
    let mut stack = Stack::<i8>::new();
    assert!(matches!(stack.pop(), Err(ListResults::ListIsEmpty)));
}

#[test]
fn create_from_vector_iterates_front_to_back() {
    let vector: Vec<i8> = vec![1, 2, 3, 4, 5, 6, 7, 8, 9, 10];
    let ll = LinkedList::create_from_vector(&vector);

    let mut it = ll.iter();
    let mut expected: i8 = 1;
    while let Some(item) = it.next() {
        assert_eq!(item, expected);
        expected += 1;
    }
    assert_eq!(expected, 11);
}

#[test]
fn from_iter_builds_in_reverse_order() {
    let elements: Vec<i8> = vec![1, 2, 3];
    let ll = LinkedList::from_iter(elements);

    assert_eq!(ll.get(0).unwrap(), 3);
    assert_eq!(ll.get(1).unwrap(), 2);
    assert_eq!(ll.get(2).unwrap(), 1);
}

#[test]
fn len_tracks_every_operation() {
    let mut ll = LinkedList::<i8>::new();
    assert_eq!(ll.len(), 0);

    ll.insert(1);
    assert_eq!(ll.len(), 1);
    ll.append(2);
    assert_eq!(ll.len(), 2);
    ll.remove(0).unwrap();
    assert_eq!(ll.len(), 1);
    ll.remove(0).unwrap();
    assert_eq!(ll.len(), 0);
    assert!(ll.is_empty());
    assert!(matches!(ll.remove(0), Err(ListResults::ListIsEmpty)));
    assert_eq!(ll.len(), 0);
}

#[test]
fn removing_the_only_element_leaves_an_empty_list() {
    let mut ll = LinkedList::<i8>::new();
    ll.append(9);

    assert_eq!(ll.remove(0).unwrap(), 9);
    assert!(ll.is_empty());
    assert_eq!(ll.len(), 0);
    let mut it = ll.iter();
    assert!(it.next().is_none());
}

#[test]
fn cloned_list_holds_the_same_values() {
    let mut ll = LinkedList::<i8>::new();
    ll.append(1);
    ll.append(2);

    let copy = ll.clone();

    assert_eq!(copy.len(), 2);
    assert_eq!(copy.get(0).unwrap(), 1);
    assert_eq!(copy.get(1).unwrap(), 2);

    ll.remove(0).unwrap();
    assert_eq!(copy.len(), 2);
}

#[test]
fn iterator_clone_restarts_from_its_position() {
    let mut ll = LinkedList::<i8>::new();
    ll.append(1);
    ll.append(2);
    ll.append(3);

    let mut it = ll.iter();
    assert_eq!(it.next(), Some(1));

    let mut second = it.clone();
    assert_eq!(it.next(), Some(2));
    assert_eq!(second.next(), Some(2));
    assert_eq!(second.next(), Some(3));
    assert_eq!(second.next(), None);
}
