//! First-in-first-out adapter over the singly-linked list.

use crate::collection::Collection;
use crate::linked_list::LinkedList;
use crate::list::{lookup, List, ListResults};
use vstd::prelude::*;
use vstd::std_specs::cmp::PartialEqSpec;

verus! {

/// A FIFO queue: values enter at the tail of the underlying list and
/// leave from its head.
#[derive(Debug)]
pub struct Queue<T: Copy + PartialEq> {
    list: LinkedList<T>,
}

impl<T: Copy + PartialEq> View for Queue<T> {
    type V = Seq<T>;

    /// The queued values, the front of the queue first.
    closed spec fn view(&self) -> Seq<T> {
        self.list@
    }
}

impl<T: Copy + PartialEq> Queue<T> {
    pub fn new() -> (queue: Self)
        ensures
            queue@ == Seq::<T>::empty(),
    {
        Self { list: LinkedList::<T>::new() }
    }

    /// Removes and returns the value at the front, or reports
    /// `ListIsEmpty` when there is nothing queued.
    pub fn dequeue(&mut self) -> (front: Result<T, ListResults>)
        ensures
            front == lookup(old(self)@, 0),
            old(self)@.len() == 0 ==> final(self)@ == old(self)@,
            old(self)@.len() > 0 ==> final(self)@ == old(self)@.drop_first(),
    {
        let result = self.list.remove(0);
        proof {
            if old(self)@.len() > 0 {
                assert(old(self)@.remove(0) =~= old(self)@.drop_first());
            }
        }
        match result {
            Err(err) => Err(err),
            Ok(item) => Ok(item),
        }
    }
}

impl<T: Copy + PartialEq> Collection<T> for Queue<T> {
    open spec fn contents(&self) -> Seq<T> {
        self@
    }

    /// `insert` enqueues: the new value joins at the back.
    open spec fn after_insert(&self, data: T) -> Seq<T> {
        self@.push(data)
    }

    fn is_empty(&self) -> (empty: bool) {
        self.list.len() == 0
    }

    fn len(&self) -> (n: usize) {
        self.list.len()
    }

    fn contains(&self, data: T) -> (found: bool) {
        let found = self.list.contains(data);
        proof {
            let s = self.list.contents();
            if T::obeys_eq_spec() {
                if found {
                    let i = choose|i: int| 0 <= i < s.len() && s[i].eq_spec(&data);
                    assert(self.contents()[i].eq_spec(&data));
                } else {
                    assert forall|i: int|
                        0 <= i < self.contents().len() implies !self.contents()[i].eq_spec(
                        &data,
                    ) by {
                        assert(self.contents()[i] == s[i]);
                    }
                }
            }
        }
        found
    }

    fn insert(&mut self, data: T) {
        self.list.append(data);
    }
}

impl<T: Copy + PartialEq> Clone for Queue<T> {
    /// An independent copy holding the same values in the same order.
    fn clone(&self) -> (queue: Self)
        ensures
            queue@ == self@,
    {
        Self { list: self.list.clone() }
    }
}

} // verus!
