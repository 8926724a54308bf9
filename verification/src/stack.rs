//! Last-in-first-out adapter over the singly-linked list.

use crate::collection::Collection;
use crate::linked_list::LinkedList;
use crate::list::{lookup, List, ListResults};
use vstd::prelude::*;
use vstd::std_specs::cmp::PartialEqSpec;

verus! {

/// A LIFO stack: values are pushed onto the head of the underlying list
/// and popped from it.
#[derive(Debug)]
pub struct Stack<T: Copy + PartialEq> {
    list: LinkedList<T>,
}

impl<T: Copy + PartialEq> View for Stack<T> {
    type V = Seq<T>;

    /// The stacked values, the top of the stack first.
    closed spec fn view(&self) -> Seq<T> {
        self.list@
    }
}

impl<T: Copy + PartialEq> Stack<T> {
    pub fn new() -> (stack: Self)
        ensures
            stack@ == Seq::<T>::empty(),
    {
        Self { list: LinkedList::<T>::new() }
    }

    /// Removes and returns the value on top, or reports `ListIsEmpty`
    /// when the stack holds nothing.
    pub fn pop(&mut self) -> (top: Result<T, ListResults>)
        ensures
            top == lookup(old(self)@, 0),
            old(self)@.len() == 0 ==> final(self)@ == old(self)@,
            old(self)@.len() > 0 ==> final(self)@ == old(self)@.drop_first(),
    {
        let result = self.list.remove(0);
        proof {
            if old(self)@.len() > 0 {
                assert(old(self)@.remove(0) =~= old(self)@.drop_first());
            }
        }
        match result {
            Err(err) => Err(err),
            Ok(item) => Ok(item),
        }
    }
}

impl<T: Copy + PartialEq> Collection<T> for Stack<T> {
    open spec fn contents(&self) -> Seq<T> {
        self@
    }

    /// `insert` pushes: the new value becomes the top.
    open spec fn after_insert(&self, data: T) -> Seq<T> {
        seq![data] + self@
    }

    fn is_empty(&self) -> (empty: bool) {
        self.list.is_empty()
    }

    fn len(&self) -> (n: usize) {
        self.list.len()
    }

    fn contains(&self, data: T) -> (found: bool) {
        let found = self.list.contains(data);
        proof {
            let s = self.list.contents();
            if T::obeys_eq_spec() {
                if found {
                    let i = choose|i: int| 0 <= i < s.len() && s[i].eq_spec(&data);
                    assert(self.contents()[i].eq_spec(&data));
                } else {
                    assert forall|i: int|
                        0 <= i < self.contents().len() implies !self.contents()[i].eq_spec(
                        &data,
                    ) by {
                        assert(self.contents()[i] == s[i]);
                    }
                }
            }
        }
        found
    }

    fn insert(&mut self, data: T) {
        self.list.insert(data);
    }
}

impl<T: Copy + PartialEq> Clone for Stack<T> {
    /// An independent copy holding the same values in the same order.
    fn clone(&self) -> (stack: Self)
        ensures
            stack@ == self@,
    {
        Self { list: self.list.clone() }
    }
}

} // verus!
