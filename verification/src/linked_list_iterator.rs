//! A read-only forward cursor over a list's chain of cells.

use crate::list_node::{chain_view, ListNode};
use vstd::prelude::*;

verus! {

/// A single-pass cursor borrowing a chain of cells.  It yields a copy of
/// each value front to back and never mutates the chain.
#[derive(Debug)]
pub struct LinkedListIterator<'a, T: Copy> {
    current: &'a Option<Box<ListNode<T>>>,
}

impl<'a, T: Copy> View for LinkedListIterator<'a, T> {
    type V = Seq<T>;

    /// The values not yet yielded, the next one first.
    closed spec fn view(&self) -> Seq<T> {
        chain_view(*self.current)
    }
}

impl<'a, T: Copy> LinkedListIterator<'a, T> {
    pub fn new(head: &'a Option<Box<ListNode<T>>>) -> (it: Self)
        ensures
            it@ == chain_view(*head),
    {
        Self { current: head }
    }

    /// Yields the value under the cursor and advances past it, or reports
    /// `None` once the chain is exhausted.
    pub fn next(&mut self) -> (item: Option<T>)
        ensures
            old(self)@.len() == 0 ==> item is None && final(self)@ == old(self)@,
            old(self)@.len() > 0 ==> item == Some(old(self)@[0]) && final(self)@ == old(
                self,
            )@.drop_first(),
    {
        let cur: &'a Option<Box<ListNode<T>>> = self.current;
        match cur {
            None => None,
            Some(node) => {
                self.current = node.next_ref();
                Some(node.get_data())
            },
        }
    }
}

impl<'a, T: Copy> Clone for LinkedListIterator<'a, T> {
    /// A second cursor at the same position over the same chain.
    fn clone(&self) -> (it: Self)
        ensures
            it@ == self@,
    {
        Self { current: self.current }
    }
}

} // verus!
