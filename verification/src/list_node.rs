//! A single cell of a singly-linked chain: one value and an owning link to
//! the next cell, or `None` at the tail.

use vstd::prelude::*;

verus! {

/// One cell of a singly-linked chain.  The cell owns its successor, so a
/// chain is always acyclic and finite.
#[derive(Debug)]
pub struct ListNode<T: Copy> {
    data: T,
    next: Option<Box<ListNode<T>>>,
}

/// The values held by the chain hanging off an optional link, front to back.
pub open spec fn chain_view<T: Copy>(link: Option<Box<ListNode<T>>>) -> Seq<T>
    decreases link,
{
    match link {
        None => Seq::empty(),
        Some(node) => seq![node.value()] + chain_view(node.next_link()),
    }
}

impl<T: Copy> View for ListNode<T> {
    type V = Seq<T>;

    /// The values reachable from this cell onward, this cell's value first.
    open spec fn view(&self) -> Seq<T> {
        seq![self.value()] + chain_view(self.next_link())
    }
}

impl<T: Copy> ListNode<T> {
    /// The value held by this cell.
    pub closed spec fn value(&self) -> T {
        self.data
    }

    /// The owned link to the successor cell.
    pub closed spec fn next_link(&self) -> Option<Box<ListNode<T>>> {
        self.next
    }

    pub fn new(data: T) -> (node: Self)
        ensures
            node.value() == data,
            node.next_link() is None,
    {
        Self { data, next: None }
    }

    pub fn get_data(&self) -> (data: T)
        ensures
            data == self.value(),
    {
        self.data
    }

    pub fn mut_next(&mut self) -> (link: &mut Option<Box<ListNode<T>>>)
        ensures
            *link == old(self).next_link(),
            final(self).value() == old(self).value(),
            final(self).next_link() == *final(link),
    {
        &mut self.next
    }

    pub fn next_clone(&self) -> (link: Option<Box<ListNode<T>>>)
        ensures
            link == self.next_link(),
    {
        match &self.next {
            Some(node) => Some(Box::new((&**node).clone())),
            None => None,
        }
    }

    pub fn next_ref(&self) -> (link: &Option<Box<ListNode<T>>>)
        ensures
            *link == self.next_link(),
    {
        &self.next
    }

    pub fn set_next(&mut self, other_node: Option<Box<ListNode<T>>>)
        ensures
            final(self).value() == old(self).value(),
            final(self).next_link() == other_node,
    {
        self.next = other_node;
    }
}

impl<T: Copy> Clone for ListNode<T> {
    /// A deep copy of the chain from this cell onward.
    fn clone(&self) -> (node: Self)
        ensures
            node == *self,
        decreases *self,
    {
        ListNode {
            data: self.data,
            next: match &self.next {
                Some(node) => Some(Box::new((&**node).clone())),
                None => None,
            },
        }
    }
}

} // verus!
