//! A free-standing singly-linked cell with the same shape and contract as
//! `ListNode`, kept as its own type.

use vstd::prelude::*;

verus! {

/// One cell of a singly-linked chain: a value and an owned optional
/// successor.
#[derive(Debug)]
pub struct Node<T: Copy> {
    data: T,
    next: Option<Box<Node<T>>>,
}

impl<T: Copy> Node<T> {
    /// The value held by this cell.
    pub closed spec fn value(&self) -> T {
        self.data
    }

    /// The owned link to the successor cell.
    pub closed spec fn next_link(&self) -> Option<Box<Node<T>>> {
        self.next
    }

    pub fn new(data: T) -> (node: Self)
        ensures
            node.value() == data,
            node.next_link() is None,
    {
        Self { data, next: None }
    }

    pub fn get_data(&self) -> (data: T)
        ensures
            data == self.value(),
    {
        self.data
    }

    pub fn mut_next(&mut self) -> (link: &mut Option<Box<Node<T>>>)
        ensures
            *link == old(self).next_link(),
            final(self).value() == old(self).value(),
            final(self).next_link() == *final(link),
    {
        &mut self.next
    }

    pub fn next_clone(&self) -> (link: Option<Box<Node<T>>>)
        ensures
            link == self.next_link(),
    {
        match &self.next {
            Some(node) => Some(Box::new((&**node).clone())),
            None => None,
        }
    }

    pub fn next_ref(&self) -> (link: &Option<Box<Node<T>>>)
        ensures
            *link == self.next_link(),
    {
        &self.next
    }

    pub fn set_next(&mut self, other_node: Option<Box<Node<T>>>)
        ensures
            final(self).value() == old(self).value(),
            final(self).next_link() == other_node,
    {
        self.next = other_node;
    }
}

impl<T: Copy> Clone for Node<T> {
    /// A deep copy of the chain from this cell onward.
    fn clone(&self) -> (node: Self)
        ensures
            node == *self,
        decreases *self,
    {
        Node {
            data: self.data,
            next: match &self.next {
                Some(node) => Some(Box::new((&**node).clone())),
                None => None,
            },
        }
    }
}

} // verus!
