//! A doubly-linked cell, kept as a design sketch for a head-and-tail
//! queue.  Linking clones the counterpart cell, so each cell still owns
//! everything it points at and no cell is ever shared.

use vstd::prelude::*;

verus! {

/// One cell of a doubly-linked chain: a value, an owned optional
/// successor, and an owned optional predecessor.
#[derive(Debug)]
pub struct QueueNode<T: Copy + PartialEq> {
    data: T,
    next: Option<Box<QueueNode<T>>>,
    previous: Option<Box<QueueNode<T>>>,
}

impl<T: Copy + PartialEq> QueueNode<T> {
    /// The value held by this cell.
    pub closed spec fn value(&self) -> T {
        self.data
    }

    /// The owned link to the successor cell.
    pub closed spec fn next_link(&self) -> Option<Box<QueueNode<T>>> {
        self.next
    }

    /// The owned link to the predecessor cell.
    pub closed spec fn prev_link(&self) -> Option<Box<QueueNode<T>>> {
        self.previous
    }

    pub fn new(data: T) -> (node: Self)
        ensures
            node.value() == data,
            node.next_link() is None,
            node.prev_link() is None,
    {
        Self { data, next: None, previous: None }
    }

    pub fn get_data(&self) -> (data: T)
        ensures
            data == self.value(),
    {
        self.data
    }

    pub fn next_mut(&mut self) -> (link: &mut Option<Box<QueueNode<T>>>)
        ensures
            *link == old(self).next_link(),
            final(self).value() == old(self).value(),
            final(self).prev_link() == old(self).prev_link(),
            final(self).next_link() == *final(link),
    {
        &mut self.next
    }

    pub fn next_ref(&self) -> (link: &Option<Box<QueueNode<T>>>)
        ensures
            *link == self.next_link(),
    {
        &self.next
    }

    pub fn next_clone(&self) -> (link: Option<Box<QueueNode<T>>>)
        ensures
            link == self.next_link(),
    {
        match &self.next {
            Some(node) => Some(Box::new((&**node).clone())),
            None => None,
        }
    }

    pub fn prev_mut(&mut self) -> (link: &mut Option<Box<QueueNode<T>>>)
        ensures
            *link == old(self).prev_link(),
            final(self).value() == old(self).value(),
            final(self).next_link() == old(self).next_link(),
            final(self).prev_link() == *final(link),
    {
        &mut self.previous
    }

    pub fn prev_ref(&self) -> (link: &Option<Box<QueueNode<T>>>)
        ensures
            *link == self.prev_link(),
    {
        &self.previous
    }

    pub fn prev_clone(&self) -> (link: Option<Box<QueueNode<T>>>)
        ensures
            link == self.prev_link(),
    {
        match &self.previous {
            Some(node) => Some(Box::new((&**node).clone())),
            None => None,
        }
    }

    /// Takes the cell out of `next_node`, if any, points its back link at
    /// a copy of this cell, and installs it as this cell's successor.  An
    /// empty `next_node` leaves both sides untouched.
    pub fn set_next(&mut self, next_node: &mut Option<Box<QueueNode<T>>>)
        ensures
            *old(next_node) is None ==> *final(self) == *old(self) && *final(next_node) is None,
            *old(next_node) matches Some(n) ==> ({
                &&& *final(next_node) is None
                &&& final(self).value() == old(self).value()
                &&& final(self).prev_link() == old(self).prev_link()
                &&& final(self).next_link() matches Some(m) && m.value() == n.value()
                    && m.next_link() == n.next_link()
                    && (m.prev_link() matches Some(p) && *p == *old(self))
            }),
    {
        let taken = next_node.take();
        match taken {
            Some(node_box) => {
                let mut node = *node_box;
                node.previous = Some(Box::new(self.clone()));
                self.next = Some(Box::new(node));
            },
            None => {},
        }
    }

    /// Takes the cell out of `prev_node`, if any, points its forward link
    /// at a copy of this cell, and installs it as this cell's predecessor.
    /// An empty `prev_node` leaves both sides untouched.
    pub fn set_prev(&mut self, prev_node: &mut Option<Box<QueueNode<T>>>)
        ensures
            *old(prev_node) is None ==> *final(self) == *old(self) && *final(prev_node) is None,
            *old(prev_node) matches Some(n) ==> ({
                &&& *final(prev_node) is None
                &&& final(self).value() == old(self).value()
                &&& final(self).next_link() == old(self).next_link()
                &&& final(self).prev_link() matches Some(m) && m.value() == n.value()
                    && m.prev_link() == n.prev_link()
                    && (m.next_link() matches Some(p) && *p == *old(self))
            }),
    {
        let taken = prev_node.take();
        match taken {
            Some(node_box) => {
                let mut node = *node_box;
                node.next = Some(Box::new(self.clone()));
                self.previous = Some(Box::new(node));
            },
            None => {},
        }
    }
}

impl<T: Copy + PartialEq> Clone for QueueNode<T> {
    /// A deep copy of this cell and of both chains hanging off it.
    fn clone(&self) -> (node: Self)
        ensures
            node == *self,
        decreases *self,
    {
        QueueNode {
            data: self.data,
            next: match &self.next {
                Some(node) => Some(Box::new((&**node).clone())),
                None => None,
            },
            previous: match &self.previous {
                Some(node) => Some(Box::new((&**node).clone())),
                None => None,
            },
        }
    }
}

} // verus!
