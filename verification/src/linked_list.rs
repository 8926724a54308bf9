//! The singly-linked list: an owned chain of cells, a length counter, and
//! position-based operations proved against a sequence view.

use crate::collection::Collection;
use crate::linked_list_iterator::LinkedListIterator;
use crate::list::{List, ListResults};
use crate::list_node::{chain_view, ListNode};
use vstd::prelude::*;
use vstd::std_specs::cmp::PartialEqSpec;

verus! {

/// A singly-linked list.  The head cell, when present, owns the rest of
/// the chain, and the counter always matches the number of reachable cells.
#[derive(Debug)]
pub struct LinkedList<T: Copy + PartialEq> {
    head: Option<Box<ListNode<T>>>,
    len: usize,
}

impl<T: Copy + PartialEq> View for LinkedList<T> {
    type V = Seq<T>;

    /// The values of the list, head first.
    closed spec fn view(&self) -> Seq<T> {
        chain_view(self.head)
    }
}

impl<T: Copy + PartialEq> LinkedList<T> {
    /// The counter always counts the cells reachable from the head.
    #[verifier::type_invariant]
    spec fn well_formed(self) -> bool {
        self.len == self@.len()
    }

    pub fn new() -> (list: Self)
        ensures
            list@ == Seq::<T>::empty(),
    {
        Self { head: None, len: 0 }
    }

    pub fn iter<'a>(&'a self) -> (it: LinkedListIterator<'a, T>)
        ensures
            it@ == self@,
    {
        LinkedListIterator::new(&self.head)
    }

    /// Attaches a new tail cell holding `data` after the last cell of the
    /// chain, or as the head of an empty list.
    pub fn append(&mut self, data: T)
        requires
            old(self)@.len() < usize::MAX,
        ensures
            final(self)@ == old(self)@.push(data),
    {
        proof {
            use_type_invariant(&*self);
        }
        let mut tmp = Self { head: None, len: 0 };
        core::mem::swap(self, &mut tmp);
        let LinkedList { mut head, len } = tmp;
        append_link(&mut head, data);
        *self = LinkedList { head, len: len + 1 };
    }

    /// Builds a list holding the elements of `vector` in the same order,
    /// by appending each in turn.
    pub fn create_from_vector(vector: &Vec<T>) -> (list: Self)
        ensures
            list@ == vector@,
    {
        let mut list = LinkedList::<T>::new();
        let n = vector.len();
        for i in 0..n
            invariant
                n == vector@.len(),
                list@ == vector@.subrange(0, i as int),
        {
            list.append(vector[i]);
            proof {
                assert(list@ =~= vector@.subrange(0, i + 1 as int));
            }
        }
        proof {
            assert(list@ =~= vector@);
        }
        list
    }

    /// Builds an independent deep copy of `other_list`, appending the
    /// values its cursor yields front to back.
    pub fn create_from_other_list(other_list: &LinkedList<T>) -> (list: Self)
        ensures
            list@ == other_list@,
    {
        proof {
            use_type_invariant(other_list);
        }
        let mut list = LinkedList::<T>::new();
        let mut it = other_list.iter();
        proof {
            assert(list@ + it@ =~= other_list@);
        }
        loop
            invariant
                list@ + it@ == other_list@,
                other_list@.len() <= usize::MAX,
            decreases it@.len(),
        {
            match it.next() {
                None => {
                    proof {
                        assert(list@ =~= list@ + it@);
                    }
                    return list;
                },
                Some(data) => {
                    proof {
                        assert(list@.len() < other_list@.len());
                    }
                    list.append(data);
                    proof {
                        assert(list@ + it@ =~= other_list@);
                    }
                },
            }
        }
    }

    /// Builds a list from a sequence of elements by inserting each at the
    /// head in turn, so the result holds them in reverse order, unlike the
    /// two appending constructors above, which keep the input order.
    pub fn from_iter(elements: Vec<T>) -> (list: Self)
        ensures
            list@ == elements@.reverse(),
    {
        let mut list = LinkedList::<T>::new();
        let n = elements.len();
        for i in 0..n
            invariant
                n == elements@.len(),
                list@ == elements@.subrange(0, i as int).reverse(),
        {
            list.insert(elements[i]);
            proof {
                assert(list@ =~= elements@.subrange(0, i + 1 as int).reverse());
            }
        }
        proof {
            assert(elements@.subrange(0, n as int) =~= elements@);
        }
        list
    }
}

impl<T: Copy + PartialEq> Clone for LinkedList<T> {
    /// An independent deep copy: same values, no shared cells.
    fn clone(&self) -> (list: Self)
        ensures
            list@ == self@,
    {
        proof {
            use_type_invariant(&*self);
        }
        LinkedList {
            head: match &self.head {
                Some(node) => Some(Box::new((&**node).clone())),
                None => None,
            },
            len: self.len,
        }
    }
}

impl<T: Copy + PartialEq> Collection<T> for LinkedList<T> {
    open spec fn contents(&self) -> Seq<T> {
        self@
    }

    /// `insert` prepends: the new value becomes the head.
    open spec fn after_insert(&self, data: T) -> Seq<T> {
        seq![data] + self@
    }

    fn is_empty(&self) -> (empty: bool) {
        proof {
            use_type_invariant(&*self);
        }
        self.len == 0
    }

    fn len(&self) -> (n: usize) {
        proof {
            use_type_invariant(&*self);
        }
        self.len
    }

    fn insert(&mut self, data: T) {
        proof {
            use_type_invariant(&*self);
        }
        let mut tmp = Self { head: None, len: 0 };
        core::mem::swap(self, &mut tmp);
        let LinkedList { head, len } = tmp;
        let mut node = ListNode::new(data);
        node.set_next(head);
        *self = LinkedList { head: Some(Box::new(node)), len: len + 1 };
        proof {
            assert(self@ =~= seq![data] + old(self)@);
        }
    }

    fn contains(&self, data: T) -> (found: bool) {
        let found = contains_link(&self.head, data);
        proof {
            let s = chain_view(self.head);
            if T::obeys_eq_spec() {
                if found {
                    let i = choose|i: int| 0 <= i < s.len() && s[i].eq_spec(&data);
                    assert(self.contents()[i].eq_spec(&data));
                } else {
                    assert forall|i: int|
                        0 <= i < self.contents().len() implies !self.contents()[i].eq_spec(
                        &data,
                    ) by {
                        assert(self.contents()[i] == s[i]);
                    }
                }
            }
        }
        found
    }
}

impl<T: Copy + PartialEq> List<T> for LinkedList<T> {
    open spec fn values(&self) -> Seq<T> {
        self@
    }

    fn remove(&mut self, index: usize) -> (removed: Result<T, ListResults>) {
        proof {
            use_type_invariant(&*self);
        }
        if self.len == 0 {
            Err(ListResults::ListIsEmpty)
        } else if self.len <= index {
            Err(ListResults::IndexTooBig)
        } else {
            let mut tmp = Self { head: None, len: 0 };
            core::mem::swap(self, &mut tmp);
            let LinkedList { mut head, len } = tmp;
            let data = remove_link(&mut head, index);
            *self = LinkedList { head, len: len - 1 };
            Ok(data)
        }
    }

    fn get(&self, index: usize) -> (found: Result<T, ListResults>) {
        proof {
            use_type_invariant(&*self);
        }
        if self.len == 0 {
            Err(ListResults::ListIsEmpty)
        } else if self.len <= index {
            Err(ListResults::IndexTooBig)
        } else {
            Ok(get_link(&self.head, index))
        }
    }
}

/// Attaches a new cell holding `data` at the far end of the chain.
fn append_link<T: Copy + PartialEq>(link: &mut Option<Box<ListNode<T>>>, data: T)
    ensures
        chain_view(*final(link)) == chain_view(*old(link)).push(data),
    decreases chain_view(*link).len(),
{
    let cur = link.take();
    match cur {
        None => {
            *link = Some(Box::new(ListNode::new(data)));
            proof {
                assert(chain_view(*link) =~= chain_view(*old(link)).push(data));
            }
        },
        Some(node_box) => {
            let mut node = *node_box;
            append_link(node.mut_next(), data);
            *link = Some(Box::new(node));
            proof {
                assert(chain_view(*link) =~= chain_view(*old(link)).push(data));
            }
        },
    }
}

/// Reads the value `index` cells down the chain.
fn get_link<T: Copy + PartialEq>(link: &Option<Box<ListNode<T>>>, index: usize) -> (data: T)
    requires
        index < chain_view(*link).len(),
    ensures
        data == chain_view(*link)[index as int],
    decreases index,
{
    match link {
        None => vstd::pervasive::unreached(),
        Some(node) => {
            if index == 0 {
                node.get_data()
            } else {
                get_link(node.next_ref(), index - 1)
            }
        },
    }
}

/// Unlinks the cell `index` positions down the chain, splicing its tail
/// into its predecessor's link, and hands its value out.
fn remove_link<T: Copy + PartialEq>(link: &mut Option<Box<ListNode<T>>>, index: usize) -> (data: T)
    requires
        index < chain_view(*old(link)).len(),
    ensures
        data == chain_view(*old(link))[index as int],
        chain_view(*final(link)) == chain_view(*old(link)).remove(index as int),
    decreases index,
{
    let cur = link.take();
    match cur {
        None => vstd::pervasive::unreached(),
        Some(node_box) => {
            let mut node = *node_box;
            if index == 0 {
                let next = node.mut_next().take();
                *link = next;
                proof {
                    assert(chain_view(*link) =~= chain_view(*old(link)).remove(0));
                }
                node.get_data()
            } else {
                let data = remove_link(node.mut_next(), index - 1);
                *link = Some(Box::new(node));
                proof {
                    assert(chain_view(*link) =~= chain_view(*old(link)).remove(index as int));
                }
                data
            }
        },
    }
}

/// Scans the chain front to back for a value equal to `data`.
fn contains_link<T: Copy + PartialEq>(link: &Option<Box<ListNode<T>>>, data: T) -> (found: bool)
    ensures
        T::obeys_eq_spec() ==> (found <==> exists|i: int|
            0 <= i < chain_view(*link).len() && chain_view(*link)[i].eq_spec(&data)),
    decreases chain_view(*link).len(),
{
    match link {
        None => false,
        Some(node) => {
            let ghost whole = chain_view(*link);
            let ghost tail = chain_view(node.next_link());
            if node.get_data() == data {
                proof {
                    if T::obeys_eq_spec() {
                        assert(whole[0].eq_spec(&data));
                    }
                }
                true
            } else {
                let found = contains_link(node.next_ref(), data);
                proof {
                    if T::obeys_eq_spec() {
                        if found {
                            let i = choose|i: int| 0 <= i < tail.len() && tail[i].eq_spec(&data);
                            assert(whole[i + 1] == tail[i]);
                        } else {
                            assert forall|i: int|
                                0 <= i < whole.len() implies !whole[i].eq_spec(&data) by {
                                if i > 0 {
                                    assert(whole[i] == tail[i - 1]);
                                }
                            }
                        }
                    }
                }
                found
            }
        },
    }
}

} // verus!
