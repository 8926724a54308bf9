//! General properties of the containers, stated over the same sequence
//! model and spec functions that the operations' own contracts use.

use crate::collection::Collection;
use crate::linked_list::LinkedList;
use crate::list::{lookup, List, ListResults};
use vstd::laws_eq::obeys_concrete_eq;
use vstd::prelude::*;
use vstd::std_specs::cmp::PartialEqSpec;

verus! {

/// Inserting at the head of a list and immediately reading position 0
/// yields the inserted value, and the length grows by exactly one.
pub proof fn lemma_insert_then_get_front<T: Copy + PartialEq>(list: LinkedList<T>, data: T)
    ensures
        lookup(list.after_insert(data), 0) == Ok::<T, ListResults>(data),
        list.after_insert(data).len() == list.contents().len() + 1,
{
}

/// Appending places the new value at the old length: reading there in the
/// new contents yields it, and the length grows by exactly one.
pub proof fn lemma_append_then_get_back<T: Copy + PartialEq>(
    list: LinkedList<T>,
    data: T,
    len_before: usize,
)
    requires
        len_before == list.contents().len(),
    ensures
        lookup(list.contents().push(data), len_before) == Ok::<T, ListResults>(data),
        list.contents().push(data).len() == list.contents().len() + 1,
{
}

/// A successful removal at position `i` yields the value that sat there,
/// shrinks the contents by one, and shifts every later value down by one
/// position, as `get` observes it.
pub proof fn lemma_remove_shifts<T: Copy + PartialEq>(list: LinkedList<T>, i: usize, j: usize)
    requires
        i < list.contents().len(),
        list.contents().len() <= usize::MAX,
    ensures
        lookup(list.contents(), i) == Ok::<T, ListResults>(list.contents()[i as int]),
        list.contents().remove(i as int).len() == list.contents().len() - 1,
        j < i ==> lookup(list.contents().remove(i as int), j) == lookup(list.contents(), j),
        i <= j < list.contents().len() - 1 ==> lookup(list.contents().remove(i as int), j)
            == lookup(list.contents(), (j + 1) as usize),
{
    list.contents().remove_ensures(i as int);
}

/// Reading or removing from an empty container reports `ListIsEmpty`,
/// never `IndexTooBig`, whatever the index asked for.
pub proof fn lemma_empty_lookup<T>(contents: Seq<T>, index: usize)
    requires
        contents.len() == 0,
    ensures
        lookup(contents, index) == Err::<T, ListResults>(ListResults::ListIsEmpty),
{
}

/// Reading or removing at or past the end of a non-empty container
/// reports `IndexTooBig`.
pub proof fn lemma_out_of_bounds_lookup<T>(contents: Seq<T>, index: usize)
    requires
        contents.len() > 0,
        index >= contents.len(),
    ensures
        lookup(contents, index) == Err::<T, ListResults>(ListResults::IndexTooBig),
{
}

/// When equality on `T` is spec equality, `contains` answers true exactly
/// when some valid position reads back the sought value.
pub proof fn lemma_contains_iff_lookup<T: Copy + PartialEq>(list: LinkedList<T>, data: T)
    requires
        obeys_concrete_eq::<T>(),
        list.contents().len() <= usize::MAX,
    ensures
        (exists|i: int| 0 <= i < list.contents().len() && list.contents()[i].eq_spec(&data)) <==> (
        exists|index: usize| lookup(list.contents(), index) == Ok::<T, ListResults>(data)),
{
    reveal(obeys_concrete_eq);
    let s = list.contents();
    if exists|i: int| 0 <= i < s.len() && s[i].eq_spec(&data) {
        let i = choose|i: int| 0 <= i < s.len() && s[i].eq_spec(&data);
        let index = i as usize;
        assert(lookup(s, index) == Ok::<T, ListResults>(data));
    }
    if exists|index: usize| lookup(s, index) == Ok::<T, ListResults>(data) {
        let index = choose|index: usize| lookup(s, index) == Ok::<T, ListResults>(data);
        assert(index < s.len() && s[index as int].eq_spec(&data));
    }
}

/// Two lists with the same contents read identically at every position;
/// in particular a copy built by `create_from_other_list` does.
pub proof fn lemma_equal_contents_equal_lookup<T: Copy + PartialEq>(
    a: LinkedList<T>,
    b: LinkedList<T>,
)
    requires
        a.contents() == b.contents(),
    ensures
        forall|index: usize| lookup(a.contents(), index) == lookup(b.contents(), index),
{
}

} // verus!
