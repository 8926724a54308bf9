//! The shared contract of the containers: membership, size, and insertion,
//! all stated over a sequence model of the contents.

use vstd::prelude::*;
use vstd::std_specs::cmp::PartialEqSpec;

verus! {

/// A finite container of values, modelled as the sequence of its contents.
///
/// Each implementor fixes, through `after_insert`, where `insert` places a
/// new value relative to the old contents: the list and the stack prepend,
/// the queue appends.
pub trait Collection<T: PartialEq>: Sized {
    /// The contents of the container, as a sequence.
    spec fn contents(&self) -> Seq<T>;

    /// The contents after `insert(data)`, in terms of the old contents.
    spec fn after_insert(&self, data: T) -> Seq<T>;

    fn is_empty(&self) -> (empty: bool)
        ensures
            empty <==> self.contents().len() == 0,
    ;

    fn len(&self) -> (n: usize)
        ensures
            n == self.contents().len(),
    ;

    fn insert(&mut self, data: T)
        requires
            old(self).contents().len() < usize::MAX,
        ensures
            final(self).contents() == old(self).after_insert(data),
    ;

    fn contains(&self, data: T) -> (found: bool)
        ensures
            T::obeys_eq_spec() ==> (found <==> exists|i: int|
                0 <= i < self.contents().len() && self.contents()[i].eq_spec(&data)),
    ;
}

} // verus!
