//! Position-based access to a container: the `List` trait and its two
//! error kinds.

use vstd::prelude::*;

verus! {

/// Why a position-based read or removal failed.
#[derive(Debug)]
pub enum ListResults {
    /// The index was at or past the end of a non-empty container.
    IndexTooBig,
    /// The container held no elements at all.  An empty container reports
    /// this, never `IndexTooBig`, whatever the index.
    ListIsEmpty,
}

/// What a position-based read of `contents` at `index` yields: the empty
/// check comes first, then the bounds check, then the value itself.
pub open spec fn lookup<T>(contents: Seq<T>, index: usize) -> Result<T, ListResults> {
    if contents.len() == 0 {
        Err(ListResults::ListIsEmpty)
    } else if index >= contents.len() {
        Err(ListResults::IndexTooBig)
    } else {
        Ok(contents[index as int])
    }
}

/// A container whose values sit at positions 0 (front) through `len - 1`.
pub trait List<T: Copy>: Sized {
    /// The values, front (position 0) to back.
    spec fn values(&self) -> Seq<T>;

    fn remove(&mut self, index: usize) -> (removed: Result<T, ListResults>)
        ensures
            removed == lookup(old(self).values(), index),
            index < old(self).values().len() ==> final(self).values() == old(
                self,
            ).values().remove(index as int),
            index >= old(self).values().len() ==> final(self).values() == old(self).values(),
    ;

    fn get(&self, index: usize) -> (found: Result<T, ListResults>)
        ensures
            found == lookup(self.values(), index),
    ;
}

} // verus!
