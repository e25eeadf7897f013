//! A vector whose mutations a host can watch; the change notifications
//! belong to the host, the storage and its exact behaviour live here.

use vstd::prelude::*;

verus! {

/// A growable list of items with observable mutations.
#[derive(Debug, PartialEq)]
pub struct ObservableVec<T> {
    pub vec: Vec<T>,
}

impl<T> ObservableVec<T> {
    pub fn new() -> (v: ObservableVec<T>)
        ensures
            v.vec@ == Seq::<T>::empty(),
    {
        ObservableVec { vec: Vec::new() }
    }

    /// Append an item at the end.
    pub fn push(&mut self, item: T)
        ensures
            final(self).vec@ == old(self).vec@.push(item),
    {
        self.vec.push(item);
    }

    /// Remove and return the item at `index`, shifting the rest left.
    pub fn remove(&mut self, index: usize) -> (item: T)
        requires
            index < old(self).vec@.len(),
        ensures
            item == old(self).vec@[index as int],
            final(self).vec@ == old(self).vec@.remove(index as int),
    {
        self.vec.remove(index)
    }
}

} // verus!
