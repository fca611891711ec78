use vstd::prelude::*;

use crate::component::Component;

pub mod map;
pub mod sequence;

verus! {

/// Read access to an index-to-component association.
pub trait Storage {
    /// The component held at each present index.
    spec fn contents(&self) -> Map<usize, Component>;

    /// The component at `index`, or `None` where no component is present.
    fn get(&self, index: usize) -> (r: Option<&Component>)
        ensures
            match r {
                Some(c) => self.contents().contains_key(index) && *c == self.contents()[index],
                None => !self.contents().contains_key(index),
            },
    ;
}

/// Write access to the components of a storage, visited index by index.
pub trait StorageMut: Storage {
    /// Whether iteration visits the indices 0, 1, 2, ... in ascending order.
    spec fn is_dense(&self) -> bool;

    /// The present indices, each once, in the order that iteration visits them.
    fn indices(&self) -> (r: Vec<usize>)
        ensures
            r@.no_duplicates(),
            forall|i: usize| r@.contains(i) <==> self.contents().contains_key(i),
            self.is_dense() ==> forall|j: int| 0 <= j < r@.len() ==> r@[j] == j,
    ;

    /// A mutable reference to the component at `index`, or `None` where no
    /// component is present.
    fn get_mut(&mut self, index: usize) -> (r: Option<&mut Component>)
        ensures
            match r {
                Some(c) => {
                    &&& old(self).contents().contains_key(index)
                    &&& *c == old(self).contents()[index]
                    &&& final(self).contents() == old(self).contents().insert(index, *final(c))
                },
                None => {
                    &&& !old(self).contents().contains_key(index)
                    &&& final(self).contents() == old(self).contents()
                },
            },
    ;
}

} // verus!
