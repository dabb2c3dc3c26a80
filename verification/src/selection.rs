//! The set of floaters that the user has marked.

use crate::physics::BodyHandle;
use std::collections::HashSet;
use vstd::prelude::*;

verus! {

/// A set of floater identities. Order means nothing and nothing occurs twice.
///
/// The set starts empty and grows one identity at a time, so it is finite
/// whenever the operations below are all that touched it.
pub struct Selection {
    ids: HashSet<usize>,
}

impl View for Selection {
    type V = Set<usize>;

    closed spec fn view(&self) -> Set<usize> {
        self.ids@
    }
}

impl Selection {
    /// The empty selection.
    pub fn new() -> (selection: Selection)
        ensures
            selection@ == Set::<usize>::empty(),
    {
        Selection { ids: HashSet::new() }
    }

    /// Marks the owner of `handle`. Marking it again changes nothing. Returns
    /// whether it was unmarked before.
    pub fn insert(&mut self, handle: BodyHandle) -> (fresh: bool)
        ensures
            final(self)@ == old(self)@.insert(handle@),
            fresh == !old(self)@.contains(handle@),
    {
        self.ids.insert(handle.index())
    }

    /// Whether the owner of `handle` is marked.
    pub fn contains(&self, handle: BodyHandle) -> (marked: bool)
        ensures
            marked == self@.contains(handle@),
    {
        let id = handle.index();
        self.ids.contains(&id)
    }

    /// Unmarks everything.
    pub fn clear(&mut self)
        ensures
            final(self)@ == Set::<usize>::empty(),
    {
        self.ids.clear();
    }

    /// How many floaters are marked.
    pub fn len(&self) -> (count: usize)
        ensures
            count == self@.len(),
    {
        self.ids.len()
    }

    /// Whether nothing is marked.
    pub fn is_empty(&self) -> (empty: bool)
        ensures
            empty == self@.is_empty(),
    {
        self.ids.is_empty()
    }
}

} // verus!
