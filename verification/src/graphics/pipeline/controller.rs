use vstd::prelude::*;

use crate::component::resource::TypeTag;
use crate::component::typemap::TypeMap;

verus! {

/// A simple stash for storing data of various types, one value for each type:
/// the data of one frame.
pub struct Stash<P> {
    inner: TypeMap<P>,
}

impl<P> View for Stash<P> {
    type V = Map<u64, P>;

    /// The stashed value of each type, by the type's key.
    closed spec fn view(&self) -> Map<u64, P> {
        self.inner@
    }
}

impl<P> Stash<P> {
    /// Creates a new, empty Stash.
    pub fn new() -> (stash: Self)
        ensures
            stash@ == Map::<u64, P>::empty(),
    {
        Self { inner: TypeMap::new() }
    }

    /// Stashes data of the given type, in place of what was stashed of it before.
    pub fn stash(&mut self, tag: TypeTag, data: P)
        ensures
            final(self)@ == old(self)@.insert(tag.key, data),
    {
        self.inner.insert(tag, data);
    }

    /// Retrieves a reference to the stashed data of the type with the given key.
    pub fn retrieve_checked(&self, key: u64) -> (found: Option<&P>)
        ensures
            found.is_some() == self@.contains_key(key),
            found.is_some() ==> *found.unwrap() == self@[key],
    {
        self.inner.get(key)
    }

    /// Retrieves a reference to the stashed data of the type with the given key,
    /// which has been stashed.
    pub fn retrieve(&self, key: u64) -> (found: &P)
        requires
            self@.contains_key(key),
        ensures
            *found == self@[key],
    {
        self.inner.get(key).unwrap()
    }

    /// Removes all stashed data.
    pub fn clear(&mut self)
        ensures
            final(self)@ == Map::<u64, P>::empty(),
    {
        self.inner.clear();
    }
}

} // verus!
