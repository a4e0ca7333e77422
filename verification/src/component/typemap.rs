//! Two plain maps from a type to one value of that type.
use rustc_hash::FxBuildHasher;
use std::collections::HashMap;
use std::sync::Arc;
use vstd::prelude::*;

use crate::component::fx::{
    fx_map_get, fx_map_get_mut, fx_map_insert, fx_map_keys, fx_map_new, fx_map_remove,
};
use crate::component::resource::TypeTag;

verus! {

/// A resource with the name of its type.
pub struct TypeContainer<P> {
    pub type_label: &'static str,
    pub data: P,
}

impl<P> TypeContainer<P> {
    pub fn new(type_label: &'static str, data: P) -> (container: Self)
        ensures
            container.type_label == type_label,
            container.data == data,
    {
        Self { type_label, data }
    }
}

/// A type map for storing resources of various types.
pub struct TypeMap<P> {
    map: HashMap<u64, TypeContainer<P>, FxBuildHasher>,
}

impl<P> View for TypeMap<P> {
    type V = Map<u64, P>;

    /// The resource of each type, by the type's key.
    closed spec fn view(&self) -> Map<u64, P> {
        self.map@.map_values(|c: TypeContainer<P>| c.data)
    }
}

impl<P> TypeMap<P> {
    /// The name under which the resource of a type was stored.
    pub closed spec fn label(&self, key: u64) -> &'static str {
        self.map@[key].type_label
    }

    /// Creates a new, empty TypeMap.
    pub fn new() -> (map: Self)
        ensures
            map@ == Map::<u64, P>::empty(),
    {
        let map = Self { map: fx_map_new() };
        assert(map@ =~= Map::<u64, P>::empty());
        map
    }

    /// Inserts a resource into the TypeMap, in place of the one that the type
    /// had before.
    pub fn insert(&mut self, tag: TypeTag, resource: P)
        ensures
            final(self)@ == old(self)@.insert(tag.key, resource),
            final(self).label(tag.key) == tag.name,
    {
        fx_map_insert(&mut self.map, tag.key, TypeContainer::new(tag.name, resource));
        assert(final(self)@ =~= old(self)@.insert(tag.key, resource));
    }

    /// Retrieves a reference to the resource of the type with the given key.
    pub fn get(&self, key: u64) -> (found: Option<&P>)
        ensures
            found.is_some() == self@.contains_key(key),
            found.is_some() ==> *found.unwrap() == self@[key],
    {
        match fx_map_get(&self.map, key) {
            Some(node) => Some(&node.data),
            None => None,
        }
    }

    /// Removes the resource of the type with the given key from the TypeMap.
    pub fn remove(&mut self, key: u64) -> (removed: Option<P>)
        ensures
            final(self)@ == old(self)@.remove(key),
            removed.is_some() == old(self)@.contains_key(key),
            removed.is_some() ==> removed.unwrap() == old(self)@[key],
    {
        let removed = match fx_map_remove(&mut self.map, key) {
            Some(node) => Some(node.data),
            None => None,
        };
        assert(final(self)@ =~= old(self)@.remove(key));
        removed
    }

    /// Retrieves a mutable reference to the resource of the type with the given
    /// key.
    pub fn get_mut(&mut self, key: u64) -> (found: Option<&mut P>)
        ensures
            found.is_some() == old(self)@.contains_key(key),
            match found {
                Some(value) => *value == old(self)@[key] && final(self)@ == old(self)@.insert(
                    key,
                    *final(value),
                ),
                None => final(self)@ == old(self)@,
            },
    {
        match fx_map_get_mut(&mut self.map, key) {
            Some(node) => Some(&mut node.data),
            None => None,
        }
    }

    /// Clears all resources from the TypeMap.
    pub fn clear(&mut self)
        ensures
            final(self)@ == Map::<u64, P>::empty(),
    {
        self.map.clear();
        assert(final(self)@ =~= Map::<u64, P>::empty());
    }
}

/// `Arc::clone`: another owner of the value of `shared`. In a specification an
/// `Arc` stands for the value that it points to, and both point to the same one.
#[verifier::external_body]
fn arc_clone<P>(shared: &Arc<P>) -> (copy: Arc<P>)
    ensures
        copy == *shared,
{
    Arc::clone(shared)
}

/// An immutable type map for storing resources of various types: a resource is
/// only ever read, and is handed out as a shared owner of it.
pub struct ImmutableTypeMap<P> {
    map: HashMap<u64, Arc<P>, FxBuildHasher>,
}

impl<P> View for ImmutableTypeMap<P> {
    type V = Map<u64, P>;

    /// The resource of each type, by the type's key.
    closed spec fn view(&self) -> Map<u64, P> {
        self.map@.map_values(|shared: Arc<P>| *shared)
    }
}

impl<P> ImmutableTypeMap<P> {
    /// Creates a new, empty ImmutableTypeMap.
    pub fn new() -> (map: Self)
        ensures
            map@ == Map::<u64, P>::empty(),
    {
        let map = Self { map: fx_map_new() };
        assert(map@ =~= Map::<u64, P>::empty());
        map
    }

    /// Inserts a resource into the ImmutableTypeMap, in place of the one that
    /// the type had before.
    pub fn insert(&mut self, tag: TypeTag, resource: P)
        ensures
            final(self)@ == old(self)@.insert(tag.key, resource),
    {
        fx_map_insert(&mut self.map, tag.key, Arc::new(resource));
        assert(final(self)@ =~= old(self)@.insert(tag.key, resource));
    }

    /// Retrieves a shared owner of the resource of the type with the given key.
    pub fn get(&self, key: u64) -> (found: Option<Arc<P>>)
        ensures
            found.is_some() == self@.contains_key(key),
            found.is_some() ==> *found.unwrap() == self@[key],
    {
        match fx_map_get(&self.map, key) {
            Some(node) => Some(arc_clone(node)),
            None => None,
        }
    }

    /// Removes the resource of the type with the given key from the
    /// ImmutableTypeMap, and returns the map's share of it.
    pub fn remove(&mut self, key: u64) -> (removed: Option<Arc<P>>)
        ensures
            final(self)@ == old(self)@.remove(key),
            removed.is_some() == old(self)@.contains_key(key),
            removed.is_some() ==> *removed.unwrap() == old(self)@[key],
    {
        let removed = fx_map_remove(&mut self.map, key);
        assert(final(self)@ =~= old(self)@.remove(key));
        removed
    }

    /// The keys of the stored resources, each once, in no stated order.
    pub fn keys(&self) -> (keys: Vec<u64>)
        ensures
            keys@.no_duplicates(),
            keys@.to_set() == self@.dom(),
    {
        let keys = fx_map_keys(&self.map);
        assert(self@.dom() =~= self.map@.dom());
        keys
    }
}

} // verus!
