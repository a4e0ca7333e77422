//! The store: one cell for each type, found by the type's key.
use vstd::prelude::*;

pub mod fx;
pub mod handles;
pub mod laws;
pub mod resource;
pub mod typemap;

use crate::component::handles::ComponentHandle;
use crate::component::resource::{CellState, ComponentHeap, ComponentPtr, TypeTag};
use crate::component::fx::{fx_map_get, fx_map_insert, fx_map_new};
use rustc_hash::FxBuildHasher;
use std::collections::HashMap;

verus! {

/// The state of a store: which cell belongs to which type, and whether the store
/// is still open.
pub struct StoreState {
    /// The address of the cell of each type, by the type's key.
    pub cells: Map<u64, int>,
    /// The store has been finalized.
    pub finalized: bool,
}

/// What a request to the store comes to: the store and the heap after it, and
/// the address of the cell that the handle points to.
pub struct StoreStep<P> {
    pub store: StoreState,
    pub heap: Seq<CellState<P>>,
    pub addr: int,
}

impl StoreState {
    /// A new store: open and empty.
    pub open spec fn empty() -> Self {
        StoreState { cells: Map::empty(), finalized: false }
    }

    /// Every cell of the store is a cell of `heap` that the store keeps alive.
    pub open spec fn wf<P>(self, heap: Seq<CellState<P>>) -> bool {
        forall|key: u64| #[trigger]
            self.cells.contains_key(key) ==> 0 <= self.cells[key] < heap.len()
                && heap[self.cells[key]].strong >= 1
    }

    /// Whether the store takes a component of the type with the given key: it is
    /// still open, and the type has no component yet. A cell that was declared
    /// ahead of its payload does not stand in the way.
    pub open spec fn can_insert<P>(self, heap: Seq<CellState<P>>, key: u64) -> bool {
        &&& !self.finalized
        &&& self.cells.contains_key(key) ==> !heap[self.cells[key]].initialized
    }

    /// Whether the store hands out a handle for the type with the given key: it
    /// is still open, or it has a cell for the type.
    pub open spec fn can_handle(self, key: u64) -> bool {
        self.finalized ==> self.cells.contains_key(key)
    }

    /// The store after the end of its open phase.
    pub open spec fn finish_initialization(self) -> Self {
        StoreState { finalized: true, ..self }
    }

    /// A component is put into an open store that has none of its type, and a
    /// handle to its cell is made: the cell is a new one, or one that was
    /// declared ahead and is filled now.
    pub open spec fn insert<P>(self, heap: Seq<CellState<P>>, tag: TypeTag, component: P)
        -> StoreStep<P> {
        if self.cells.contains_key(tag.key) {
            let addr = self.cells[tag.key];
            StoreStep {
                store: self,
                heap: heap.update(addr, heap[addr].initialize(tag.key, component).acquire()),
                addr,
            }
        } else {
            StoreStep {
                store: StoreState { cells: self.cells.insert(tag.key, heap.len() as int), ..self },
                heap: heap.push(CellState::created(tag, component).acquire()),
                addr: heap.len() as int,
            }
        }
    }

    /// A handle to the cell of a type is made. While the store is open, a type
    /// that it has no cell for gets one, declared ahead of its payload.
    pub open spec fn handle_for<P>(self, heap: Seq<CellState<P>>, tag: TypeTag) -> StoreStep<P> {
        if self.cells.contains_key(tag.key) {
            let addr = self.cells[tag.key];
            StoreStep { store: self, heap: heap.update(addr, heap[addr].acquire()), addr }
        } else {
            StoreStep {
                store: StoreState { cells: self.cells.insert(tag.key, heap.len() as int), ..self },
                heap: heap.push(CellState::<P>::forward_declared(tag).acquire()),
                addr: heap.len() as int,
            }
        }
    }
}

/// A database for storing components of various types, one of each type.
pub struct ComponentStore {
    map: HashMap<u64, ComponentPtr, FxBuildHasher>,
    finalized: bool,
}

impl View for ComponentStore {
    type V = StoreState;

    closed spec fn view(&self) -> StoreState {
        StoreState {
            cells: self.map@.map_values(|ptr: ComponentPtr| ptr.addr()),
            finalized: self.finalized,
        }
    }
}

impl ComponentStore {
    /// The invariant of a store together with the heap that its cells live in.
    pub open spec fn wf<P>(&self, heap: &ComponentHeap<P>) -> bool {
        &&& heap.wf()
        &&& self@.wf(heap@)
    }

    /// Creates a new, empty component database.
    pub fn new() -> (store: Self)
        ensures
            store@ == StoreState::empty(),
    {
        let store = Self { map: fx_map_new(), finalized: false };
        assert(store@.cells =~= Map::<u64, int>::empty());
        store
    }

    /// Whether the store has been finalized.
    pub fn is_finalized(&self) -> (finalized: bool)
        ensures
            finalized == self@.finalized,
    {
        self.finalized
    }

    /// Whether the store has a cell for the type with the given key.
    pub fn contains(&self, key: u64) -> (found: bool)
        ensures
            found == self@.cells.contains_key(key),
    {
        fx_map_get(&self.map, key).is_some()
    }

    /// The address of the cell of the type with the given key, if the store has
    /// one.
    pub fn address_of(&self, key: u64) -> (addr: Option<usize>)
        ensures
            addr.is_some() == self@.cells.contains_key(key),
            addr.is_some() ==> addr.unwrap() == self@.cells[key],
    {
        match fx_map_get(&self.map, key) {
            Some(ptr) => Some(ptr.address()),
            None => None,
        }
    }

    /// Whether the store takes a component of the type with the given key.
    pub fn can_insert<P>(&self, heap: &ComponentHeap<P>, key: u64) -> (free: bool)
        requires
            self.wf(heap),
        ensures
            free == self@.can_insert(heap@, key),
    {
        proof {
            heap.lemma_cells();
        }
        if self.finalized {
            return false;
        }
        match fx_map_get(&self.map, key) {
            Some(ptr) => {
                assert(self@.cells.contains_key(key) && self@.cells[key] == ptr.addr());
                !heap.has_component(ptr.address())
            },
            None => true,
        }
    }

    /// Whether the store hands out a handle for the type with the given key.
    pub fn can_handle(&self, key: u64) -> (known: bool)
        ensures
            known == self@.can_handle(key),
    {
        !self.finalized || self.contains(key)
    }

    /// Finalizes the initialization of the component database. It is done once:
    /// the store is still open.
    pub fn finish_initialization(&mut self)
        requires
            !old(self)@.finalized,
        ensures
            final(self)@ == old(self)@.finish_initialization(),
    {
        self.finalized = true;
    }

    /// Inserts a component into the database, and returns a handle to it. The
    /// store is still open and holds no component of this type.
    pub fn insert<P>(&mut self, heap: &mut ComponentHeap<P>, tag: TypeTag, component: P) -> (handle:
        ComponentHandle)
        requires
            old(self).wf(old(heap)),
            old(self)@.can_insert(old(heap)@, tag.key),
            old(self)@.cells.contains_key(tag.key) ==> old(heap)@[old(self)@.cells[tag.key]].strong
                < usize::MAX,
        ensures
            final(self).wf(final(heap)),
            final(self)@ == old(self)@.insert(old(heap)@, tag, component).store,
            final(heap)@ == old(self)@.insert(old(heap)@, tag, component).heap,
            handle.addr() == old(self)@.insert(old(heap)@, tag, component).addr,
            handle.tag() == tag,
    {
        proof {
            heap.lemma_cells();
        }
        match fx_map_get(&self.map, tag.key) {
            Some(ptr) => {
                assert(self@.cells.contains_key(tag.key) && self@.cells[tag.key] == ptr.addr());
                let mut filled = ptr.clone(heap);
                filled.initialize(heap, tag.key, component);
                ComponentHandle::forward(filled, tag)
            },
            None => {
                assert(!self@.cells.contains_key(tag.key));
                let ptr = ComponentPtr::new(heap, tag, component);
                let handle = ComponentHandle::forward(ptr.clone(heap), tag);
                fx_map_insert(&mut self.map, tag.key, ptr);
                assert(final(self)@.cells =~= old(self)@.cells.insert(
                    tag.key,
                    old(heap)@.len() as int,
                ));
                handle
            },
        }
    }

    /// Creates a handle for the component of the given type. While the store is
    /// open, a type that it has no cell for gets one, declared ahead of its
    /// payload; a finalized store has a cell for the type.
    pub fn handle_for<P>(&mut self, heap: &mut ComponentHeap<P>, tag: TypeTag) -> (handle:
        ComponentHandle)
        requires
            old(self).wf(old(heap)),
            old(self)@.can_handle(tag.key),
            old(self)@.cells.contains_key(tag.key) ==> old(heap)@[old(self)@.cells[tag.key]].strong
                < usize::MAX,
        ensures
            final(self).wf(final(heap)),
            final(self)@ == old(self)@.handle_for(old(heap)@, tag).store,
            final(heap)@ == old(self)@.handle_for(old(heap)@, tag).heap,
            handle.addr() == old(self)@.handle_for(old(heap)@, tag).addr,
            handle.tag() == tag,
    {
        proof {
            heap.lemma_cells();
        }
        match fx_map_get(&self.map, tag.key) {
            Some(ptr) => {
                assert(self@.cells.contains_key(tag.key) && self@.cells[tag.key] == ptr.addr());
                ComponentHandle::forward(ptr.clone(heap), tag)
            },
            None => {
                assert(!self@.cells.contains_key(tag.key));
                let ptr = ComponentPtr::uninitialized(heap, tag);
                let handle = ComponentHandle::forward(ptr.clone(heap), tag);
                fx_map_insert(&mut self.map, tag.key, ptr);
                assert(final(self)@.cells =~= old(self)@.cells.insert(
                    tag.key,
                    old(heap)@.len() as int,
                ));
                handle
            },
        }
    }
}

} // verus!
