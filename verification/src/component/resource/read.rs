use vstd::prelude::*;

use crate::component::resource::{ComponentHeap, ComponentPtr};

verus! {

/// A guard that provides read access to a component.
pub struct ComponentReadGuard {
    inner: ComponentPtr,
}

impl ComponentReadGuard {
    /// The address of the cell that the guard reads.
    pub closed spec fn addr(&self) -> int {
        self.inner.addr()
    }

    /// The guard holds the read lock of a cell of `heap`, and what it took with
    /// it: its own strong reference, and the pair of a strong and a weak unit
    /// that it retained.
    pub open spec fn held<P>(&self, heap: &ComponentHeap<P>) -> bool {
        &&& heap.has(self.addr())
        &&& heap@[self.addr()].lock_state >= 1
        &&& heap@[self.addr()].strong >= 2
        &&& heap@[self.addr()].weak >= 2
    }

    /// The address of the cell that the guard reads.
    pub fn address(&self) -> (addr: usize)
        ensures
            addr == self.addr(),
    {
        self.inner.address()
    }

    /// Takes the read lock of the cell behind `inner`, which the guard keeps, and
    /// retains the cell for as long as the guard lives.
    pub fn lock<P>(inner: ComponentPtr, heap: &mut ComponentHeap<P>) -> (guard: Self)
        requires
            old(heap).wf(),
            inner.live(old(heap)),
            !old(heap)@[inner.addr()].orphaned,
            0 <= old(heap)@[inner.addr()].lock_state < isize::MAX,
            old(heap)@[inner.addr()].strong < usize::MAX,
            old(heap)@[inner.addr()].weak < usize::MAX,
        ensures
            final(heap).wf(),
            guard.addr() == inner.addr(),
            final(heap)@ == old(heap)@.update(
                inner.addr(),
                old(heap)@[inner.addr()].retain().lock_read(),
            ),
    {
        inner.retain(heap);
        heap.cell_lock_read(inner.address());
        Self { inner }
    }

    /// The component.
    pub fn deref<'a, P>(&self, heap: &'a ComponentHeap<P>) -> (value: &'a P)
        requires
            self.held(heap),
            heap@[self.addr()].payload.is_some(),
        ensures
            *value == heap@[self.addr()].payload.unwrap().value,
    {
        self.inner.inner_ref(heap)
    }

    /// Gives the read lock back, then the pair that the guard retained, then the
    /// guard's own reference: the cell is left as it was before the guard was
    /// taken, and the last reference of all still frees it.
    pub fn drop<P>(self, heap: &mut ComponentHeap<P>)
        requires
            old(heap).wf(),
            self.held(old(heap)),
        ensures
            final(heap).wf(),
            final(heap)@ == old(heap)@.update(
                self.addr(),
                old(heap)@[self.addr()].unlock_read().unretain().release(),
            ),
    {
        heap.cell_unlock_read(self.inner.address());
        heap.cell_unretain(self.inner.address());
        self.inner.drop(heap);
    }
}

} // verus!
