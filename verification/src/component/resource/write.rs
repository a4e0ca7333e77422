use vstd::prelude::*;

use crate::component::resource::{CallSite, ComponentHeap, ComponentPtr, Writer};

verus! {

/// A guard that provides exclusive access to a component.
pub struct ComponentWriteGuard {
    inner: ComponentPtr,
}

impl ComponentWriteGuard {
    /// The address of the cell that the guard writes.
    pub closed spec fn addr(&self) -> int {
        self.inner.addr()
    }

    /// The guard holds the write lock of a cell of `heap`, and what it took with
    /// it: its own strong reference, and the pair of a strong and a weak unit
    /// that it retained.
    pub open spec fn held<P>(&self, heap: &ComponentHeap<P>) -> bool {
        &&& heap.has(self.addr())
        &&& heap@[self.addr()].lock_state == -1
        &&& heap@[self.addr()].strong >= 2
        &&& heap@[self.addr()].weak >= 2
    }

    /// The address of the cell that the guard writes.
    pub fn address(&self) -> (addr: usize)
        ensures
            addr == self.addr(),
    {
        self.inner.address()
    }

    /// Takes the write lock of the cell behind `inner`, which the guard keeps,
    /// records who took it and where, and retains the cell for as long as the
    /// guard lives.
    pub fn lock<P>(
        inner: ComponentPtr,
        heap: &mut ComponentHeap<P>,
        thread: u64,
        location: CallSite,
    ) -> (guard: Self)
        requires
            old(heap).wf(),
            inner.live(old(heap)),
            old(heap)@[inner.addr()].initialized,
            old(heap)@[inner.addr()].lock_state == 0,
            old(heap)@[inner.addr()].strong < usize::MAX,
            old(heap)@[inner.addr()].weak < usize::MAX,
        ensures
            final(heap).wf(),
            guard.addr() == inner.addr(),
            final(heap)@ == old(heap)@.update(
                inner.addr(),
                old(heap)@[inner.addr()].retain().lock_write(Writer { thread, site: location }),
            ),
    {
        inner.retain(heap);
        heap.cell_lock_write(inner.address(), Writer { thread, site: location });
        Self { inner }
    }

    /// The component.
    pub fn deref<'a, P>(&self, heap: &'a ComponentHeap<P>) -> (value: &'a P)
        requires
            self.held(heap),
            heap@[self.addr()].payload.is_some(),
        ensures
            *value == heap@[self.addr()].payload.unwrap().value,
    {
        self.inner.inner_ref(heap)
    }

    /// The component, to be changed in place.
    pub fn deref_mut<'a, P>(&mut self, heap: &'a mut ComponentHeap<P>) -> (value: &'a mut P)
        requires
            old(heap).wf(),
            old(self).held(old(heap)),
            old(heap)@[old(self).addr()].payload.is_some(),
        ensures
            final(self).addr() == old(self).addr(),
            *value == old(heap)@[old(self).addr()].payload.unwrap().value,
            final(heap).wf(),
            final(heap)@ == old(heap)@.update(
                old(self).addr(),
                old(heap)@[old(self).addr()].with_value(*final(value)),
            ),
    {
        self.inner.inner_mut(heap)
    }

    /// Clears the record of the writer and gives the write lock back, then the
    /// pair that the guard retained, then the guard's own reference.
    pub fn drop<P>(self, heap: &mut ComponentHeap<P>)
        requires
            old(heap).wf(),
            self.held(old(heap)),
        ensures
            final(heap).wf(),
            final(heap)@ == old(heap)@.update(
                self.addr(),
                old(heap)@[self.addr()].unlock_write().unretain().release(),
            ),
    {
        heap.cell_unlock_write(self.inner.address());
        heap.cell_unretain(self.inner.address());
        self.inner.drop(heap);
    }
}

} // verus!
