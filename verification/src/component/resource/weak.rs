use vstd::prelude::*;

use crate::component::resource::{ComponentHeap, ComponentPtr};

verus! {

/// A weak pointer to a component: it keeps the cell's memory, not its payload.
#[derive(Debug)]
pub struct WeakComponentPtr {
    data: usize,
}

impl WeakComponentPtr {
    /// The address of the cell that the reference points to.
    pub closed spec fn addr(&self) -> int {
        self.data as int
    }

    /// The reference points to a cell of `heap` whose memory it keeps: the cell
    /// counts one weak unit for it, beside the one that the strong references
    /// hold together.
    pub open spec fn live<P>(&self, heap: &ComponentHeap<P>) -> bool {
        &&& heap.has(self.addr())
        &&& heap@[self.addr()].weak >= 1
        &&& heap@[self.addr()].strong >= 1 ==> heap@[self.addr()].weak >= 2
    }

    /// The address of the cell that the reference points to.
    pub fn address(&self) -> (addr: usize)
        ensures
            addr == self.addr(),
    {
        self.data
    }

    pub(crate) fn new(data: usize) -> (weak: Self)
        ensures
            weak.addr() == data,
    {
        Self { data }
    }

    /// Upgrades the weak pointer to a strong pointer, if the component is still
    /// alive.
    pub fn upgrade<P>(&self, heap: &mut ComponentHeap<P>) -> (strong: Option<ComponentPtr>)
        requires
            old(heap).wf(),
            old(heap).has(self.addr()),
            old(heap)@[self.addr()].strong < usize::MAX,
        ensures
            final(heap).wf(),
            strong.is_some() <==> old(heap)@[self.addr()].can_upgrade(),
            strong.is_some() ==> strong.unwrap().addr() == self.addr(),
            final(heap)@ == old(heap)@.update(self.addr(), old(heap)@[self.addr()].upgrade()),
    {
        if heap.strong_count(self.data) == 0 {
            assert(heap@ =~= heap@.update(self.addr(), heap@[self.addr()]));
            return None;
        }
        heap.cell_acquire(self.data);
        Some(ComponentPtr::from_addr(self.data))
    }

    /// Gives the weak reference up. The last reference of all gives the memory
    /// back.
    pub fn drop<P>(self, heap: &mut ComponentHeap<P>)
        requires
            old(heap).wf(),
            self.live(old(heap)),
        ensures
            final(heap).wf(),
            final(heap)@ == old(heap)@.update(self.addr(), old(heap)@[self.addr()].drop_weak()),
    {
        heap.cell_drop_weak(self.data);
    }
}

} // verus!
