use vstd::prelude::*;

use crate::component::resource::read::ComponentReadGuard;
use crate::component::resource::write::ComponentWriteGuard;
use crate::component::resource::{
    CallSite, CellState, ComponentHeap, ComponentPtr, TypeMismatchError, TypeTag, Writer,
};

verus! {

/// A handle to a component: a strong reference to its cell, together with the
/// type that the holder reads and writes it as.
pub struct ComponentHandle {
    ptr: ComponentPtr,
    tag: TypeTag,
}

impl ComponentHandle {
    /// The address of the cell that the handle points to.
    pub closed spec fn addr(&self) -> int {
        self.ptr.addr()
    }

    /// The type that the handle reads and writes the component as.
    pub closed spec fn tag(&self) -> TypeTag {
        self.tag
    }

    /// The handle points to a cell of `heap` whose payload is still kept alive.
    pub open spec fn live<P>(&self, heap: &ComponentHeap<P>) -> bool {
        &&& heap.has(self.addr())
        &&& heap@[self.addr()].strong >= 1
    }

    /// The strong reference that the handle holds.
    pub fn ptr(&self) -> (ptr: &ComponentPtr)
        ensures
            ptr.addr() == self.addr(),
    {
        &self.ptr
    }

    /// The type that the handle reads and writes the component as.
    pub fn type_tag(&self) -> (tag: TypeTag)
        ensures
            tag == self.tag(),
    {
        self.tag
    }

    /// A handle from a reference to a cell that holds a payload of the type `tag`.
    pub fn new<P>(ptr: ComponentPtr, heap: &ComponentHeap<P>, tag: TypeTag) -> (handle: Self)
        requires
            heap.has(ptr.addr()),
            heap@[ptr.addr()].holds_type(tag.key),
        ensures
            handle.addr() == ptr.addr(),
            handle.tag() == tag,
    {
        Self { ptr, tag }
    }

    /// A handle from a reference to a cell whose payload may come later: what type
    /// the payload has is found out when the handle is first used.
    pub(crate) fn forward(ptr: ComponentPtr, tag: TypeTag) -> (handle: Self)
        ensures
            handle.addr() == ptr.addr(),
            handle.tag() == tag,
    {
        Self { ptr, tag }
    }

    /// Creates a standalone handle from a component: one to a new cell, which no
    /// store knows of.
    pub fn standalone<P>(heap: &mut ComponentHeap<P>, tag: TypeTag, component: P) -> (handle: Self)
        requires
            old(heap).wf(),
        ensures
            final(heap).wf(),
            handle.addr() == old(heap)@.len(),
            handle.tag() == tag,
            final(heap)@ == old(heap)@.push(CellState::created(tag, component)),
    {
        let ptr = ComponentPtr::new(heap, tag, component);
        Self { ptr, tag }
    }

    /// Attempts to get a read guard for the component. A cell without a payload
    /// gives `Ok(None)`, a payload of another type than the handle's gives the
    /// error.
    pub fn try_read<P>(&self, heap: &mut ComponentHeap<P>) -> (out: Result<
        Option<ComponentReadGuard>,
        TypeMismatchError,
    >)
        requires
            old(heap).wf(),
            self.live(old(heap)),
            old(heap)@[self.addr()].holds_type(self.tag().key) ==> {
                &&& !old(heap)@[self.addr()].orphaned && 0 <= old(heap)@[self.addr()].lock_state
                &&& old(heap)@[self.addr()].strong + 2 <= usize::MAX
                &&& old(heap)@[self.addr()].weak < usize::MAX
                &&& old(heap)@[self.addr()].lock_state < isize::MAX
            },
        ensures
            final(heap).wf(),
            match out {
                Err(e) => {
                    &&& old(heap)@[self.addr()].payload.is_some()
                    &&& !old(heap)@[self.addr()].holds_type(self.tag().key)
                    &&& e@ == (self.tag().name@, old(heap)@[self.addr()].type_label@)
                    &&& final(heap)@ == old(heap)@
                },
                Ok(None) => {
                    &&& old(heap)@[self.addr()].payload.is_none()
                    &&& final(heap)@ == old(heap)@
                },
                Ok(Some(guard)) => {
                    &&& old(heap)@[self.addr()].holds_type(self.tag().key)
                    &&& guard.addr() == self.addr()
                    &&& final(heap)@ == old(heap)@.update(
                        self.addr(),
                        old(heap)@[self.addr()].acquire().retain().lock_read(),
                    )
                },
            },
    {
        self.ptr.try_read(heap, self.tag)
    }

    /// Attempts to get a write guard for the component. A cell without a payload
    /// gives `Ok(None)`, a payload of another type than the handle's gives the
    /// error.
    pub fn try_write<P>(&self, heap: &mut ComponentHeap<P>, thread: u64, location: CallSite) -> (out:
        Result<Option<ComponentWriteGuard>, TypeMismatchError>)
        requires
            old(heap).wf(),
            self.live(old(heap)),
            old(heap)@[self.addr()].holds_type(self.tag().key) ==> {
                &&& old(heap)@[self.addr()].lock_state == 0
                &&& old(heap)@[self.addr()].strong + 2 <= usize::MAX
                &&& old(heap)@[self.addr()].weak < usize::MAX
            },
        ensures
            final(heap).wf(),
            match out {
                Err(e) => {
                    &&& old(heap)@[self.addr()].payload.is_some()
                    &&& !old(heap)@[self.addr()].holds_type(self.tag().key)
                    &&& e@ == (self.tag().name@, old(heap)@[self.addr()].type_label@)
                    &&& final(heap)@ == old(heap)@
                },
                Ok(None) => {
                    &&& old(heap)@[self.addr()].payload.is_none()
                    &&& final(heap)@ == old(heap)@
                },
                Ok(Some(guard)) => {
                    &&& old(heap)@[self.addr()].holds_type(self.tag().key)
                    &&& guard.addr() == self.addr()
                    &&& final(heap)@ == old(heap)@.update(
                        self.addr(),
                        old(heap)@[self.addr()].acquire().retain().lock_write(
                            Writer { thread, site: location },
                        ),
                    )
                },
            },
    {
        self.ptr.try_write(heap, self.tag, thread, location)
    }

    /// Gets a reference to the component: the older name of `read`.
    pub fn get<P>(&self, heap: &mut ComponentHeap<P>) -> (guard: ComponentReadGuard)
        requires
            old(heap).wf(),
            self.live(old(heap)),
            old(heap)@[self.addr()].holds_type(self.tag().key),
            !old(heap)@[self.addr()].orphaned,
            0 <= old(heap)@[self.addr()].lock_state < isize::MAX,
            old(heap)@[self.addr()].strong + 2 <= usize::MAX,
            old(heap)@[self.addr()].weak < usize::MAX,
        ensures
            final(heap).wf(),
            guard.addr() == self.addr(),
            final(heap)@ == old(heap)@.update(
                self.addr(),
                old(heap)@[self.addr()].acquire().retain().lock_read(),
            ),
    {
        self.read(heap)
    }

    /// Gets a mutable reference to the component: the older name of `write`.
    pub fn get_mut<P>(&self, heap: &mut ComponentHeap<P>, thread: u64, location: CallSite) -> (guard:
        ComponentWriteGuard)
        requires
            old(heap).wf(),
            self.live(old(heap)),
            old(heap)@[self.addr()].holds_type(self.tag().key),
            old(heap)@[self.addr()].lock_state == 0,
            old(heap)@[self.addr()].strong + 2 <= usize::MAX,
            old(heap)@[self.addr()].weak < usize::MAX,
        ensures
            final(heap).wf(),
            guard.addr() == self.addr(),
            final(heap)@ == old(heap)@.update(
                self.addr(),
                old(heap)@[self.addr()].acquire().retain().lock_write(
                    Writer { thread, site: location },
                ),
            ),
    {
        self.write(heap, thread, location)
    }

    /// Returns a read guard to the component. The cell holds a payload of the
    /// handle's type, and its lock is free for a reader.
    pub fn read<P>(&self, heap: &mut ComponentHeap<P>) -> (guard: ComponentReadGuard)
        requires
            old(heap).wf(),
            self.live(old(heap)),
            old(heap)@[self.addr()].holds_type(self.tag().key),
            !old(heap)@[self.addr()].orphaned,
            0 <= old(heap)@[self.addr()].lock_state < isize::MAX,
            old(heap)@[self.addr()].strong + 2 <= usize::MAX,
            old(heap)@[self.addr()].weak < usize::MAX,
        ensures
            final(heap).wf(),
            guard.addr() == self.addr(),
            final(heap)@ == old(heap)@.update(
                self.addr(),
                old(heap)@[self.addr()].acquire().retain().lock_read(),
            ),
    {
        self.ptr.read(heap, self.tag)
    }

    /// Returns a write guard to the component. The cell holds a payload of the
    /// handle's type, and its lock is free for a writer.
    pub fn write<P>(&self, heap: &mut ComponentHeap<P>, thread: u64, location: CallSite) -> (guard:
        ComponentWriteGuard)
        requires
            old(heap).wf(),
            self.live(old(heap)),
            old(heap)@[self.addr()].holds_type(self.tag().key),
            old(heap)@[self.addr()].lock_state == 0,
            old(heap)@[self.addr()].strong + 2 <= usize::MAX,
            old(heap)@[self.addr()].weak < usize::MAX,
        ensures
            final(heap).wf(),
            guard.addr() == self.addr(),
            final(heap)@ == old(heap)@.update(
                self.addr(),
                old(heap)@[self.addr()].acquire().retain().lock_write(
                    Writer { thread, site: location },
                ),
            ),
    {
        self.ptr.write(heap, self.tag, thread, location)
    }

    /// Another handle to the same cell.
    pub fn clone<P>(&self, heap: &mut ComponentHeap<P>) -> (copy: Self)
        requires
            old(heap).wf(),
            self.live(old(heap)),
            old(heap)@[self.addr()].strong < usize::MAX,
        ensures
            final(heap).wf(),
            copy.addr() == self.addr(),
            copy.tag() == self.tag(),
            final(heap)@ == old(heap)@.update(self.addr(), old(heap)@[self.addr()].acquire()),
    {
        Self { ptr: self.ptr.clone(heap), tag: self.tag }
    }

    /// Gives the handle up, and with it its strong reference.
    pub fn drop<P>(self, heap: &mut ComponentHeap<P>)
        requires
            old(heap).wf(),
            self.live(old(heap)),
        ensures
            final(heap).wf(),
            final(heap)@ == old(heap)@.update(self.addr(), old(heap)@[self.addr()].release()),
    {
        self.ptr.drop(heap);
    }
}

} // verus!
