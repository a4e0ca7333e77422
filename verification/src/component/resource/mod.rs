//! The cell: reference counts, lock word, flags and payload of one component,
//! the heap that owns the cells, and the strong reference to a cell.
use vstd::prelude::*;

pub mod flags;
pub mod read;
pub mod weak;
pub mod write;

use crate::component::resource::flags::LockState;
use crate::component::resource::read::ComponentReadGuard;
use crate::component::resource::weak::WeakComponentPtr;
use crate::component::resource::write::ComponentWriteGuard;
use vstd::string::StringExecFns;

verus! {

/// The identity of a payload type as plain data: a key that tells two types
/// apart, and a name that is only ever shown in diagnostics.
#[derive(Copy, Clone, Debug)]
pub struct TypeTag {
    pub key: u64,
    pub name: &'static str,
}

/// A place in a source file: where a write lock was taken.
#[derive(Copy, Clone, Debug)]
pub struct CallSite {
    pub file: &'static str,
    pub line: u32,
    pub column: u32,
}

/// Who holds the write lock of a cell: the thread, and where it took the lock.
#[derive(Copy, Clone, Debug)]
pub struct Writer {
    pub thread: u64,
    pub site: CallSite,
}

/// A payload together with the key of its type.
pub struct Erased<P> {
    pub type_key: u64,
    pub value: P,
}

/// What one attempt to take a lock came to.
#[derive(Copy, Clone, Debug)]
pub enum LockStep {
    /// The lock is free for this kind of access.
    Acquired,
    /// Others hold the lock: the caller yields and tries again.
    Busy,
    /// The calling thread itself holds the write lock, taken at the given place:
    /// waiting would never end.
    Deadlock(CallSite),
}

/// The state of one cell.
pub struct CellState<P> {
    /// References that keep the payload alive.
    pub strong: nat,
    /// References that keep the cell's memory alive.
    pub weak: nat,
    /// `-1`: a writer holds the lock; `0`: idle; `n > 0`: `n` readers hold it.
    pub lock_state: int,
    /// The holder of the write lock, for diagnostics.
    pub writer: Option<Writer>,
    /// The cell has been detached from its store.
    pub orphaned: bool,
    /// The payload has been constructed.
    pub initialized: bool,
    /// The payload, absent until the cell is initialized and after it is destroyed.
    pub payload: Option<Erased<P>>,
    /// The name of the type that the cell was created for.
    pub type_label: &'static str,
}

impl<P> CellState<P> {
    /// The invariant of a cell.
    pub open spec fn wf(self) -> bool {
        &&& self.lock_state >= -1
        &&& self.strong >= 1 ==> self.weak >= 1
        &&& self.payload.is_some() <==> self.initialized
        &&& self.strong == 0 ==> self.payload.is_none()
        &&& self.writer.is_some() <==> self.lock_state == -1
    }

    /// A cell that was created with its payload.
    pub open spec fn created(tag: TypeTag, value: P) -> Self {
        CellState {
            strong: 1,
            weak: 1,
            lock_state: 0,
            writer: None,
            orphaned: false,
            initialized: true,
            payload: Some(Erased { type_key: tag.key, value }),
            type_label: tag.name,
        }
    }

    /// A cell that was created ahead of its payload.
    pub open spec fn forward_declared(tag: TypeTag) -> Self {
        CellState {
            strong: 1,
            weak: 1,
            lock_state: 0,
            writer: None,
            orphaned: false,
            initialized: false,
            payload: None,
            type_label: tag.name,
        }
    }

    /// The cell's memory has been given back.
    pub open spec fn freed(self) -> bool {
        self.weak == 0
    }

    /// The payload is present and of the type with the given key.
    pub open spec fn holds_type(self, key: u64) -> bool {
        self.payload matches Some(p) && p.type_key == key
    }

    /// The cell after it was marked as orphaned.
    pub open spec fn orphan(self) -> Self {
        CellState { orphaned: true, ..self }
    }

    /// The cell after a strong reference was copied.
    pub open spec fn acquire(self) -> Self {
        CellState { strong: self.strong + 1, ..self }
    }

    /// The cell after a manual retain: one more strong and one more weak unit.
    pub open spec fn retain(self) -> Self {
        CellState { strong: self.strong + 1, weak: self.weak + 1, ..self }
    }

    /// The cell after a holder gave back the pair that it retained: one strong
    /// and one weak unit, while other strong references remain.
    pub open spec fn unretain(self) -> Self {
        CellState { strong: (self.strong - 1) as nat, weak: (self.weak - 1) as nat, ..self }
    }

    /// The cell after its payload was destroyed.
    pub open spec fn drop_component(self) -> Self {
        CellState { payload: None, initialized: false, ..self }
    }

    /// The cell after one strong reference went away. The last one takes the
    /// payload with it, and the weak unit that the strong references held.
    pub open spec fn release(self) -> Self {
        if self.strong == 1 {
            CellState { strong: 0, weak: (self.weak - 1) as nat, ..self.drop_component() }
        } else {
            CellState { strong: (self.strong - 1) as nat, ..self }
        }
    }

    /// The cell after a strong reference was turned into a weak one.
    pub open spec fn downgrade(self) -> Self {
        CellState { weak: self.weak + 1, ..self }.release()
    }

    /// The cell after a weak reference went away.
    pub open spec fn drop_weak(self) -> Self {
        CellState { weak: (self.weak - 1) as nat, ..self }
    }

    /// Whether a weak reference can be turned back into a strong one.
    pub open spec fn can_upgrade(self) -> bool {
        self.strong != 0
    }

    /// The cell after an attempt to turn a weak reference into a strong one:
    /// a cell without a strong reference stays as it is.
    pub open spec fn upgrade(self) -> Self {
        if self.can_upgrade() {
            self.acquire()
        } else {
            self
        }
    }

    /// The cell after an attempt to initialize it: the first attempt stores the
    /// payload, every later one changes nothing.
    pub open spec fn initialize(self, key: u64, value: P) -> Self {
        if self.initialized {
            self
        } else {
            CellState {
                initialized: true,
                payload: Some(Erased { type_key: key, value }),
                ..self
            }
        }
    }

    /// The given thread holds the write lock.
    pub open spec fn written_by(self, thread: u64) -> bool {
        &&& self.lock_state == -1
        &&& self.writer matches Some(w) && w.thread == thread
    }

    /// What an attempt to take the read lock comes to. The check for a deadlock
    /// is made on the first attempt only.
    pub open spec fn read_step(self, thread: u64, first: bool) -> LockStep {
        if self.lock_state == -1 {
            if first && self.written_by(thread) {
                LockStep::Deadlock(self.writer.unwrap().site)
            } else {
                LockStep::Busy
            }
        } else {
            LockStep::Acquired
        }
    }

    /// What an attempt to take the write lock comes to. The check for a deadlock
    /// is made on the first attempt only, and only where a writer holds the lock.
    pub open spec fn write_step(self, thread: u64, first: bool) -> LockStep {
        if self.lock_state == 0 {
            LockStep::Acquired
        } else if first && self.written_by(thread) {
            LockStep::Deadlock(self.writer.unwrap().site)
        } else {
            LockStep::Busy
        }
    }

    /// The cell with another value in its payload.
    pub open spec fn with_value(self, value: P) -> Self {
        CellState {
            payload: Some(Erased { type_key: self.payload.unwrap().type_key, value }),
            ..self
        }
    }

    /// The cell after one more reader took the lock.
    pub open spec fn lock_read(self) -> Self {
        CellState { lock_state: self.lock_state + 1, ..self }
    }

    /// The cell after one reader gave the lock back.
    pub open spec fn unlock_read(self) -> Self {
        CellState { lock_state: self.lock_state - 1, ..self }
    }

    /// The cell after a writer took the lock.
    pub open spec fn lock_write(self, writer: Writer) -> Self {
        CellState { lock_state: -1, writer: Some(writer), ..self }
    }

    /// The cell after the writer gave the lock back.
    pub open spec fn unlock_write(self) -> Self {
        CellState { lock_state: 0, writer: None, ..self }
    }
}

/// One cell as it is stored: the header and, behind it, the payload.
struct ComponentInner<P> {
    strong: usize,
    weak: usize,
    state: isize,
    writer: Option<Writer>,
    flags: LockState,
    component: Option<Erased<P>>,
    type_label: &'static str,
}

impl<P> View for ComponentInner<P> {
    type V = CellState<P>;

    closed spec fn view(&self) -> CellState<P> {
        CellState {
            strong: self.strong as nat,
            weak: self.weak as nat,
            lock_state: self.state as int,
            writer: self.writer,
            orphaned: self.flags.is_orphaned(),
            initialized: self.flags.is_init(),
            payload: self.component,
            type_label: self.type_label,
        }
    }
}

impl<P> ComponentInner<P> {
    spec fn wf(&self) -> bool {
        &&& self.flags.wf()
        &&& self@.wf()
    }

    fn new(tag: TypeTag, value: P) -> (cell: Self)
        ensures
            cell.wf(),
            cell@ == CellState::created(tag, value),
    {
        ComponentInner {
            strong: 1,
            weak: 1,
            state: 0,
            writer: None,
            flags: LockState::initialized(),
            component: Some(Erased { type_key: tag.key, value }),
            type_label: tag.name,
        }
    }

    fn uninitialized(tag: TypeTag) -> (cell: Self)
        ensures
            cell.wf(),
            cell@ == CellState::<P>::forward_declared(tag),
    {
        ComponentInner {
            strong: 1,
            weak: 1,
            state: 0,
            writer: None,
            flags: LockState::empty(),
            component: None,
            type_label: tag.name,
        }
    }

    fn orphan(&mut self)
        requires
            old(self).wf(),
        ensures
            final(self).wf(),
            final(self)@ == old(self)@.orphan(),
    {
        self.flags.insert(LockState::orphaned());
    }

    fn acquire(&mut self)
        requires
            old(self).wf(),
            1 <= old(self)@.strong < usize::MAX,
        ensures
            final(self).wf(),
            final(self)@ == old(self)@.acquire(),
    {
        self.strong = self.strong + 1;
    }

    fn retain(&mut self)
        requires
            old(self).wf(),
            old(self)@.strong < usize::MAX,
            old(self)@.weak < usize::MAX,
        ensures
            final(self).wf(),
            final(self)@ == old(self)@.retain(),
    {
        self.strong = self.strong + 1;
        self.weak = self.weak + 1;
    }

    fn unretain(&mut self)
        requires
            old(self).wf(),
            old(self)@.strong >= 2,
            old(self)@.weak >= 2,
        ensures
            final(self).wf(),
            final(self)@ == old(self)@.unretain(),
    {
        self.strong = self.strong - 1;
        self.weak = self.weak - 1;
    }

    fn add_weak(&mut self)
        requires
            old(self).wf(),
            old(self)@.weak < usize::MAX,
        ensures
            final(self).wf(),
            final(self)@ == (CellState { weak: old(self)@.weak + 1, ..old(self)@ }),
    {
        self.weak = self.weak + 1;
    }

    /// Destroys the payload. It runs once, when the last strong reference goes.
    fn drop_component(&mut self)
        requires
            old(self).flags.wf(),
        ensures
            final(self).flags.wf(),
            final(self)@ == old(self)@.drop_component(),
    {
        self.component = None;
        self.flags.remove(LockState::initialized());
    }

    fn release(&mut self)
        requires
            old(self).wf(),
            old(self)@.strong >= 1,
        ensures
            final(self).wf(),
            final(self)@ == old(self)@.release(),
    {
        let before: usize = self.strong;
        self.strong = before - 1;
        if before == 1 {
            self.drop_component();
            self.weak = self.weak - 1;
        }
    }

    fn drop_weak(&mut self)
        requires
            old(self).wf(),
            old(self)@.weak >= 1,
            old(self)@.strong >= 1 ==> old(self)@.weak >= 2,
        ensures
            final(self).wf(),
            final(self)@ == old(self)@.drop_weak(),
    {
        self.weak = self.weak - 1;
    }

    fn initialize(&mut self, key: u64, value: P) -> (done: Option<()>)
        requires
            old(self).wf(),
            old(self)@.strong >= 1,
        ensures
            final(self).wf(),
            final(self)@ == old(self)@.initialize(key, value),
            done.is_some() <==> !old(self)@.initialized,
    {
        if self.flags.contains(LockState::initialized()) {
            return None;
        }
        self.flags.insert(LockState::initialized());
        self.component = Some(Erased { type_key: key, value });
        Some(())
    }

    /// The place where the calling thread took the write lock, if it holds it.
    fn held_at(&self, thread: u64) -> (site: Option<CallSite>)
        requires
            self.wf(),
        ensures
            site.is_some() <==> self@.written_by(thread),
            site.is_some() ==> site == Some(self@.writer.unwrap().site),
    {
        match self.writer {
            Some(w) => if w.thread == thread {
                Some(w.site)
            } else {
                None
            },
            None => None,
        }
    }

    fn read_step(&self, thread: u64, first: bool) -> (step: LockStep)
        requires
            self.wf(),
        ensures
            step == self@.read_step(thread, first),
    {
        if self.state == -1 {
            if first {
                match self.held_at(thread) {
                    Some(site) => { return LockStep::Deadlock(site); },
                    None => {},
                }
            }
            LockStep::Busy
        } else {
            LockStep::Acquired
        }
    }

    fn write_step(&self, thread: u64, first: bool) -> (step: LockStep)
        requires
            self.wf(),
        ensures
            step == self@.write_step(thread, first),
    {
        if self.state == 0 {
            LockStep::Acquired
        } else {
            if self.state == -1 && first {
                match self.held_at(thread) {
                    Some(site) => { return LockStep::Deadlock(site); },
                    None => {},
                }
            }
            LockStep::Busy
        }
    }

    fn lock_read(&mut self)
        requires
            old(self).wf(),
            0 <= old(self)@.lock_state < isize::MAX,
        ensures
            final(self).wf(),
            final(self)@ == old(self)@.lock_read(),
    {
        self.state = self.state + 1;
    }

    fn unlock_read(&mut self)
        requires
            old(self).wf(),
            old(self)@.lock_state >= 1,
        ensures
            final(self).wf(),
            final(self)@ == old(self)@.unlock_read(),
    {
        self.state = self.state - 1;
    }

    fn lock_write(&mut self, writer: Writer)
        requires
            old(self).wf(),
            old(self)@.lock_state == 0,
        ensures
            final(self).wf(),
            final(self)@ == old(self)@.lock_write(writer),
    {
        self.state = -1;
        self.writer = Some(writer);
    }

    fn unlock_write(&mut self)
        requires
            old(self).wf(),
        ensures
            final(self).wf(),
            final(self)@ == old(self)@.unlock_write(),
    {
        self.writer = None;
        self.state = 0;
    }

    fn payload_ref(&self) -> (value: &P)
        requires
            self@.payload.is_some(),
        ensures
            *value == self@.payload.unwrap().value,
    {
        &self.component.as_ref().unwrap().value
    }

    fn payload_mut(&mut self) -> (value: &mut P)
        requires
            old(self).wf(),
            old(self)@.payload.is_some(),
        ensures
            *value == old(self)@.payload.unwrap().value,
            final(self).wf(),
            final(self)@ == old(self)@.with_value(*final(value)),
    {
        &mut self.component.as_mut().unwrap().value
    }
}

/// The memory that the cells live in. A cell keeps its address for good: the
/// address of a freed cell is never handed out again.
pub struct ComponentHeap<P> {
    cells: Vec<ComponentInner<P>>,
}

impl<P> View for ComponentHeap<P> {
    type V = Seq<CellState<P>>;

    /// The state of every cell that was ever allocated, by address.
    closed spec fn view(&self) -> Seq<CellState<P>> {
        Seq::new(self.cells@.len(), |i: int| self.cells@[i]@)
    }
}

impl<P> ComponentHeap<P> {
    /// The invariant of the heap: every cell is well formed.
    pub closed spec fn wf(&self) -> bool {
        forall|i: int| 0 <= i < self.cells@.len() ==> (#[trigger] self.cells@[i]).wf()
    }

    /// Whether `addr` is the address of a cell of this heap.
    pub open spec fn has(&self, addr: int) -> bool {
        0 <= addr < self@.len()
    }

    /// What a well-formed heap promises of each of its cells.
    pub proof fn lemma_cells(&self)
        requires
            self.wf(),
        ensures
            forall|i: int|
                0 <= i < self@.len() ==> {
                    &&& (#[trigger] self@[i]).wf()
                    &&& self@[i].strong <= usize::MAX
                    &&& self@[i].weak <= usize::MAX
                    &&& self@[i].lock_state <= isize::MAX
                },
    {
        assert forall|i: int| 0 <= i < self@.len() implies {
            &&& (#[trigger] self@[i]).wf()
            &&& self@[i].strong <= usize::MAX
            &&& self@[i].weak <= usize::MAX
            &&& self@[i].lock_state <= isize::MAX
        } by {
            assert(self.cells@[i].wf());
        }
    }

    /// An empty heap.
    pub fn new() -> (heap: Self)
        ensures
            heap.wf(),
            heap@ == Seq::<CellState<P>>::empty(),
    {
        let heap = ComponentHeap { cells: Vec::new() };
        assert(heap@ =~= Seq::<CellState<P>>::empty());
        heap
    }

    /// The number of cells that were ever allocated.
    pub fn len(&self) -> (n: usize)
        ensures
            n == self@.len(),
    {
        self.cells.len()
    }

    /// The strong count of the cell at `addr`.
    pub fn strong_count(&self, addr: usize) -> (n: usize)
        requires
            self.has(addr as int),
        ensures
            n == self@[addr as int].strong,
    {
        self.cells[addr].strong
    }

    /// The weak count of the cell at `addr`.
    pub fn weak_count(&self, addr: usize) -> (n: usize)
        requires
            self.has(addr as int),
        ensures
            n == self@[addr as int].weak,
    {
        self.cells[addr].weak
    }

    /// The lock word of the cell at `addr`.
    pub fn lock_state(&self, addr: usize) -> (n: isize)
        requires
            self.has(addr as int),
        ensures
            n == self@[addr as int].lock_state,
    {
        self.cells[addr].state
    }

    /// The flags of the cell at `addr`.
    pub fn flags(&self, addr: usize) -> (flags: LockState)
        requires
            self.has(addr as int),
        ensures
            flags.is_orphaned() == self@[addr as int].orphaned,
            flags.is_init() == self@[addr as int].initialized,
            self.wf() ==> flags.wf(),
    {
        self.cells[addr].flags
    }

    /// Whether the cell at `addr` holds a payload.
    pub fn has_component(&self, addr: usize) -> (present: bool)
        requires
            self.has(addr as int),
        ensures
            present == self@[addr as int].payload.is_some(),
    {
        self.cells[addr].component.is_some()
    }

    /// The holder of the write lock of the cell at `addr`.
    pub fn writer(&self, addr: usize) -> (writer: Option<Writer>)
        requires
            self.has(addr as int),
        ensures
            writer == self@[addr as int].writer,
    {
        self.cells[addr].writer
    }

    /// The name of the type that the cell at `addr` was created for.
    pub fn type_label(&self, addr: usize) -> (name: &'static str)
        requires
            self.has(addr as int),
        ensures
            name == self@[addr as int].type_label,
    {
        self.cells[addr].type_label
    }

    /// Whether the memory of the cell at `addr` has been given back.
    pub fn is_freed(&self, addr: usize) -> (freed: bool)
        requires
            self.has(addr as int),
        ensures
            freed == self@[addr as int].freed(),
    {
        self.cells[addr].weak == 0
    }

    pub(crate) fn allocate(&mut self, cell_tag: TypeTag, value: Option<P>) -> (addr: usize)
        requires
            old(self).wf(),
        ensures
            final(self).wf(),
            addr == old(self)@.len(),
            final(self)@ == old(self)@.push(
                match value {
                    Some(v) => CellState::created(cell_tag, v),
                    None => CellState::forward_declared(cell_tag),
                },
            ),
    {
        let addr = self.cells.len();
        let cell = match value {
            Some(v) => ComponentInner::new(cell_tag, v),
            None => ComponentInner::uninitialized(cell_tag),
        };
        self.cells.push(cell);
        assert(final(self)@ =~= old(self)@.push(cell@));
        addr
    }
}

impl<P> ComponentHeap<P> {
    pub(crate) fn cell_orphan(&mut self, addr: usize)
        requires
            old(self).wf(),
            old(self).has(addr as int),
        ensures
            final(self).wf(),
            final(self)@ == old(self)@.update(addr as int, old(self)@[addr as int].orphan()),
    {
        self.cells[addr].orphan();
        assert(final(self)@ =~= old(self)@.update(addr as int, old(self)@[addr as int].orphan()));
    }

    pub(crate) fn cell_acquire(&mut self, addr: usize)
        requires
            old(self).wf(),
            old(self).has(addr as int),
            1 <= old(self)@[addr as int].strong < usize::MAX,
        ensures
            final(self).wf(),
            final(self)@ == old(self)@.update(addr as int, old(self)@[addr as int].acquire()),
    {
        self.cells[addr].acquire();
        assert(final(self)@ =~= old(self)@.update(addr as int, old(self)@[addr as int].acquire()));
    }

    pub(crate) fn cell_retain(&mut self, addr: usize)
        requires
            old(self).wf(),
            old(self).has(addr as int),
            old(self)@[addr as int].strong < usize::MAX,
            old(self)@[addr as int].weak < usize::MAX,
        ensures
            final(self).wf(),
            final(self)@ == old(self)@.update(addr as int, old(self)@[addr as int].retain()),
    {
        self.cells[addr].retain();
        assert(final(self)@ =~= old(self)@.update(addr as int, old(self)@[addr as int].retain()));
    }

    pub(crate) fn cell_unretain(&mut self, addr: usize)
        requires
            old(self).wf(),
            old(self).has(addr as int),
            old(self)@[addr as int].strong >= 2,
            old(self)@[addr as int].weak >= 2,
        ensures
            final(self).wf(),
            final(self)@ == old(self)@.update(addr as int, old(self)@[addr as int].unretain()),
    {
        self.cells[addr].unretain();
        assert(final(self)@ =~= old(self)@.update(addr as int, old(self)@[addr as int].unretain()));
    }

    pub(crate) fn cell_add_weak(&mut self, addr: usize)
        requires
            old(self).wf(),
            old(self).has(addr as int),
            old(self)@[addr as int].weak < usize::MAX,
        ensures
            final(self).wf(),
            final(self)@ == old(self)@.update(addr as int, (CellState { weak: old(self)@[addr as int].weak + 1, ..old(self)@[addr as int] })),
    {
        self.cells[addr].add_weak();
        assert(final(self)@ =~= old(self)@.update(addr as int, (CellState { weak: old(self)@[addr as int].weak + 1, ..old(self)@[addr as int] })));
    }

    pub(crate) fn cell_release(&mut self, addr: usize)
        requires
            old(self).wf(),
            old(self).has(addr as int),
            old(self)@[addr as int].strong >= 1,
        ensures
            final(self).wf(),
            final(self)@ == old(self)@.update(addr as int, old(self)@[addr as int].release()),
    {
        self.cells[addr].release();
        assert(final(self)@ =~= old(self)@.update(addr as int, old(self)@[addr as int].release()));
    }

    pub(crate) fn cell_drop_weak(&mut self, addr: usize)
        requires
            old(self).wf(),
            old(self).has(addr as int),
            old(self)@[addr as int].weak >= 1,
            old(self)@[addr as int].strong >= 1 ==> old(self)@[addr as int].weak >= 2,
        ensures
            final(self).wf(),
            final(self)@ == old(self)@.update(addr as int, old(self)@[addr as int].drop_weak()),
    {
        self.cells[addr].drop_weak();
        assert(final(self)@ =~= old(self)@.update(addr as int, old(self)@[addr as int].drop_weak()));
    }

    pub(crate) fn cell_initialize(&mut self, addr: usize, key: u64, value: P) -> (out: Option<()>)
        requires
            old(self).wf(),
            old(self).has(addr as int),
            old(self)@[addr as int].strong >= 1,
        ensures
            final(self).wf(),
            final(self)@ == old(self)@.update(addr as int, old(self)@[addr as int].initialize(key, value)),
            out.is_some() <==> !old(self)@[addr as int].initialized,
    {
        let out = self.cells[addr].initialize(key, value);
        assert(final(self)@ =~= old(self)@.update(addr as int, old(self)@[addr as int].initialize(key, value)));
        out
    }

    pub(crate) fn cell_lock_read(&mut self, addr: usize)
        requires
            old(self).wf(),
            old(self).has(addr as int),
            0 <= old(self)@[addr as int].lock_state < isize::MAX,
        ensures
            final(self).wf(),
            final(self)@ == old(self)@.update(addr as int, old(self)@[addr as int].lock_read()),
    {
        self.cells[addr].lock_read();
        assert(final(self)@ =~= old(self)@.update(addr as int, old(self)@[addr as int].lock_read()));
    }

    pub(crate) fn cell_unlock_read(&mut self, addr: usize)
        requires
            old(self).wf(),
            old(self).has(addr as int),
            old(self)@[addr as int].lock_state >= 1,
        ensures
            final(self).wf(),
            final(self)@ == old(self)@.update(addr as int, old(self)@[addr as int].unlock_read()),
    {
        self.cells[addr].unlock_read();
        assert(final(self)@ =~= old(self)@.update(addr as int, old(self)@[addr as int].unlock_read()));
    }

    pub(crate) fn cell_lock_write(&mut self, addr: usize, writer: Writer)
        requires
            old(self).wf(),
            old(self).has(addr as int),
            old(self)@[addr as int].lock_state == 0,
        ensures
            final(self).wf(),
            final(self)@ == old(self)@.update(addr as int, old(self)@[addr as int].lock_write(writer)),
    {
        self.cells[addr].lock_write(writer);
        assert(final(self)@ =~= old(self)@.update(addr as int, old(self)@[addr as int].lock_write(writer)));
    }

    pub(crate) fn cell_unlock_write(&mut self, addr: usize)
        requires
            old(self).wf(),
            old(self).has(addr as int),
        ensures
            final(self).wf(),
            final(self)@ == old(self)@.update(addr as int, old(self)@[addr as int].unlock_write()),
    {
        self.cells[addr].unlock_write();
        assert(final(self)@ =~= old(self)@.update(addr as int, old(self)@[addr as int].unlock_write()));
    }

    pub(crate) fn cell_read_step(&self, addr: usize, thread: u64, first: bool) -> (step: LockStep)
        requires
            self.wf(),
            self.has(addr as int),
        ensures
            step == self@[addr as int].read_step(thread, first),
    {
        self.cells[addr].read_step(thread, first)
    }

    pub(crate) fn cell_write_step(&self, addr: usize, thread: u64, first: bool) -> (step: LockStep)
        requires
            self.wf(),
            self.has(addr as int),
        ensures
            step == self@[addr as int].write_step(thread, first),
    {
        self.cells[addr].write_step(thread, first)
    }

    pub(crate) fn cell_type_key(&self, addr: usize) -> (key: Option<u64>)
        requires
            self.has(addr as int),
        ensures
            key.is_some() == self@[addr as int].payload.is_some(),
            key.is_some() ==> key.unwrap() == self@[addr as int].payload.unwrap().type_key,
    {
        match &self.cells[addr].component {
            Some(p) => Some(p.type_key),
            None => None,
        }
    }

    pub(crate) fn payload_ref(&self, addr: usize) -> (value: &P)
        requires
            self.has(addr as int),
            self@[addr as int].payload.is_some(),
        ensures
            *value == self@[addr as int].payload.unwrap().value,
    {
        self.cells[addr].payload_ref()
    }

    pub(crate) fn payload_mut(&mut self, addr: usize) -> (value: &mut P)
        requires
            old(self).wf(),
            old(self).has(addr as int),
            old(self)@[addr as int].payload.is_some(),
        ensures
            *value == old(self)@[addr as int].payload.unwrap().value,
            final(self).wf(),
            final(self)@ == old(self)@.update(
                addr as int,
                old(self)@[addr as int].with_value(*final(value)),
            ),
    {
        self.cells[addr].payload_mut()
    }
}

/// What one attempt to take a guard came to.
pub enum LockAttempt<G> {
    /// The lock was taken: here is the guard.
    Acquired(G),
    /// Others hold the lock: the caller yields and tries again.
    Busy,
    /// The calling thread itself holds the write lock, taken at the given place.
    Deadlock(CallSite),
}

/// The payload of a cell is not of the type that was asked for.
#[derive(Copy, Clone, Debug)]
pub struct TypeMismatchError {
    expected: &'static str,
    found: &'static str,
}

impl View for TypeMismatchError {
    type V = (Seq<char>, Seq<char>);

    /// The name of the type that was asked for, and of the type that the cell
    /// was created for.
    closed spec fn view(&self) -> (Seq<char>, Seq<char>) {
        (self.expected@, self.found@)
    }
}

impl TypeMismatchError {
    pub fn new(expected: &'static str, found: &'static str) -> (error: Self)
        ensures
            error@ == (expected@, found@),
    {
        Self { expected, found }
    }

    /// The name of the type that was asked for.
    pub fn expected(&self) -> (name: &'static str)
        ensures
            name@ == self@.0,
    {
        self.expected
    }

    /// The name of the type that the cell was created for.
    pub fn found(&self) -> (name: &'static str)
        ensures
            name@ == self@.1,
    {
        self.found
    }

    /// What the error says of itself.
    pub open spec fn spec_message(self) -> Seq<char> {
        "Type mismatch: expected "@ + self@.0 + ", found "@ + self@.1
    }

    /// The error as a line of text.
    pub fn message(&self) -> (text: String)
        ensures
            text@ == self.spec_message(),
    {
        let mut text = String::from_str("Type mismatch: expected ");
        text.append(self.expected);
        text.append(", found ");
        text.append(self.found);
        text
    }
}

/// A strong reference to a cell: while one exists, the payload stays alive.
pub struct ComponentPtr {
    data: usize,
}

impl ComponentPtr {
    /// The address of the cell that the reference points to.
    pub closed spec fn addr(&self) -> int {
        self.data as int
    }

    /// The reference points to a cell of `heap` whose payload is still kept alive.
    pub open spec fn live<P>(&self, heap: &ComponentHeap<P>) -> bool {
        &&& heap.has(self.addr())
        &&& heap@[self.addr()].strong >= 1
    }

    /// The address of the cell that the reference points to.
    pub fn address(&self) -> (addr: usize)
        ensures
            addr == self.addr(),
    {
        self.data
    }

    pub(crate) fn from_addr(addr: usize) -> (ptr: ComponentPtr)
        ensures
            ptr.addr() == addr,
    {
        ComponentPtr { data: addr }
    }

    /// Allocates a cell that holds `inner`, and returns the first reference to it.
    pub fn new<P>(heap: &mut ComponentHeap<P>, tag: TypeTag, inner: P) -> (ptr: ComponentPtr)
        requires
            old(heap).wf(),
        ensures
            final(heap).wf(),
            ptr.addr() == old(heap)@.len(),
            final(heap)@ == old(heap)@.push(CellState::created(tag, inner)),
    {
        let addr = heap.allocate(tag, Some(inner));
        ComponentPtr { data: addr }
    }

    /// Allocates a cell for a payload that comes later, and returns the first
    /// reference to it.
    pub fn uninitialized<P>(heap: &mut ComponentHeap<P>, tag: TypeTag) -> (ptr: ComponentPtr)
        requires
            old(heap).wf(),
        ensures
            final(heap).wf(),
            ptr.addr() == old(heap)@.len(),
            final(heap)@ == old(heap)@.push(CellState::<P>::forward_declared(tag)),
    {
        let addr = heap.allocate(tag, None);
        ComponentPtr { data: addr }
    }

    /// Checks if the component has been orphaned, that is removed from its store.
    pub fn is_orphaned<P>(&self, heap: &ComponentHeap<P>) -> (orphaned: bool)
        requires
            heap.has(self.addr()),
        ensures
            orphaned == heap@[self.addr()].orphaned,
    {
        heap.flags(self.data).contains(LockState::orphaned())
    }

    /// Marks the component as orphaned. Nothing else changes.
    pub fn orphan<P>(&self, heap: &mut ComponentHeap<P>)
        requires
            old(heap).wf(),
            old(heap).has(self.addr()),
        ensures
            final(heap).wf(),
            final(heap)@ == old(heap)@.update(self.addr(), old(heap)@[self.addr()].orphan()),
    {
        heap.cell_orphan(self.data);
    }

    /// The payload.
    pub(crate) fn inner_ref<'a, P>(&self, heap: &'a ComponentHeap<P>) -> (value: &'a P)
        requires
            heap.has(self.addr()),
            heap@[self.addr()].payload.is_some(),
        ensures
            *value == heap@[self.addr()].payload.unwrap().value,
    {
        heap.payload_ref(self.data)
    }

    /// The payload, to be changed in place.
    pub(crate) fn inner_mut<'a, P>(&mut self, heap: &'a mut ComponentHeap<P>) -> (value: &'a mut P)
        requires
            old(heap).wf(),
            old(heap).has(old(self).addr()),
            old(heap)@[old(self).addr()].payload.is_some(),
        ensures
            final(self).addr() == old(self).addr(),
            *value == old(heap)@[old(self).addr()].payload.unwrap().value,
            final(heap).wf(),
            final(heap)@ == old(heap)@.update(
                old(self).addr(),
                old(heap)@[old(self).addr()].with_value(*final(value)),
            ),
    {
        heap.payload_mut(self.data)
    }

    /// Turns the strong reference into a weak one.
    pub fn downgrade<P>(self, heap: &mut ComponentHeap<P>) -> (weak: WeakComponentPtr)
        requires
            old(heap).wf(),
            self.live(old(heap)),
            old(heap)@[self.addr()].weak < usize::MAX,
        ensures
            final(heap).wf(),
            weak.addr() == self.addr(),
            final(heap)@ == old(heap)@.update(self.addr(), old(heap)@[self.addr()].downgrade()),
    {
        heap.cell_add_weak(self.data);
        heap.cell_release(self.data);
        WeakComponentPtr::new(self.data)
    }

    /// Checks if the component is of the type with the given key.
    pub fn is<P>(&self, heap: &ComponentHeap<P>, key: u64) -> (same: bool)
        requires
            heap.has(self.addr()),
            heap@[self.addr()].payload.is_some(),
        ensures
            same == heap@[self.addr()].holds_type(key),
    {
        match heap.cell_type_key(self.data) {
            Some(k) => k == key,
            None => false,
        }
    }

    /// Initializes the component with the given value. Only the first call on a
    /// cell does so and returns `Some`; every later one changes nothing.
    pub fn initialize<P>(&mut self, heap: &mut ComponentHeap<P>, key: u64, component: P) -> (done:
        Option<()>)
        requires
            old(heap).wf(),
            old(self).live(old(heap)),
        ensures
            final(self).addr() == old(self).addr(),
            final(heap).wf(),
            done.is_some() <==> !old(heap)@[old(self).addr()].initialized,
            final(heap)@ == old(heap)@.update(
                old(self).addr(),
                old(heap)@[old(self).addr()].initialize(key, component),
            ),
    {
        heap.cell_initialize(self.data, key, component)
    }

    /// Gives up one strong reference by hand. The last one destroys the payload,
    /// and gives the memory back once no weak reference is left either.
    pub fn release<P>(&self, heap: &mut ComponentHeap<P>)
        requires
            old(heap).wf(),
            self.live(old(heap)),
        ensures
            final(heap).wf(),
            final(heap)@ == old(heap)@.update(self.addr(), old(heap)@[self.addr()].release()),
    {
        heap.cell_release(self.data);
    }

    /// Takes one more strong reference by hand, and one more weak unit with it.
    pub fn retain<P>(&self, heap: &mut ComponentHeap<P>)
        requires
            old(heap).wf(),
            self.live(old(heap)),
            old(heap)@[self.addr()].strong < usize::MAX,
            old(heap)@[self.addr()].weak < usize::MAX,
        ensures
            final(heap).wf(),
            final(heap)@ == old(heap)@.update(self.addr(), old(heap)@[self.addr()].retain()),
    {
        heap.cell_retain(self.data);
    }

    /// Another strong reference to the same cell.
    pub fn clone<P>(&self, heap: &mut ComponentHeap<P>) -> (copy: ComponentPtr)
        requires
            old(heap).wf(),
            self.live(old(heap)),
            old(heap)@[self.addr()].strong < usize::MAX,
        ensures
            final(heap).wf(),
            copy.addr() == self.addr(),
            final(heap)@ == old(heap)@.update(self.addr(), old(heap)@[self.addr()].acquire()),
    {
        heap.cell_acquire(self.data);
        ComponentPtr { data: self.data }
    }

    /// Gives the reference up. The last one destroys the payload, and gives the
    /// memory back once no weak reference is left either.
    pub fn drop<P>(self, heap: &mut ComponentHeap<P>)
        requires
            old(heap).wf(),
            self.live(old(heap)),
        ensures
            final(heap).wf(),
            final(heap)@ == old(heap)@.update(self.addr(), old(heap)@[self.addr()].release()),
    {
        heap.cell_release(self.data);
    }
}

impl ComponentPtr {
    /// One attempt to get a read guard for the component, for a caller that shares
    /// the heap with other threads: where the lock is held by others the attempt
    /// comes to `Busy` and changes nothing, and the caller yields and tries again
    /// with `first` unset. A cell without a payload gives `Ok(None)`, a payload
    /// of another type than `wanted` gives the error.
    pub fn poll_read<P>(
        &self,
        heap: &mut ComponentHeap<P>,
        wanted: TypeTag,
        thread: u64,
        first: bool,
    ) -> (out: Result<Option<LockAttempt<ComponentReadGuard>>, TypeMismatchError>)
        requires
            old(heap).wf(),
            self.live(old(heap)),
            old(heap)@[self.addr()].holds_type(wanted.key) ==> !old(heap)@[self.addr()].orphaned,
            old(heap)@[self.addr()].holds_type(wanted.key) && old(heap)@[self.addr()].read_step(
                thread,
                first,
            ) == LockStep::Acquired ==> {
                &&& old(heap)@[self.addr()].strong + 2 <= usize::MAX
                &&& old(heap)@[self.addr()].weak < usize::MAX
                &&& old(heap)@[self.addr()].lock_state < isize::MAX
            },
        ensures
            final(heap).wf(),
            match out {
                Err(e) => {
                    &&& old(heap)@[self.addr()].payload.is_some()
                    &&& !old(heap)@[self.addr()].holds_type(wanted.key)
                    &&& e@ == (wanted.name@, old(heap)@[self.addr()].type_label@)
                    &&& final(heap)@ == old(heap)@
                },
                Ok(None) => {
                    &&& old(heap)@[self.addr()].payload.is_none()
                    &&& final(heap)@ == old(heap)@
                },
                Ok(Some(LockAttempt::Acquired(guard))) => {
                    &&& old(heap)@[self.addr()].holds_type(wanted.key)
                    &&& old(heap)@[self.addr()].read_step(thread, first) == LockStep::Acquired
                    &&& guard.addr() == self.addr()
                    &&& final(heap)@ == old(heap)@.update(
                        self.addr(),
                        old(heap)@[self.addr()].acquire().retain().lock_read(),
                    )
                },
                Ok(Some(LockAttempt::Busy)) => {
                    &&& old(heap)@[self.addr()].holds_type(wanted.key)
                    &&& old(heap)@[self.addr()].read_step(thread, first) == LockStep::Busy
                    &&& final(heap)@ == old(heap)@
                },
                Ok(Some(LockAttempt::Deadlock(site))) => {
                    &&& old(heap)@[self.addr()].holds_type(wanted.key)
                    &&& old(heap)@[self.addr()].read_step(thread, first) == LockStep::Deadlock(
                        site,
                    )
                    &&& final(heap)@ == old(heap)@
                },
            },
    {
        if !heap.has_component(self.data) {
            return Ok(None);
        }
        if !self.is(heap, wanted.key) {
            return Err(TypeMismatchError::new(wanted.name, heap.type_label(self.data)));
        }
        proof {
            heap.lemma_cells();
        }
        match heap.cell_read_step(self.data, thread, first) {
            LockStep::Acquired => {
                let inner = self.clone(heap);
                Ok(Some(LockAttempt::Acquired(ComponentReadGuard::lock(inner, heap))))
            },
            LockStep::Busy => Ok(Some(LockAttempt::Busy)),
            LockStep::Deadlock(site) => Ok(Some(LockAttempt::Deadlock(site))),
        }
    }

    /// Attempts to get a read guard for the component, where the lock is free
    /// for it. A cell without a payload gives `Ok(None)`, a payload of another
    /// type than `wanted` gives the error.
    pub fn try_read<P>(
        &self,
        heap: &mut ComponentHeap<P>,
        wanted: TypeTag,
    ) -> (out: Result<Option<ComponentReadGuard>, TypeMismatchError>)
        requires
            old(heap).wf(),
            self.live(old(heap)),
            old(heap)@[self.addr()].holds_type(wanted.key) ==> {
                &&& !old(heap)@[self.addr()].orphaned && 0 <= old(heap)@[self.addr()].lock_state
                &&& old(heap)@[self.addr()].strong + 2 <= usize::MAX
                &&& old(heap)@[self.addr()].weak < usize::MAX
                &&& old(heap)@[self.addr()].lock_state < isize::MAX
            },
        ensures
            final(heap).wf(),
            match out {
                Err(e) => {
                    &&& old(heap)@[self.addr()].payload.is_some()
                    &&& !old(heap)@[self.addr()].holds_type(wanted.key)
                    &&& e@ == (wanted.name@, old(heap)@[self.addr()].type_label@)
                    &&& final(heap)@ == old(heap)@
                },
                Ok(None) => {
                    &&& old(heap)@[self.addr()].payload.is_none()
                    &&& final(heap)@ == old(heap)@
                },
                Ok(Some(guard)) => {
                    &&& old(heap)@[self.addr()].holds_type(wanted.key)
                    &&& guard.addr() == self.addr()
                    &&& final(heap)@ == old(heap)@.update(
                        self.addr(),
                        old(heap)@[self.addr()].acquire().retain().lock_read(),
                    )
                },
            },
    {
        if !heap.has_component(self.data) {
            return Ok(None);
        }
        if !self.is(heap, wanted.key) {
            return Err(TypeMismatchError::new(wanted.name, heap.type_label(self.data)));
        }
        proof {
            heap.lemma_cells();
        }
        let inner = self.clone(heap);
        Ok(Some(ComponentReadGuard::lock(inner, heap)))
    }

    /// Gets a read guard for the component. The cell holds a payload of the type
    /// `wanted`, and its lock is free for a reader.
    pub fn read<P>(&self, heap: &mut ComponentHeap<P>, wanted: TypeTag) -> (guard:
        ComponentReadGuard)
        requires
            old(heap).wf(),
            self.live(old(heap)),
            old(heap)@[self.addr()].holds_type(wanted.key),
            !old(heap)@[self.addr()].orphaned && 0 <= old(heap)@[self.addr()].lock_state,
            old(heap)@[self.addr()].strong + 2 <= usize::MAX,
            old(heap)@[self.addr()].weak < usize::MAX,
            old(heap)@[self.addr()].lock_state < isize::MAX,
        ensures
            final(heap).wf(),
            guard.addr() == self.addr(),
            final(heap)@ == old(heap)@.update(
                self.addr(),
                old(heap)@[self.addr()].acquire().retain().lock_read(),
            ),
    {
        match self.try_read(heap, wanted) {
            Ok(Some(guard)) => guard,
            _ => vstd::pervasive::unreached(),
        }
    }

    /// One attempt to get a write guard for the component, for a caller that shares
    /// the heap with other threads: where the lock is held by others the attempt
    /// comes to `Busy` and changes nothing, and the caller yields and tries again
    /// with `first` unset. A cell without a payload gives `Ok(None)`, a payload
    /// of another type than `wanted` gives the error.
    pub fn poll_write<P>(
        &self,
        heap: &mut ComponentHeap<P>,
        wanted: TypeTag,
        thread: u64,
        location: CallSite,
        first: bool,
    ) -> (out: Result<Option<LockAttempt<ComponentWriteGuard>>, TypeMismatchError>)
        requires
            old(heap).wf(),
            self.live(old(heap)),
            old(heap)@[self.addr()].holds_type(wanted.key) && old(heap)@[self.addr()].write_step(
                thread,
                first,
            ) == LockStep::Acquired ==> {
                &&& old(heap)@[self.addr()].strong + 2 <= usize::MAX
                &&& old(heap)@[self.addr()].weak < usize::MAX
                &&& old(heap)@[self.addr()].lock_state < isize::MAX
            },
        ensures
            final(heap).wf(),
            match out {
                Err(e) => {
                    &&& old(heap)@[self.addr()].payload.is_some()
                    &&& !old(heap)@[self.addr()].holds_type(wanted.key)
                    &&& e@ == (wanted.name@, old(heap)@[self.addr()].type_label@)
                    &&& final(heap)@ == old(heap)@
                },
                Ok(None) => {
                    &&& old(heap)@[self.addr()].payload.is_none()
                    &&& final(heap)@ == old(heap)@
                },
                Ok(Some(LockAttempt::Acquired(guard))) => {
                    &&& old(heap)@[self.addr()].holds_type(wanted.key)
                    &&& old(heap)@[self.addr()].write_step(thread, first) == LockStep::Acquired
                    &&& guard.addr() == self.addr()
                    &&& final(heap)@ == old(heap)@.update(
                        self.addr(),
                        old(heap)@[self.addr()].acquire().retain().lock_write(Writer { thread, site: location }),
                    )
                },
                Ok(Some(LockAttempt::Busy)) => {
                    &&& old(heap)@[self.addr()].holds_type(wanted.key)
                    &&& old(heap)@[self.addr()].write_step(thread, first) == LockStep::Busy
                    &&& final(heap)@ == old(heap)@
                },
                Ok(Some(LockAttempt::Deadlock(site))) => {
                    &&& old(heap)@[self.addr()].holds_type(wanted.key)
                    &&& old(heap)@[self.addr()].write_step(thread, first) == LockStep::Deadlock(
                        site,
                    )
                    &&& final(heap)@ == old(heap)@
                },
            },
    {
        if !heap.has_component(self.data) {
            return Ok(None);
        }
        if !self.is(heap, wanted.key) {
            return Err(TypeMismatchError::new(wanted.name, heap.type_label(self.data)));
        }
        proof {
            heap.lemma_cells();
        }
        match heap.cell_write_step(self.data, thread, first) {
            LockStep::Acquired => {
                let inner = self.clone(heap);
                Ok(Some(LockAttempt::Acquired(ComponentWriteGuard::lock(inner, heap, thread, location))))
            },
            LockStep::Busy => Ok(Some(LockAttempt::Busy)),
            LockStep::Deadlock(site) => Ok(Some(LockAttempt::Deadlock(site))),
        }
    }

    /// Attempts to get a write guard for the component, where the lock is free
    /// for it. A cell without a payload gives `Ok(None)`, a payload of another
    /// type than `wanted` gives the error.
    pub fn try_write<P>(
        &self,
        heap: &mut ComponentHeap<P>,
        wanted: TypeTag,
        thread: u64,
        location: CallSite,
    ) -> (out: Result<Option<ComponentWriteGuard>, TypeMismatchError>)
        requires
            old(heap).wf(),
            self.live(old(heap)),
            old(heap)@[self.addr()].holds_type(wanted.key) ==> {
                &&& old(heap)@[self.addr()].lock_state == 0
                &&& old(heap)@[self.addr()].strong + 2 <= usize::MAX
                &&& old(heap)@[self.addr()].weak < usize::MAX
                &&& old(heap)@[self.addr()].lock_state < isize::MAX
            },
        ensures
            final(heap).wf(),
            match out {
                Err(e) => {
                    &&& old(heap)@[self.addr()].payload.is_some()
                    &&& !old(heap)@[self.addr()].holds_type(wanted.key)
                    &&& e@ == (wanted.name@, old(heap)@[self.addr()].type_label@)
                    &&& final(heap)@ == old(heap)@
                },
                Ok(None) => {
                    &&& old(heap)@[self.addr()].payload.is_none()
                    &&& final(heap)@ == old(heap)@
                },
                Ok(Some(guard)) => {
                    &&& old(heap)@[self.addr()].holds_type(wanted.key)
                    &&& guard.addr() == self.addr()
                    &&& final(heap)@ == old(heap)@.update(
                        self.addr(),
                        old(heap)@[self.addr()].acquire().retain().lock_write(Writer { thread, site: location }),
                    )
                },
            },
    {
        if !heap.has_component(self.data) {
            return Ok(None);
        }
        if !self.is(heap, wanted.key) {
            return Err(TypeMismatchError::new(wanted.name, heap.type_label(self.data)));
        }
        proof {
            heap.lemma_cells();
        }
        let inner = self.clone(heap);
        Ok(Some(ComponentWriteGuard::lock(inner, heap, thread, location)))
    }

    /// Gets a write guard for the component. The cell holds a payload of the type
    /// `wanted`, and its lock is free for a writer.
    pub fn write<P>(&self, heap: &mut ComponentHeap<P>, wanted: TypeTag, thread: u64, location: CallSite) -> (guard:
        ComponentWriteGuard)
        requires
            old(heap).wf(),
            self.live(old(heap)),
            old(heap)@[self.addr()].holds_type(wanted.key),
            old(heap)@[self.addr()].lock_state == 0,
            old(heap)@[self.addr()].strong + 2 <= usize::MAX,
            old(heap)@[self.addr()].weak < usize::MAX,
            old(heap)@[self.addr()].lock_state < isize::MAX,
        ensures
            final(heap).wf(),
            guard.addr() == self.addr(),
            final(heap)@ == old(heap)@.update(
                self.addr(),
                old(heap)@[self.addr()].acquire().retain().lock_write(Writer { thread, site: location }),
            ),
    {
        match self.try_write(heap, wanted, thread, location) {
            Ok(Some(guard)) => guard,
            _ => vstd::pervasive::unreached(),
        }
    }
}

/// The check that a thread makes before it waits for the lock of the cell at
/// `addr`: it is not itself the thread that holds the cell's write lock, or it
/// would wait for itself. The check changes nothing.
pub fn check_deadlock<P>(heap: &ComponentHeap<P>, addr: usize, thread: u64)
    requires
        heap.wf(),
        heap.has(addr as int),
        !heap@[addr as int].written_by(thread),
{
}

} // verus!
