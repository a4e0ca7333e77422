//! What holds of the cell and of the store over several steps.
use vstd::prelude::*;

use crate::component::resource::{CallSite, CellState, LockStep, TypeTag, Writer};
use crate::component::StoreState;

verus! {

/// What a holder does with a strong reference: it copies it, or gives it up.
pub enum RefOp {
    Clone,
    Drop,
}

/// The cell after one step of a holder.
pub open spec fn step<P>(cell: CellState<P>, op: RefOp) -> CellState<P> {
    match op {
        RefOp::Clone => cell.acquire(),
        RefOp::Drop => cell.release(),
    }
}

/// The cell after a sequence of steps.
pub open spec fn run<P>(cell: CellState<P>, ops: Seq<RefOp>) -> CellState<P>
    decreases ops.len(),
{
    if ops.len() == 0 {
        cell
    } else {
        step(run(cell, ops.drop_last()), ops.last())
    }
}

/// Every step of the sequence is taken by a holder of a strong reference: the
/// strong count is not zero before it.
pub open spec fn permitted<P>(cell: CellState<P>, ops: Seq<RefOp>) -> bool
    decreases ops.len(),
{
    ops.len() > 0 ==> permitted(cell, ops.drop_last()) && run(cell, ops.drop_last()).strong >= 1
}

/// How many copies the sequence makes.
pub open spec fn clones(ops: Seq<RefOp>) -> int
    decreases ops.len(),
{
    if ops.len() == 0 {
        0
    } else {
        clones(ops.drop_last()) + if ops.last() is Clone {
            1int
        } else {
            0int
        }
    }
}

/// How many references the sequence gives up.
pub open spec fn drops(ops: Seq<RefOp>) -> int
    decreases ops.len(),
{
    if ops.len() == 0 {
        0
    } else {
        drops(ops.drop_last()) + if ops.last() is Drop {
            1int
        } else {
            0int
        }
    }
}

/// How often the payload is destroyed along the sequence: once for each step
/// before which it is present and after which it is not.
pub open spec fn destructions<P>(cell: CellState<P>, ops: Seq<RefOp>) -> int
    decreases ops.len(),
{
    if ops.len() == 0 {
        0
    } else {
        destructions(cell, ops.drop_last()) + if run(cell, ops.drop_last()).payload.is_some()
            && run(cell, ops).payload.is_none() {
            1int
        } else {
            0int
        }
    }
}

/// Over any sequence of copies and drops of a strong reference, the strong count
/// moves by the number of copies less the number of drops, so it is back at its
/// first value once every copy has been dropped. Nothing else in the cell changes
/// while the count is above zero. The payload is destroyed at most once, and
/// exactly when the count reaches zero.
pub proof fn lemma_clone_drop<P>(cell: CellState<P>, ops: Seq<RefOp>)
    requires
        cell.wf(),
        permitted(cell, ops),
    ensures
        run(cell, ops).wf(),
        ops.len() > 0 ==> cell.strong >= 1,
        run(cell, ops).strong == cell.strong + clones(ops) - drops(ops),
        clones(ops) == drops(ops) ==> run(cell, ops) == cell,
        run(cell, ops).strong >= 1 ==> run(cell, ops) == (CellState {
            strong: run(cell, ops).strong,
            ..cell
        }),
        run(cell, ops).strong >= 1 ==> destructions(cell, ops) == 0,
        run(cell, ops).strong == 0 ==> run(cell, ops).payload.is_none(),
        run(cell, ops).strong == 0 && cell.strong >= 1 && cell.payload.is_some() ==> destructions(
            cell,
            ops,
        ) == 1,
        destructions(cell, ops) <= 1,
    decreases ops.len(),
{
    if ops.len() > 0 {
        lemma_clone_drop(cell, ops.drop_last());
    }
}

/// Every step of the protocol keeps the cell's invariant, where the step is
/// taken by one who may take it: a strong holder copies, retains, releases,
/// initializes and locks; a weak holder upgrades and drops; a reader or the
/// writer gives back the lock that it holds.
pub proof fn lemma_steps_keep_invariant<P>(cell: CellState<P>, key: u64, value: P, writer: Writer)
    requires
        cell.wf(),
    ensures
        cell.orphan().wf(),
        cell.retain().wf(),
        cell.strong >= 1 ==> cell.acquire().wf(),
        cell.strong >= 1 ==> cell.release().wf(),
        cell.strong >= 1 ==> cell.downgrade().wf(),
        cell.strong >= 1 ==> cell.initialize(key, value).wf(),
        cell.weak >= 1 && (cell.strong >= 1 ==> cell.weak >= 2) ==> cell.drop_weak().wf(),
        cell.lock_state >= 0 ==> cell.lock_read().wf() && cell.lock_read().lock_state
            == cell.lock_state + 1,
        cell.lock_state >= 1 ==> cell.unlock_read().wf() && cell.unlock_read().lock_state
            == cell.lock_state - 1,
        cell.lock_state == 0 ==> cell.lock_write(writer).wf() && cell.lock_write(writer).lock_state
            == -1,
        cell.unlock_write().wf() && cell.unlock_write().lock_state == 0,
{
}

/// A cell is initialized once: the first attempt stores its payload, and an
/// attempt on an initialized cell changes nothing.
pub proof fn lemma_initialize_once<P>(cell: CellState<P>, key: u64, first: P, second: P)
    requires
        cell.wf(),
    ensures
        cell.initialize(key, first).initialized,
        cell.initialize(key, first).initialize(key, second) == cell.initialize(key, first),
        !cell.initialized ==> cell.initialize(key, first).payload == Some(
            crate::component::resource::Erased { type_key: key, value: first },
        ),
{
}

/// Once the last strong reference is dropped, no weak reference can be upgraded
/// any more: the strong count stays at zero. The memory of a cell is given
/// back only when its strong and its weak count are both zero, and the drop of
/// the last weak reference is what gives it back.
pub proof fn lemma_weak_after_last_strong<P>(cell: CellState<P>)
    requires
        cell.wf(),
    ensures
        cell.strong == 1 ==> !cell.release().can_upgrade(),
        cell.strong == 1 ==> cell.release().upgrade() == cell.release(),
        !cell.can_upgrade() ==> cell.upgrade() == cell && cell.upgrade().payload.is_none(),
        cell.can_upgrade() ==> cell.upgrade() == (CellState { strong: cell.strong + 1, ..cell })
            && cell.upgrade().wf(),
        cell.strong == 1 ==> cell.release().payload.is_none(),
        !cell.can_upgrade() ==> cell.strong == 0,
        cell.freed() ==> cell.strong == 0 && cell.weak == 0,
        cell.strong >= 1 ==> !cell.release().freed() || cell.weak == 1,
        cell.weak >= 1 ==> (cell.drop_weak().freed() <==> cell.weak == 1),
        cell.strong == 1 && cell.weak >= 2 ==> !cell.release().freed() && cell.release().weak
            == cell.weak - 1,
{
}

/// A guard leaves the cell as it found it: after a read guard, or a write guard,
/// has been taken and dropped, the counts, the lock word and everything else are
/// what they were before, so that the last reference of all still frees the
/// cell.
pub proof fn lemma_guard_round_trip<P>(cell: CellState<P>, writer: Writer)
    requires
        cell.wf(),
        cell.strong >= 1,
    ensures
        cell.lock_state >= 0
            ==> cell.acquire().retain().lock_read().unlock_read().unretain().release() == cell,
        cell.lock_state == 0 ==> cell.acquire().retain().lock_write(
            writer,
        ).unlock_write().unretain().release() == cell,
        cell.lock_state == 0 && cell.strong == 1 && cell.weak == 1
            ==> cell.acquire().retain().lock_read().unlock_read().unretain().release().release().freed(),
{
}

/// What is done with a guard: it is taken, which copies a strong reference,
/// retains the cell and takes the lock, or it is dropped, which undoes all
/// three; and under
/// a write guard the component is given another value.
pub enum GuardOp<P> {
    TakeRead,
    DropRead,
    TakeWrite(Writer),
    Store(P),
    DropWrite,
}

/// Whether the step may be taken on the cell: a guard is taken only from a lock
/// that is free for it, a guard is dropped only by one that holds it, and only
/// the writer stores.
pub open spec fn guard_allowed<P>(cell: CellState<P>, op: GuardOp<P>) -> bool {
    match op {
        GuardOp::TakeRead => cell.lock_state >= 0,
        GuardOp::DropRead => cell.lock_state >= 1,
        GuardOp::TakeWrite(_) => cell.lock_state == 0,
        GuardOp::Store(_) => cell.lock_state == -1 && cell.payload.is_some(),
        GuardOp::DropWrite => cell.lock_state == -1,
    }
}

/// The cell after one step with a guard.
pub open spec fn guard_step<P>(cell: CellState<P>, op: GuardOp<P>) -> CellState<P> {
    match op {
        GuardOp::TakeRead => cell.acquire().retain().lock_read(),
        GuardOp::DropRead => cell.unlock_read().unretain().release(),
        GuardOp::TakeWrite(writer) => cell.acquire().retain().lock_write(writer),
        GuardOp::Store(value) => cell.with_value(value),
        GuardOp::DropWrite => cell.unlock_write().unretain().release(),
    }
}

/// The cell after a sequence of steps with guards, in the order in which they
/// take effect.
pub open spec fn guard_run<P>(cell: CellState<P>, ops: Seq<GuardOp<P>>) -> CellState<P>
    decreases ops.len(),
{
    if ops.len() == 0 {
        cell
    } else {
        guard_step(guard_run(cell, ops.drop_last()), ops.last())
    }
}

/// Every step of the sequence may be taken on the cell that the steps before it
/// leave.
pub open spec fn guards_permitted<P>(cell: CellState<P>, ops: Seq<GuardOp<P>>) -> bool
    decreases ops.len(),
{
    ops.len() > 0 ==> guards_permitted(cell, ops.drop_last()) && guard_allowed(
        guard_run(cell, ops.drop_last()),
        ops.last(),
    )
}

/// How many read guards are held after the sequence.
pub open spec fn readers<P>(ops: Seq<GuardOp<P>>) -> int
    decreases ops.len(),
{
    if ops.len() == 0 {
        0
    } else {
        readers(ops.drop_last()) + match ops.last() {
            GuardOp::TakeRead => 1int,
            GuardOp::DropRead => -1int,
            _ => 0int,
        }
    }
}

/// How many write guards are held after the sequence.
pub open spec fn writers<P>(ops: Seq<GuardOp<P>>) -> int
    decreases ops.len(),
{
    if ops.len() == 0 {
        0
    } else {
        writers(ops.drop_last()) + match ops.last() {
            GuardOp::TakeWrite(_) => 1int,
            GuardOp::DropWrite => -1int,
            _ => 0int,
        }
    }
}

/// However the steps of readers and writers on one cell follow each other, the
/// lock word counts the read guards that are held, or is `-1` while the one
/// write guard is held, and never both are held; the strong count is two and
/// the weak count one for each guard above what it was; and once every guard is
/// dropped the cell is what it was at first, but for the value that writers
/// stored.
pub proof fn lemma_guards_interleaved<P>(cell: CellState<P>, ops: Seq<GuardOp<P>>)
    requires
        cell.wf(),
        cell.strong >= 1,
        cell.lock_state == 0,
        guards_permitted(cell, ops),
    ensures
        guard_run(cell, ops).wf(),
        readers(ops) >= 0,
        0 <= writers(ops) <= 1,
        writers(ops) == 1 ==> readers(ops) == 0 && guard_run(cell, ops).lock_state == -1,
        writers(ops) == 0 ==> guard_run(cell, ops).lock_state == readers(ops),
        guard_run(cell, ops).strong == cell.strong + 2 * (readers(ops) + writers(ops)),
        guard_run(cell, ops).weak == cell.weak + readers(ops) + writers(ops),
        guard_run(cell, ops).payload.is_some() == cell.payload.is_some(),
        guard_run(cell, ops) == (CellState {
            strong: guard_run(cell, ops).strong,
            weak: guard_run(cell, ops).weak,
            lock_state: guard_run(cell, ops).lock_state,
            writer: guard_run(cell, ops).writer,
            payload: guard_run(cell, ops).payload,
            ..cell
        }),
        readers(ops) == 0 && writers(ops) == 0 ==> guard_run(cell, ops) == (CellState {
            payload: guard_run(cell, ops).payload,
            ..cell
        }),
    decreases ops.len(),
{
    if ops.len() > 0 {
        lemma_guards_interleaved(cell, ops.drop_last());
    }
}

/// While a read guard is held, the component does not change: whatever step may
/// follow leaves the payload as it is, and neither a store nor a write guard may
/// follow. A value is stored in one step, so that a reader sees the first value
/// or one that a writer stored in full.
pub proof fn lemma_readers_see_whole_values<P>(
    cell: CellState<P>,
    ops: Seq<GuardOp<P>>,
    next: GuardOp<P>,
)
    requires
        cell.wf(),
        cell.strong >= 1,
        cell.lock_state == 0,
        guards_permitted(cell, ops),
        readers(ops) >= 1,
        guard_allowed(guard_run(cell, ops), next),
    ensures
        next is TakeRead || next is DropRead,
        guard_step(guard_run(cell, ops), next).payload == guard_run(cell, ops).payload,
{
    lemma_guards_interleaved(cell, ops);
}

/// Readers share the lock and a writer excludes everyone: while a reader holds
/// the lock more readers get it and no writer does, and while the writer holds it
/// nobody gets it.
pub proof fn lemma_lock_excludes<P>(cell: CellState<P>, writer: Writer, thread: u64, first: bool)
    requires
        cell.wf(),
    ensures
        cell.lock_state >= 0 ==> cell.lock_read().read_step(thread, first) == LockStep::Acquired,
        cell.lock_state >= 0 ==> cell.lock_read().write_step(thread, first) == LockStep::Busy,
        cell.lock_state == 0 ==> cell.lock_write(writer).read_step(thread, first)
            != LockStep::Acquired,
        cell.lock_state == 0 ==> cell.lock_write(writer).write_step(thread, first)
            != LockStep::Acquired,
        cell.lock_state == 0 ==> cell.read_step(thread, first) == LockStep::Acquired
            && cell.write_step(thread, first) == LockStep::Acquired,
{
}

/// A thread that holds the write lock of a cell and asks for the same cell's
/// lock again is told of the deadlock, with the place where it took the lock that
/// it holds. Another thread is only told to wait.
pub proof fn lemma_deadlock_is_detected<P>(
    cell: CellState<P>,
    thread: u64,
    site: CallSite,
    other: u64,
)
    requires
        cell.wf(),
        cell.lock_state == 0,
        other != thread,
    ensures
        cell.lock_write(Writer { thread, site }).write_step(thread, true) == LockStep::Deadlock(
            site,
        ),
        cell.lock_write(Writer { thread, site }).read_step(thread, true) == LockStep::Deadlock(site),
        cell.lock_write(Writer { thread, site }).lock_state == -1,
        cell.lock_write(Writer { thread, site }).writer == Some(Writer { thread, site }),
        cell.lock_write(Writer { thread, site }).write_step(thread, false) == LockStep::Busy,
        cell.lock_write(Writer { thread, site }).write_step(other, true) == LockStep::Busy,
        cell.lock_write(Writer { thread, site }).read_step(other, true) == LockStep::Busy,
{
}

/// A handle that is asked for before its component is inserted points to a cell
/// without a payload, so that no guard can be had through it. The later
/// insertion is permitted and fills that very cell: through the handle the
/// inserted value is then found, under the handle's type, with the lock free.
pub proof fn lemma_handle_before_insert<P>(
    store: StoreState,
    heap: Seq<CellState<P>>,
    tag: TypeTag,
    component: P,
)
    requires
        store.wf(heap),
        !store.finalized,
        !store.cells.contains_key(tag.key),
    ensures
        ({
            let asked = store.handle_for(heap, tag);
            let filled = asked.store.insert(asked.heap, tag, component);
            &&& store.can_handle(tag.key)
            &&& asked.addr == heap.len()
            &&& asked.store.wf(asked.heap)
            &&& asked.heap[asked.addr].payload.is_none()
            &&& !asked.heap[asked.addr].holds_type(tag.key)
            &&& asked.heap[asked.addr].lock_state == 0
            &&& asked.heap[asked.addr].strong == 2
            &&& asked.store.can_insert(asked.heap, tag.key)
            &&& filled.addr == asked.addr
            &&& filled.store == asked.store
            &&& filled.store.wf(filled.heap)
            &&& filled.heap[asked.addr].payload == Some(
                crate::component::resource::Erased { type_key: tag.key, value: component },
            )
            &&& filled.heap[asked.addr].holds_type(tag.key)
            &&& filled.heap[asked.addr].lock_state == 0
            &&& !filled.heap[asked.addr].orphaned
            &&& filled.heap[asked.addr].strong == 3
        }),
{
}

/// The store takes each type once, takes nothing after it was finalized, and is
/// finalized once: after an insertion no second one of that type is permitted,
/// after the end of the open phase none at all, and the store then stays
/// finalized.
pub proof fn lemma_store_misuse<P>(
    store: StoreState,
    heap: Seq<CellState<P>>,
    tag: TypeTag,
    component: P,
    other: u64,
)
    requires
        store.wf(heap),
        forall|i: int| 0 <= i < heap.len() ==> (#[trigger] heap[i]).wf(),
    ensures
        store.can_insert(heap, tag.key) ==> !store.insert(heap, tag, component).store.can_insert(
            store.insert(heap, tag, component).heap,
            tag.key,
        ),
        store.finish_initialization().finalized,
        !store.finish_initialization().can_insert(heap, other),
        store.finish_initialization().cells == store.cells,
        store.finish_initialization().can_handle(other) <==> store.cells.contains_key(other),
        store.finish_initialization().finish_initialization() == store.finish_initialization(),
{
}

} // verus!
