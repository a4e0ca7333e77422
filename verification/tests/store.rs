use component_store::component::handles::ComponentHandle;
use component_store::component::resource::{CallSite, ComponentHeap, TypeTag};
use component_store::component::ComponentStore;

const U32: TypeTag = TypeTag { key: 1, name: "u32" };
const I64: TypeTag = TypeTag { key: 2, name: "i64" };
const HERE: CallSite = CallSite { file: "tests/store.rs", line: 7, column: 1 };

#[test]
fn insert_read_write_read() {
    let mut heap = ComponentHeap::new();
    let mut store = ComponentStore::new();
    let handle = store.insert(&mut heap, U32, 42u32);
    let addr = handle.ptr().address();
    assert_eq!(heap.strong_count(addr), 2);

    let guard = handle.read(&mut heap);
    assert_eq!(*guard.deref(&heap), 42);
    guard.drop(&mut heap);

    let mut guard = handle.write(&mut heap, 1, HERE);
    *guard.deref_mut(&mut heap) = 100;
    guard.drop(&mut heap);

    let guard = handle.read(&mut heap);
    assert_eq!(*guard.deref(&heap), 100);
    guard.drop(&mut heap);

    assert_eq!(heap.lock_state(addr), 0);
    handle.drop(&mut heap);
    assert_eq!(heap.strong_count(addr), 1);
}

#[test]
fn handle_before_insert() {
    let mut heap = ComponentHeap::new();
    let mut store = ComponentStore::new();
    assert!(!store.contains(U32.key));
    let early = store.handle_for(&mut heap, U32);
    assert!(store.contains(U32.key));
    assert!(matches!(early.try_read(&mut heap), Ok(None)));
    assert!(matches!(early.try_write(&mut heap, 1, HERE), Ok(None)));

    let late = store.insert(&mut heap, U32, 7u32);
    assert_eq!(late.ptr().address(), early.ptr().address());
    assert_eq!(heap.len(), 1);
    let guard = early.read(&mut heap);
    assert_eq!(*guard.deref(&heap), 7);
    guard.drop(&mut heap);
    let guard = early.get(&mut heap);
    assert_eq!(*guard.deref(&heap), 7);
    guard.drop(&mut heap);
    let guard = early.get_mut(&mut heap, 1, HERE);
    assert_eq!(*guard.deref(&heap), 7);
    guard.drop(&mut heap);
    assert_eq!(early.type_tag().key, U32.key);
    assert_eq!(heap.strong_count(early.ptr().address()), 3);
}

#[test]
fn store_turns_misuse_down() {
    let mut heap = ComponentHeap::new();
    let mut store = ComponentStore::new();
    assert!(store.can_insert(&heap, U32.key));
    assert!(store.can_handle(U32.key));
    let first = store.insert(&mut heap, U32, 1u32);
    assert!(!store.can_insert(&heap, U32.key));
    assert!(store.can_insert(&heap, I64.key));
    assert!(!store.is_finalized());
    store.finish_initialization();
    assert!(store.is_finalized());
    assert!(!store.can_insert(&heap, I64.key));
    assert!(!store.can_insert(&heap, U32.key));
    assert!(!store.can_handle(I64.key));
    assert!(store.can_handle(U32.key));
    assert!(!store.contains(I64.key));
    assert_eq!(heap.len(), 1);
    let handle = store.handle_for(&mut heap, U32);
    assert_eq!(handle.ptr().address(), first.ptr().address());
    let guard = handle.read(&mut heap);
    assert_eq!(*guard.deref(&heap), 1);
}

#[test]
fn a_declared_cell_can_still_be_filled() {
    let mut heap: ComponentHeap<u32> = ComponentHeap::new();
    let mut store = ComponentStore::new();
    let early = store.handle_for(&mut heap, U32);
    assert!(store.contains(U32.key));
    assert!(store.can_insert(&heap, U32.key));
    let late = store.insert(&mut heap, U32, 3u32);
    assert!(!store.can_insert(&heap, U32.key));
    assert_eq!(early.ptr().address(), late.ptr().address());
    assert_eq!(heap.strong_count(early.ptr().address()), 3);
}

#[test]
fn each_type_has_its_own_cell() {
    let mut heap = ComponentHeap::new();
    let mut store = ComponentStore::new();
    let a = store.insert(&mut heap, U32, 10u32);
    let b = store.insert(&mut heap, I64, 20u32);
    assert!(a.ptr().address() != b.ptr().address());
    let again = store.handle_for(&mut heap, U32);
    assert_eq!(again.ptr().address(), a.ptr().address());
    let copy = again.clone(&mut heap);
    assert_eq!(heap.strong_count(a.ptr().address()), 4);
    copy.drop(&mut heap);
    again.drop(&mut heap);
    assert_eq!(heap.strong_count(a.ptr().address()), 2);
    assert_eq!(*b.read(&mut heap).deref(&heap), 20);
    assert!(b.ptr().is(&heap, I64.key));
    assert_eq!(heap.type_label(b.ptr().address()), "i64");
}

#[test]
fn standalone_handle() {
    let mut heap = ComponentHeap::new();
    let handle = ComponentHandle::standalone(&mut heap, U32, 3u32);
    assert_eq!(heap.strong_count(handle.ptr().address()), 1);
    let ptr = handle.ptr().clone(&mut heap);
    let other = ComponentHandle::new(ptr, &heap, U32);
    assert_eq!(other.ptr().address(), handle.ptr().address());
    let mut guard = other.write(&mut heap, 8, HERE);
    *guard.deref_mut(&mut heap) += 1;
    guard.drop(&mut heap);
    assert_eq!(*handle.read(&mut heap).deref(&heap), 4);
}
