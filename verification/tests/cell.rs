use component_store::component::resource::flags::LockState;
use component_store::component::resource::read::ComponentReadGuard;
use component_store::component::resource::write::ComponentWriteGuard;
use component_store::component::resource::{
    check_deadlock, CallSite, ComponentHeap, ComponentPtr, LockAttempt, TypeMismatchError, TypeTag,
};

const U32: TypeTag = TypeTag { key: 1, name: "u32" };
const TEXT: TypeTag = TypeTag { key: 2, name: "alloc::string::String" };
const HERE: CallSite = CallSite { file: "tests/cell.rs", line: 10, column: 5 };
const THERE: CallSite = CallSite { file: "tests/cell.rs", line: 20, column: 9 };

#[test]
fn test_rc_clone_single() {
    let mut heap = ComponentHeap::new();
    let component = ComponentPtr::new(&mut heap, U32, 42u32);
    let component_clone = component.clone(&mut heap);
    assert_eq!(heap.strong_count(component.address()), 2);
    component_clone.drop(&mut heap);
    assert_eq!(heap.strong_count(component.address()), 1);
}

#[test]
fn test_rc_heavy_multithread() {
    let mut heap = ComponentHeap::new();
    let component = ComponentPtr::new(&mut heap, U32, 42u32);
    for _ in 0..10 {
        for _ in 0..1000 {
            let c = component.clone(&mut heap);
            c.drop(&mut heap);
        }
    }
    assert_eq!(heap.strong_count(component.address()), 1);
}

#[test]
fn test_rc_weak_drop() {
    let mut heap = ComponentHeap::new();
    let component = ComponentPtr::new(&mut heap, U32, 42u32);
    let addr = component.address();
    let weak = component.clone(&mut heap).downgrade(&mut heap);
    let upgraded = weak.upgrade(&mut heap);
    assert!(upgraded.is_some());
    upgraded.unwrap().drop(&mut heap);
    component.drop(&mut heap);
    assert!(weak.upgrade(&mut heap).is_none());
    assert_eq!(heap.weak_count(addr), 1);
    assert_eq!(heap.strong_count(addr), 0);
    assert!(!heap.has_component(addr));
    assert!(!heap.is_freed(addr));
    weak.drop(&mut heap);
    assert_eq!(heap.weak_count(addr), 0);
    assert!(heap.is_freed(addr));
}

#[test]
fn test_rc_orphaning() {
    let mut heap = ComponentHeap::new();
    let component = ComponentPtr::new(&mut heap, U32, 42u32);
    assert!(!component.is_orphaned(&heap));
    component.orphan(&mut heap);
    assert!(component.is_orphaned(&heap));
    assert_eq!(heap.strong_count(component.address()), 1);
    assert_eq!(heap.weak_count(component.address()), 1);
    assert!(heap.has_component(component.address()));
}

#[test]
fn test_deadlock_check_nodeadlock() {
    let mut heap = ComponentHeap::new();
    let component = ComponentPtr::new(&mut heap, U32, 42u32);
    let guard = component.write(&mut heap, U32, 12345, HERE);
    assert_eq!(heap.writer(component.address()).unwrap().thread, 12345);
    check_deadlock(&heap, component.address(), 777);
    assert!(matches!(
        component.poll_write(&mut heap, U32, 777, THERE, true),
        Ok(Some(LockAttempt::Busy))
    ));
    guard.drop(&mut heap);
    assert!(heap.writer(component.address()).is_none());
    check_deadlock(&heap, component.address(), 12345);
    assert_eq!(heap.lock_state(component.address()), 0);
    assert_eq!(heap.strong_count(component.address()), 1);
}

#[test]
fn test_deadlock_check_deadlock() {
    let mut heap = ComponentHeap::new();
    let component = ComponentPtr::new(&mut heap, U32, 42u32);
    let _guard = component.write(&mut heap, U32, 9, HERE);
    let holder = heap.writer(component.address()).unwrap();
    assert_eq!(holder.thread, 9);
    let site = match component.poll_read(&mut heap, U32, 9, true) {
        Ok(Some(LockAttempt::Deadlock(site))) => site,
        _ => panic!("the thread that holds the write lock waits for itself"),
    };
    assert_eq!(site.file, "tests/cell.rs");
    assert_eq!(site.line, 10);
    assert_eq!(site.column, 5);
    assert_eq!(heap.lock_state(component.address()), -1);
    assert_eq!(heap.writer(component.address()).unwrap().site.line, 10);
}

#[test]
fn test_mixed_rw_heavy_multithread() {
    let mut heap = ComponentHeap::new();
    let ptr = ComponentPtr::new(&mut heap, U32, 100u32);
    let mut workers = vec![];
    for _ in 0..10 {
        workers.push(ptr.clone(&mut heap));
    }
    for round in 0..1000u32 {
        for (i, worker) in workers.iter().enumerate() {
            if i % 2 == 0 {
                let guard = worker.read(&mut heap, U32);
                assert!(*guard.deref(&heap) < 1000);
                guard.drop(&mut heap);
            } else {
                let mut guard = worker.write(&mut heap, U32, i as u64 + 1, HERE);
                *guard.deref_mut(&mut heap) = (round * 7 + i as u32) % 1000;
                guard.drop(&mut heap);
            }
        }
    }
    for worker in workers {
        worker.drop(&mut heap);
    }
    assert_eq!(heap.lock_state(ptr.address()), 0);
    assert_eq!(heap.strong_count(ptr.address()), 1);
}

#[test]
fn test_uninit_construction() {
    let mut heap: ComponentHeap<u32> = ComponentHeap::new();
    let ptr = ComponentPtr::uninitialized(&mut heap, U32);
    let addr = ptr.address();
    assert_eq!(heap.strong_count(addr), 1);
    assert_eq!(heap.weak_count(addr), 1);
    assert!(!heap.has_component(addr));
    assert!(!ptr.is_orphaned(&heap));
    assert!(heap.flags(addr).bits() & LockState::initialized().bits() == 0);
}

#[test]
fn test_uninit_read_guard_panic() {
    let mut heap: ComponentHeap<u32> = ComponentHeap::new();
    let ptr = ComponentPtr::uninitialized(&mut heap, U32);
    assert!(matches!(ptr.try_read(&mut heap, U32), Ok(None)));
    assert!(matches!(ptr.poll_read(&mut heap, U32, 1, true), Ok(None)));
    assert_eq!(heap.strong_count(ptr.address()), 1);
    assert_eq!(heap.lock_state(ptr.address()), 0);
}

#[test]
fn test_uninit_write_guard_panic() {
    let mut heap: ComponentHeap<u32> = ComponentHeap::new();
    let ptr = ComponentPtr::uninitialized(&mut heap, U32);
    assert!(matches!(ptr.try_write(&mut heap, U32, 1, HERE), Ok(None)));
    assert!(matches!(ptr.poll_write(&mut heap, U32, 1, HERE, true), Ok(None)));
    assert_eq!(heap.strong_count(ptr.address()), 1);
    assert_eq!(heap.lock_state(ptr.address()), 0);
}

#[test]
fn test_uninit_init_read() {
    let mut heap = ComponentHeap::new();
    let mut ptr = ComponentPtr::uninitialized(&mut heap, U32);
    assert!(ptr.initialize(&mut heap, U32.key, 55u32).is_some());

    let guard = ptr.read(&mut heap, U32);
    assert_eq!(*guard.deref(&heap), 55u32);
    guard.drop(&mut heap);

    assert_eq!(heap.lock_state(ptr.address()), 0);
    assert_eq!(
        heap.flags(ptr.address()).bits() & LockState::initialized().bits(),
        LockState::initialized().bits()
    );
}

#[test]
fn test_uninit_init_write() {
    let mut heap = ComponentHeap::new();
    let mut ptr = ComponentPtr::uninitialized(&mut heap, U32);
    assert!(ptr.initialize(&mut heap, U32.key, 77u32).is_some());

    let guard = ptr.write(&mut heap, U32, 1, HERE);
    assert_eq!(*guard.deref(&heap), 77u32);
    guard.drop(&mut heap);

    assert_eq!(heap.lock_state(ptr.address()), 0);
    assert_eq!(
        heap.flags(ptr.address()).bits() & LockState::initialized().bits(),
        LockState::initialized().bits()
    );
}

#[test]
fn test_component_read_guard() {
    let mut heap = ComponentHeap::new();
    let ptr = ComponentPtr::new(&mut heap, U32, 42u32);
    let inner = ptr.clone(&mut heap);
    let guard = ComponentReadGuard::lock(inner, &mut heap);
    assert_eq!(*guard.deref(&heap), 42u32);
    assert_eq!(heap.lock_state(ptr.address()), 1);
    assert_eq!(guard.address(), ptr.address());
}

#[test]
fn test_component_read_guard_drop() {
    let mut heap = ComponentHeap::new();
    let ptr = ComponentPtr::new(&mut heap, U32, 42u32);
    {
        let inner = ptr.clone(&mut heap);
        let guard = ComponentReadGuard::lock(inner, &mut heap);
        assert_eq!(*guard.deref(&heap), 42u32);
        guard.drop(&mut heap);
    }
    assert_eq!(heap.lock_state(ptr.address()), 0);
    assert_eq!(heap.strong_count(ptr.address()), 1);
}

#[test]
fn test_heavy_multithread() {
    let mut heap = ComponentHeap::new();
    let ptr = ComponentPtr::new(&mut heap, U32, 100u32);
    let mut workers = vec![];
    for _ in 0..10 {
        workers.push(ptr.clone(&mut heap));
    }
    for _ in 0..10000 {
        let mut guards = vec![];
        for worker in workers.iter() {
            let inner = worker.clone(&mut heap);
            let guard = ComponentReadGuard::lock(inner, &mut heap);
            assert_eq!(*guard.deref(&heap), 100u32);
            guards.push(guard);
        }
        assert_eq!(heap.lock_state(ptr.address()), 10);
        for guard in guards {
            guard.drop(&mut heap);
        }
    }
    for worker in workers {
        worker.drop(&mut heap);
    }
    assert_eq!(heap.lock_state(ptr.address()), 0);
    assert_eq!(heap.strong_count(ptr.address()), 1);
}

#[test]
fn test_component_write_guard() {
    let mut heap = ComponentHeap::new();
    let ptr = ComponentPtr::new(&mut heap, U32, 42u32);
    {
        let inner = ptr.clone(&mut heap);
        let mut guard = ComponentWriteGuard::lock(inner, &mut heap, 1, HERE);
        assert_eq!(*guard.deref(&heap), 42u32);
        *guard.deref_mut(&mut heap) = 100u32;
        assert_eq!(*guard.deref(&heap), 100u32);
        guard.drop(&mut heap);
    }
    assert_eq!(heap.lock_state(ptr.address()), 0);
    let inner = ptr.clone(&mut heap);
    let guard = ComponentWriteGuard::lock(inner, &mut heap, 1, HERE);
    assert_eq!(*guard.deref(&heap), 100u32);
}

#[test]
fn test_component_write_deadlock_protection() {
    let mut heap = ComponentHeap::new();
    let ptr = ComponentPtr::new(&mut heap, U32, 42u32);
    let inner = ptr.clone(&mut heap);
    let _guard = ComponentWriteGuard::lock(inner, &mut heap, 3, HERE);
    let before = heap.strong_count(ptr.address());

    let again = ptr.poll_write(&mut heap, U32, 3, THERE, true);
    match again {
        Ok(Some(LockAttempt::Deadlock(site))) => {
            assert_eq!(site.file, HERE.file);
            assert_eq!(site.line, HERE.line);
            assert_eq!(site.column, HERE.column);
        }
        _ => panic!("the second write lock of one thread is a deadlock"),
    }
    assert!(matches!(
        ptr.poll_read(&mut heap, U32, 3, true),
        Ok(Some(LockAttempt::Deadlock(_)))
    ));
    assert!(matches!(
        ptr.poll_write(&mut heap, U32, 3, THERE, false),
        Ok(Some(LockAttempt::Busy))
    ));
    assert!(matches!(
        ptr.poll_write(&mut heap, U32, 4, THERE, true),
        Ok(Some(LockAttempt::Busy))
    ));
    assert!(matches!(
        ptr.poll_read(&mut heap, U32, 4, true),
        Ok(Some(LockAttempt::Busy))
    ));
    assert_eq!(heap.strong_count(ptr.address()), before);
    assert_eq!(heap.lock_state(ptr.address()), -1);
}

#[test]
fn test_component_write_guard_heavy_multithread() {
    let mut heap = ComponentHeap::new();
    let ptr = ComponentPtr::new(&mut heap, U32, 0u32);
    let mut workers = vec![];
    for _ in 0..10 {
        workers.push(ptr.clone(&mut heap));
    }
    for i in 0..10000u64 {
        for (n, worker) in workers.iter().enumerate() {
            let thread_id = n as u64 + 1;
            let inner = worker.clone(&mut heap);
            let mut guard = ComponentWriteGuard::lock(inner, &mut heap, thread_id, HERE);
            assert_eq!(*guard.deref(&heap), 0u32);
            let val = thread_id * i;
            *guard.deref_mut(&mut heap) = val as u32;
            assert_eq!(*guard.deref(&heap), val as u32);
            *guard.deref_mut(&mut heap) = 0u32;
            guard.drop(&mut heap);
        }
    }
    for worker in workers {
        worker.drop(&mut heap);
    }
    assert_eq!(heap.lock_state(ptr.address()), 0);
    assert_eq!(heap.strong_count(ptr.address()), 1);
}

#[test]
fn readers_share_and_exclude_the_writer() {
    let mut heap = ComponentHeap::new();
    let ptr = ComponentPtr::new(&mut heap, U32, 5u32);
    let first = ptr.read(&mut heap, U32);
    let second = match ptr.poll_read(&mut heap, U32, 2, true) {
        Ok(Some(LockAttempt::Acquired(guard))) => guard,
        _ => panic!("a second reader gets the lock"),
    };
    assert_eq!(heap.lock_state(ptr.address()), 2);
    assert_eq!(heap.strong_count(ptr.address()), 5);
    assert!(matches!(
        ptr.poll_write(&mut heap, U32, 2, HERE, true),
        Ok(Some(LockAttempt::Busy))
    ));
    first.drop(&mut heap);
    assert_eq!(heap.lock_state(ptr.address()), 1);
    second.drop(&mut heap);
    assert_eq!(heap.lock_state(ptr.address()), 0);
    assert_eq!(heap.strong_count(ptr.address()), 1);
    let writer = match ptr.poll_write(&mut heap, U32, 2, HERE, true) {
        Ok(Some(LockAttempt::Acquired(guard))) => guard,
        _ => panic!("the writer gets the idle lock"),
    };
    assert_eq!(heap.lock_state(ptr.address()), -1);
    let holder = heap.writer(ptr.address()).unwrap();
    assert_eq!(holder.thread, 2);
    assert_eq!(holder.site.line, HERE.line);
    writer.drop(&mut heap);
    assert!(heap.writer(ptr.address()).is_none());
}

#[test]
fn wrong_type_is_an_error() {
    let mut heap = ComponentHeap::new();
    let ptr = ComponentPtr::new(&mut heap, U32, 5u32);
    assert!(ptr.is(&heap, U32.key));
    assert!(!ptr.is(&heap, TEXT.key));
    let error = match ptr.try_read(&mut heap, TEXT) {
        Err(error) => error,
        _ => panic!("a u32 is no string"),
    };
    assert_eq!(error.expected(), "alloc::string::String");
    assert_eq!(error.found(), "u32");
    assert_eq!(
        error.message(),
        "Type mismatch: expected alloc::string::String, found u32"
    );
    assert!(ptr.try_write(&mut heap, TEXT, 1, HERE).is_err());
    assert!(ptr.poll_read(&mut heap, TEXT, 1, true).is_err());
    assert!(ptr.poll_write(&mut heap, TEXT, 1, HERE, true).is_err());
    assert_eq!(heap.strong_count(ptr.address()), 1);
    assert_eq!(heap.lock_state(ptr.address()), 0);
    let made = TypeMismatchError::new("a", "b");
    assert_eq!(made.message(), "Type mismatch: expected a, found b");
}

#[test]
fn initialize_happens_once() {
    let mut heap = ComponentHeap::new();
    let mut ptr = ComponentPtr::uninitialized(&mut heap, U32);
    assert!(ptr.initialize(&mut heap, U32.key, 1u32).is_some());
    assert!(ptr.initialize(&mut heap, U32.key, 2u32).is_none());
    let guard = ptr.read(&mut heap, U32);
    assert_eq!(*guard.deref(&heap), 1);
    guard.drop(&mut heap);
    let mut full = ComponentPtr::new(&mut heap, U32, 9u32);
    assert!(full.initialize(&mut heap, U32.key, 3u32).is_none());
    let mut guard = full.write(&mut heap, U32, 1, HERE);
    assert_eq!(*guard.deref(&heap), 9);
    *guard.deref_mut(&mut heap) = 10;
    assert_eq!(*guard.deref(&heap), 10);
    guard.drop(&mut heap);
    assert_eq!(heap.type_label(full.address()), "u32");
    assert_eq!(heap.len(), 2);
}

#[test]
fn retain_and_release_by_hand() {
    let mut heap = ComponentHeap::new();
    let ptr = ComponentPtr::new(&mut heap, U32, 5u32);
    ptr.retain(&mut heap);
    assert_eq!(heap.strong_count(ptr.address()), 2);
    assert_eq!(heap.weak_count(ptr.address()), 2);
    ptr.release(&mut heap);
    assert_eq!(heap.strong_count(ptr.address()), 1);
    assert_eq!(heap.weak_count(ptr.address()), 2);
    assert!(heap.has_component(ptr.address()));
    let addr = ptr.address();
    ptr.drop(&mut heap);
    assert_eq!(heap.strong_count(addr), 0);
    assert_eq!(heap.weak_count(addr), 1);
    assert!(!heap.has_component(addr));
    assert!(!heap.flags(addr).contains(LockState::initialized()));
}

#[test]
fn last_drop_frees_the_cell() {
    let mut heap = ComponentHeap::new();
    let ptr = ComponentPtr::new(&mut heap, U32, 5u32);
    let addr = ptr.address();
    assert!(!heap.is_freed(addr));
    ptr.drop(&mut heap);
    assert!(heap.is_freed(addr));
    assert_eq!(heap.strong_count(addr), 0);
    let next = ComponentPtr::new(&mut heap, U32, 6u32);
    assert_eq!(next.address(), addr + 1);
}

#[test]
fn flags_behave_as_a_set() {
    let mut flags = LockState::empty();
    assert_eq!(flags.bits(), 0);
    assert!(!flags.contains(LockState::orphaned()));
    flags.insert(LockState::orphaned());
    assert_eq!(flags.bits(), 1);
    flags.insert(LockState::initialized());
    assert_eq!(flags.bits(), 3);
    assert!(flags.contains(LockState::initialized()));
    flags.remove(LockState::orphaned());
    assert_eq!(flags.bits(), 2);
    assert_eq!(LockState::from_bits_truncate(0xff).bits(), 3);
    assert_eq!(LockState::from_bits_truncate(0xfd).bits(), 1);
    assert_eq!(LockState::from_bits_truncate(4).bits(), 0);
    assert!(LockState::from_bits_truncate(2) == LockState::initialized());
}

#[test]
fn a_guard_gives_back_what_it_took() {
    let mut heap = ComponentHeap::new();
    let ptr = ComponentPtr::new(&mut heap, U32, 5u32);
    let addr = ptr.address();
    let guard = ptr.read(&mut heap, U32);
    assert_eq!(heap.strong_count(addr), 3);
    assert_eq!(heap.weak_count(addr), 2);
    assert_eq!(heap.lock_state(addr), 1);
    guard.drop(&mut heap);
    assert_eq!(heap.strong_count(addr), 1);
    assert_eq!(heap.weak_count(addr), 1);
    assert_eq!(heap.lock_state(addr), 0);
    let guard = ptr.write(&mut heap, U32, 1, HERE);
    assert_eq!(heap.strong_count(addr), 3);
    assert_eq!(heap.weak_count(addr), 2);
    assert_eq!(heap.lock_state(addr), -1);
    guard.drop(&mut heap);
    assert_eq!(heap.strong_count(addr), 1);
    assert_eq!(heap.weak_count(addr), 1);
    assert_eq!(heap.lock_state(addr), 0);
    assert!(heap.writer(addr).is_none());
}

#[test]
fn a_cell_is_freed_after_a_guard_and_the_last_drop() {
    let mut heap = ComponentHeap::new();
    let ptr = ComponentPtr::new(&mut heap, U32, 5u32);
    let addr = ptr.address();
    let guard = ptr.read(&mut heap, U32);
    guard.drop(&mut heap);
    let guard = ptr.write(&mut heap, U32, 1, HERE);
    guard.drop(&mut heap);
    assert!(!heap.is_freed(addr));
    ptr.drop(&mut heap);
    assert_eq!(heap.strong_count(addr), 0);
    assert_eq!(heap.weak_count(addr), 0);
    assert!(!heap.has_component(addr));
    assert!(heap.is_freed(addr));
}

#[test]
fn a_guard_outlives_the_last_handle() {
    let mut heap = ComponentHeap::new();
    let ptr = ComponentPtr::new(&mut heap, U32, 5u32);
    let addr = ptr.address();
    let guard = ptr.read(&mut heap, U32);
    ptr.drop(&mut heap);
    assert_eq!(heap.strong_count(addr), 2);
    assert_eq!(*guard.deref(&heap), 5);
    guard.drop(&mut heap);
    assert_eq!(heap.strong_count(addr), 0);
    assert_eq!(heap.lock_state(addr), 0);
    assert!(heap.is_freed(addr));
}
