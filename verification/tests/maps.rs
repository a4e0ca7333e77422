use component_store::component::resource::{ComponentHeap, TypeTag};
use component_store::component::typemap::{ImmutableTypeMap, TypeContainer, TypeMap};
use component_store::component::ComponentStore;
use component_store::graphics::pipeline::controller::Stash;

const A: TypeTag = TypeTag { key: 10, name: "a" };
const B: TypeTag = TypeTag { key: 11, name: "b" };

#[test]
fn type_map_holds_one_value_for_each_type() {
    let mut map = TypeMap::new();
    assert!(map.get(A.key).is_none());
    map.insert(A, 1u32);
    map.insert(B, 2u32);
    assert_eq!(map.get(A.key), Some(&1));
    assert_eq!(map.get(B.key), Some(&2));
    map.insert(A, 3u32);
    assert_eq!(map.get(A.key), Some(&3));
    *map.get_mut(B.key).unwrap() = 20;
    assert_eq!(map.get(B.key), Some(&20));
    assert!(map.get_mut(99).is_none());
    assert_eq!(map.remove(A.key), Some(3));
    assert_eq!(map.remove(A.key), None);
    assert!(map.get(A.key).is_none());
    assert_eq!(map.get(B.key), Some(&20));
    map.clear();
    assert!(map.get(B.key).is_none());
}

#[test]
fn immutable_type_map_shares_its_values() {
    let mut map = ImmutableTypeMap::new();
    assert!(map.keys().is_empty());
    map.insert(A, 1u32);
    map.insert(B, 2u32);
    let mut keys = map.keys();
    keys.sort();
    assert_eq!(keys, vec![10, 11]);
    let first = map.get(A.key).unwrap();
    let second = map.get(A.key).unwrap();
    assert_eq!(*first, 1);
    assert!(std::sync::Arc::ptr_eq(&first, &second));
    assert!(map.get(12).is_none());
    let removed = map.remove(A.key).unwrap();
    assert!(std::sync::Arc::ptr_eq(&first, &removed));
    assert!(map.remove(A.key).is_none());
    assert_eq!(map.keys(), vec![11]);
}

#[test]
fn type_container_keeps_name_and_data() {
    let container = TypeContainer::new("u32", 7u32);
    assert_eq!(container.type_label, "u32");
    assert_eq!(container.data, 7);
}

#[test]
fn stash_of_a_frame() {
    let mut stash = Stash::new();
    assert!(stash.retrieve_checked(A.key).is_none());
    stash.stash(A, 16u64);
    stash.stash(B, 1u64);
    assert_eq!(stash.retrieve_checked(A.key), Some(&16));
    assert_eq!(*stash.retrieve(B.key), 1);
    stash.stash(B, 2u64);
    assert_eq!(*stash.retrieve(B.key), 2);
    stash.clear();
    assert!(stash.retrieve_checked(A.key).is_none());
    assert!(stash.retrieve_checked(B.key).is_none());
}

#[test]
fn store_knows_where_its_cells_are() {
    let mut heap = ComponentHeap::new();
    let mut store = ComponentStore::new();
    assert_eq!(store.address_of(A.key), None);
    let a = store.insert(&mut heap, A, 1u8);
    let b = store.handle_for(&mut heap, B);
    assert_eq!(store.address_of(A.key), Some(a.ptr().address()));
    assert_eq!(store.address_of(B.key), Some(b.ptr().address()));
    assert_eq!(store.address_of(A.key), Some(0));
    assert_eq!(store.address_of(B.key), Some(1));
    assert!(!heap.has_component(1));
}
