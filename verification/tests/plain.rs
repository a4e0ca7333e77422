use component_store::graphics::pipeline::{FrameCount, IncorrectPipelineType};
use component_store::graphics::CardinalDirection;
use component_store::shared::Shared;

#[test]
fn direction_bits_round_trip() {
    for direction in CardinalDirection::iter() {
        assert_eq!(CardinalDirection::from_bits(direction.to_bits()), Some(direction));
    }
    assert_eq!(CardinalDirection::North.to_bits(), 0);
    assert_eq!(CardinalDirection::South.to_bits(), 1);
    assert_eq!(CardinalDirection::East.to_bits(), 2);
    assert_eq!(CardinalDirection::West.to_bits(), 3);
    assert_eq!(CardinalDirection::Up.to_bits(), 4);
    assert_eq!(CardinalDirection::Down.to_bits(), 5);
    assert_eq!(CardinalDirection::from_bits(6), None);
    assert_eq!(CardinalDirection::from_bits(7), None);
    assert_eq!(CardinalDirection::from_bits(255), None);
}

#[test]
fn direction_normals() {
    assert_eq!(CardinalDirection::North.normal_i64(), (0, 0, -1));
    assert_eq!(CardinalDirection::South.normal_i64(), (0, 0, 1));
    assert_eq!(CardinalDirection::East.normal_i64(), (1, 0, 0));
    assert_eq!(CardinalDirection::West.normal_i64(), (-1, 0, 0));
    assert_eq!(CardinalDirection::Up.normal_i64(), (0, 1, 0));
    assert_eq!(CardinalDirection::Down.normal_i64(), (0, -1, 0));
}

#[test]
fn direction_list() {
    let all = CardinalDirection::iter();
    assert_eq!(all.len(), 6);
    assert_eq!(
        all,
        [
            CardinalDirection::North,
            CardinalDirection::South,
            CardinalDirection::East,
            CardinalDirection::West,
            CardinalDirection::Up,
            CardinalDirection::Down,
        ]
    );
}

#[test]
fn pipeline_values() {
    assert_eq!(FrameCount(3).0, 3);
    assert_eq!(IncorrectPipelineType.message(), "Pipeline is not of the expected type");
}

#[test]
fn shared_owners_see_one_value() {
    let first = Shared::new(1u32);
    let second = first.clone();
    *second.get_mut().unwrap() = 5;
    assert_eq!(*first.get().unwrap(), 5);
    let reader = first.get().unwrap();
    assert!(second.get_mut().is_none());
    assert!(second.get().is_some());
    drop(reader);
    let writer = second.get_mut().unwrap();
    assert!(first.get().is_none());
    drop(writer);
    assert!(first.get().is_some());
}

#[test]
fn weak_reference_follows_the_owners() {
    let owner = Shared::new(7u32);
    let weak = owner.downgrade();
    let again = weak.clone();
    let second = weak.upgrade().unwrap();
    *second.get_mut().unwrap() = 8;
    assert_eq!(*owner.get().unwrap(), 8);
    drop(second);
    assert!(again.upgrade().is_some());
    drop(owner);
    assert!(weak.upgrade().is_none());
    assert!(again.upgrade().is_none());
}

#[test]
fn shared_from_a_value_and_by_default() {
    let made = Shared::from(3u32);
    assert_eq!(*made.get().unwrap(), 3);
    let empty: Shared<u32> = Shared::default();
    assert_eq!(*empty.get().unwrap(), 0);
    assert!(made != empty);
    *empty.get_mut().unwrap() = 3;
    assert!(made == empty);
}
