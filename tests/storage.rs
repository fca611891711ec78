use ecs::component::Component;
use ecs::storage::map::MapStorage;
use ecs::storage::sequence::SequenceStorage;
use ecs::storage::{Storage, StorageMut};

#[test]
fn iterator_yields_index_and_component() {
    let mut seq = SequenceStorage::new();
    seq.add(0, Component::Empty);
    seq.add(1, Component::Empty);

    let indices = seq.indices();
    assert_eq!(indices, vec![0, 1]);
    assert_eq!(seq.get_mut(indices[0]), Some(&mut Component::Empty));
    assert_eq!(seq.get_mut(indices[1]), Some(&mut Component::Empty));
    assert_eq!(seq.get_mut(2), None);
}

#[test]
fn dense_add_back_fills_gap_with_empty() {
    let mut seq = SequenceStorage::new();
    seq.add(0, Component::Position(1, 1));
    seq.add(3, Component::Position(4, 4));
    assert_eq!(seq.size(), 4);
    assert_eq!(seq.get(3), Some(&Component::Position(4, 4)));
    assert_eq!(seq.get(1), Some(&Component::Empty));
    assert_eq!(seq.get(2), Some(&Component::Empty));
    assert_eq!(seq.get(0), Some(&Component::Position(1, 1)));
    assert_eq!(seq.get(4), None);
}

#[test]
fn dense_add_inside_overwrites_in_place() {
    let mut seq = SequenceStorage::new();
    seq.add(2, Component::Velocity(1, 2));
    seq.add(1, Component::Velocity(3, 4));
    assert_eq!(seq.as_slice(), [Component::Empty, Component::Velocity(3, 4), Component::Velocity(1, 2)]);
    seq.add(0, Component::Velocity(5, 6));
    assert_eq!(seq.size(), 3);
    assert_eq!(seq.get(0), Some(&Component::Velocity(5, 6)));
}

#[test]
fn dense_get_mut_writes_through() {
    let mut seq = SequenceStorage::new();
    seq.add(0, Component::Position(0, 0));
    if let Some(c) = seq.get_mut(0) {
        *c = Component::Position(7, 8);
    }
    assert_eq!(seq.as_slice(), [Component::Position(7, 8)]);
}

#[test]
fn sparse_lookup_is_absent_until_added() {
    let mut map = MapStorage::new();
    assert_eq!(map.get(5), None);
    map.add(5, Component::Empty);
    assert_eq!(map.get(5), Some(&Component::Empty));
    assert_eq!(map.get(4), None);
    map.add(5, Component::Commands(3.into()));
    assert_eq!(map.get(5), Some(&Component::Commands(3.into())));
}

#[test]
fn sparse_indices_and_get_mut() {
    let mut map = MapStorage::new();
    map.add(9, Component::KeysPressed(0.into()));
    map.add(2, Component::Commands(0.into()));
    let mut indices = map.indices();
    indices.sort();
    assert_eq!(indices, vec![2, 9]);
    if let Some(c) = map.get_mut(9) {
        *c = Component::KeysPressed(1.into());
    }
    assert_eq!(map.get(9), Some(&Component::KeysPressed(1.into())));
    assert_eq!(map.get_mut(3), None);
}
