use saveload::storage::Storage;
use saveload::world::Entity;

fn entity(id: u32, generation: u32) -> Entity {
    Entity { id, generation }
}

#[test]
fn new_table_holds_nothing() {
    let table: Storage<u8> = Storage::new();
    assert_eq!(table.get(entity(0, 0)), None);
    assert_eq!(table.get(entity(7, 3)), None);
    assert_eq!(table.get(entity(u32::MAX, u32::MAX)), None);
}

#[test]
fn insert_then_get() {
    let mut table = Storage::new();
    table.insert(entity(1, 0), 10u8);
    table.insert(entity(2, 0), 20u8);
    assert_eq!(table.get(entity(1, 0)), Some(&10));
    assert_eq!(table.get(entity(2, 0)), Some(&20));
    assert_eq!(table.get(entity(3, 0)), None);
}

#[test]
fn insert_replaces_the_component() {
    let mut table = Storage::new();
    table.insert(entity(1, 0), 10u8);
    table.insert(entity(1, 0), 11u8);
    assert_eq!(table.get(entity(1, 0)), Some(&11));
}

#[test]
fn remove_returns_the_component() {
    let mut table = Storage::new();
    table.insert(entity(1, 0), 10u8);
    table.insert(entity(2, 0), 20u8);
    assert_eq!(table.remove(entity(1, 0)), Some(10));
    assert_eq!(table.get(entity(1, 0)), None);
    assert_eq!(table.get(entity(2, 0)), Some(&20));
    assert_eq!(table.remove(entity(1, 0)), None);
}

#[test]
fn generations_are_different_entities() {
    let mut table = Storage::new();
    table.insert(entity(5, 0), 'a');
    table.insert(entity(5, 1), 'b');
    table.insert(entity(0, 5), 'c');
    assert_eq!(table.get(entity(5, 0)), Some(&'a'));
    assert_eq!(table.get(entity(5, 1)), Some(&'b'));
    assert_eq!(table.get(entity(0, 5)), Some(&'c'));
    assert_eq!(table.get(entity(1, 5)), None);
    assert_eq!(table.remove(entity(5, 1)), Some('b'));
    assert_eq!(table.get(entity(5, 0)), Some(&'a'));
}

#[test]
fn largest_index_and_generation() {
    let mut table = Storage::new();
    table.insert(entity(u32::MAX, u32::MAX), 1u8);
    table.insert(entity(u32::MAX, 0), 2u8);
    table.insert(entity(0, u32::MAX), 3u8);
    table.insert(entity(0, 1), 4u8);
    assert_eq!(table.get(entity(u32::MAX, u32::MAX)), Some(&1));
    assert_eq!(table.get(entity(u32::MAX, 0)), Some(&2));
    assert_eq!(table.get(entity(0, u32::MAX)), Some(&3));
    assert_eq!(table.get(entity(0, 1)), Some(&4));
    assert_eq!(table.get(entity(1, 0)), None);
}

#[test]
fn entities_compare_by_index_and_generation() {
    assert_eq!(entity(1, 2), entity(1, 2));
    assert_ne!(entity(1, 2), entity(2, 1));
    assert_ne!(entity(1, 2), entity(1, 3));
}
