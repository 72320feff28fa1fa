use saveload::saveload::details::SaveLoadComponent;
use saveload::saveload::slot::{load_slot, save_slot, saved_slot, store_slot};
use saveload::storage::Storage;
use saveload::world::{Component, Entity};
use std::collections::HashMap;

#[derive(Clone, Copy, Debug, PartialEq)]
struct Health(u32);

impl Component for Health {}

#[derive(Debug, PartialEq)]
struct Link {
    target: Entity,
}

impl Component for Link {}

#[derive(Debug, PartialEq)]
enum LinkError {
    NoMarker(Entity),
    NoEntity(u64),
}

impl SaveLoadComponent<u64> for Link {
    type Data = u64;
    type Error = LinkError;

    fn save<F>(&self, ids: &mut F) -> Result<u64, LinkError>
    where
        F: FnMut(Entity) -> Option<u64>,
    {
        match ids(self.target) {
            Some(marker) => Ok(marker),
            None => Err(LinkError::NoMarker(self.target)),
        }
    }

    fn load<F>(data: u64, ids: &mut F) -> Result<Link, LinkError>
    where
        F: FnMut(u64) -> Option<Entity>,
    {
        match ids(data) {
            Some(target) => Ok(Link { target }),
            None => Err(LinkError::NoEntity(data)),
        }
    }
}

fn entity(id: u32) -> Entity {
    Entity { id, generation: 0 }
}

#[test]
fn copy_component_is_saved_as_itself() {
    let c = Health(40);
    let saved = <Health as SaveLoadComponent<u64>>::save(&c, &mut |_: Entity| None);
    assert_eq!(saved, Ok(Health(40)));
}

#[test]
fn copy_component_is_loaded_as_it_was_saved() {
    let loaded = <Health as SaveLoadComponent<u64>>::load(Health(41), &mut |_: u64| None);
    assert_eq!(loaded, Ok(Health(41)));
}

#[test]
fn copy_component_round_trips_whatever_the_lookup() {
    for value in [0u32, 1, 17, u32::MAX] {
        let c = Health(value);
        let saved =
            <Health as SaveLoadComponent<u64>>::save(&c, &mut |e: Entity| Some(u64::from(e.id)))
                .unwrap();
        let loaded =
            <Health as SaveLoadComponent<u64>>::load(saved, &mut |m: u64| Some(entity(m as u32)))
                .unwrap();
        assert_eq!(loaded, c);
        let saved = <Health as SaveLoadComponent<u64>>::save(&c, &mut |_: Entity| None).unwrap();
        let loaded = <Health as SaveLoadComponent<u64>>::load(saved, &mut |_: u64| None).unwrap();
        assert_eq!(loaded, c);
    }
}

#[test]
fn copy_component_never_asks_the_lookup() {
    let mut asked = 0u32;
    let saved = <Health as SaveLoadComponent<u64>>::save(&Health(5), &mut |_: Entity| {
        asked += 1;
        None
    })
    .unwrap();
    let _ = <Health as SaveLoadComponent<u64>>::load(saved, &mut |_: u64| {
        asked += 1;
        None
    });
    assert_eq!(asked, 0);
}

#[test]
fn reference_follows_the_marker_to_the_new_entity() {
    let a = entity(1);
    let b = entity(2);
    let b_again = Entity { id: 9, generation: 4 };
    let marker_b = 700u64;
    let mut links = Storage::new();
    links.insert(a, Link { target: b });

    let mut markers = HashMap::new();
    markers.insert(b, marker_b);
    let slot = save_slot(a, &links, &mut |e: Entity| markers.get(&e).copied());
    assert_eq!(slot, Ok(Some(marker_b)));

    let mut entities = HashMap::new();
    entities.insert(marker_b, b_again);
    let mut loaded_links: Storage<Link> = Storage::new();
    let r = load_slot(a, slot.unwrap(), &mut loaded_links, &mut |m: u64| {
        entities.get(&m).copied()
    });
    assert_eq!(r, Ok(()));
    assert_eq!(loaded_links.get(a), Some(&Link { target: b_again }));
    assert_ne!(loaded_links.get(a), Some(&Link { target: b }));
}

#[test]
fn reference_without_marker_fails_to_save() {
    let link = Link { target: entity(3) };
    let r = link.save(&mut |_: Entity| None);
    assert_eq!(r, Err(LinkError::NoMarker(entity(3))));
}

#[test]
fn marker_without_entity_fails_to_load() {
    let r = Link::load(12, &mut |_: u64| None);
    assert_eq!(r, Err(LinkError::NoEntity(12)));
}

#[test]
fn saved_slot_of_each_case() {
    assert_eq!(saved_slot::<u8, char>(Some(Ok(3))), Ok(Some(3)));
    assert_eq!(saved_slot::<u8, char>(Some(Err('x'))), Err('x'));
    assert_eq!(saved_slot::<u8, char>(None), Ok(None));
}

#[test]
fn store_slot_attaches_a_component() {
    let mut table = Storage::new();
    table.insert(entity(1), 1u8);
    let r = store_slot::<u8, char>(entity(1), Some(Ok(2)), &mut table);
    assert_eq!(r, Ok(()));
    assert_eq!(table.get(entity(1)), Some(&2));
    let r = store_slot::<u8, char>(entity(2), Some(Ok(5)), &mut table);
    assert_eq!(r, Ok(()));
    assert_eq!(table.get(entity(2)), Some(&5));
    assert_eq!(table.get(entity(1)), Some(&2));
}

#[test]
fn store_slot_leaves_the_table_on_error() {
    let mut table = Storage::new();
    table.insert(entity(1), 1u8);
    let r = store_slot::<u8, char>(entity(1), Some(Err('e')), &mut table);
    assert_eq!(r, Err('e'));
    assert_eq!(table.get(entity(1)), Some(&1));
}

#[test]
fn store_slot_detaches_on_empty_slot() {
    let mut table = Storage::new();
    table.insert(entity(1), 1u8);
    table.insert(entity(2), 2u8);
    let r = store_slot::<u8, char>(entity(1), None, &mut table);
    assert_eq!(r, Ok(()));
    assert_eq!(table.get(entity(1)), None);
    assert_eq!(table.get(entity(2)), Some(&2));
    let r = store_slot::<u8, char>(entity(1), None, &mut table);
    assert_eq!(r, Ok(()));
    assert_eq!(table.get(entity(1)), None);
}

#[test]
fn save_slot_without_component_is_empty() {
    let mut table = Storage::new();
    table.insert(entity(1), Health(1));
    let mut asked = false;
    let slot = save_slot::<u64, Health, _>(entity(2), &table, &mut |_: Entity| {
        asked = true;
        None
    });
    assert_eq!(slot, Ok(None));
    assert!(!asked);
}

#[test]
fn save_slot_with_component_is_full() {
    let mut table = Storage::new();
    table.insert(entity(1), Health(1));
    let slot = save_slot::<u64, Health, _>(entity(1), &table, &mut |_: Entity| None);
    assert_eq!(slot, Ok(Some(Health(1))));
}

#[test]
fn save_slot_hands_the_error_back() {
    let mut table = Storage::new();
    table.insert(entity(1), Link { target: entity(8) });
    let slot = save_slot(entity(1), &table, &mut |_: Entity| None::<u64>);
    assert_eq!(slot, Err(LinkError::NoMarker(entity(8))));
}

#[test]
fn load_slot_failure_keeps_the_old_component() {
    let mut table = Storage::new();
    table.insert(entity(1), Link { target: entity(8) });
    let r = load_slot(entity(1), Some(5u64), &mut table, &mut |_: u64| None);
    assert_eq!(r, Err(LinkError::NoEntity(5)));
    assert_eq!(table.get(entity(1)), Some(&Link { target: entity(8) }));
}

#[test]
fn load_slot_empty_removes_the_component() {
    let mut table = Storage::new();
    table.insert(entity(1), Link { target: entity(8) });
    let r = load_slot::<u64, Link, _>(entity(1), None, &mut table, &mut |_: u64| None);
    assert_eq!(r, Ok(()));
    assert_eq!(table.get(entity(1)), None);
}
