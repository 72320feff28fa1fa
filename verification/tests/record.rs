use saveload::error::NoError;
use saveload::saveload::details::{
    load_entity_record, save_entity_record, EntityData, SaveLoadComponent,
};
use saveload::saveload::marker::Marker;
use saveload::storage::Storage;
use saveload::world::{Component, Entity};
use std::collections::HashMap;

#[derive(Clone, Copy, Debug, PartialEq)]
struct Pos {
    x: i32,
    y: i32,
}

impl Component for Pos {}

#[derive(Clone, Copy, Debug, PartialEq)]
struct Saved(u64);

impl Component for Saved {}

impl Marker for Saved {
    type Identifier = u64;

    fn id(&self) -> u64 {
        self.0
    }
}

#[derive(Debug, PartialEq)]
struct Owner {
    owner: Entity,
}

impl Component for Owner {}

#[derive(Debug, PartialEq)]
struct Unknown;

impl SaveLoadComponent<u64> for Owner {
    type Data = u64;
    type Error = Unknown;

    fn save<F>(&self, ids: &mut F) -> Result<u64, Unknown>
    where
        F: FnMut(Entity) -> Option<u64>,
    {
        ids(self.owner).ok_or(Unknown)
    }

    fn load<F>(data: u64, ids: &mut F) -> Result<Owner, Unknown>
    where
        F: FnMut(u64) -> Option<Entity>,
    {
        match ids(data) {
            Some(owner) => Ok(Owner { owner }),
            None => Err(Unknown),
        }
    }
}

#[derive(Debug, PartialEq)]
enum WorldError {
    UnknownReference,
}

impl From<Unknown> for WorldError {
    fn from(_: Unknown) -> WorldError {
        WorldError::UnknownReference
    }
}

impl From<NoError> for WorldError {
    fn from(e: NoError) -> WorldError {
        match e {}
    }
}

fn entity(id: u32) -> Entity {
    Entity { id, generation: 0 }
}

fn tables(a: Entity, owner: Entity) -> (Storage<Pos>, Storage<Owner>) {
    let mut pos = Storage::new();
    let mut owners = Storage::new();
    pos.insert(a, Pos { x: 4, y: 5 });
    owners.insert(a, Owner { owner });
    (pos, owners)
}

#[test]
fn marker_carries_its_identifier() {
    assert_eq!(Saved(31).id(), 31);
}

#[test]
fn record_holds_marker_and_components() {
    let a = entity(1);
    let b = entity(2);
    let tables = tables(a, b);
    let mut markers = HashMap::new();
    markers.insert(a, Saved(10));
    markers.insert(b, Saved(20));
    let record: EntityData<Saved, WorldError, (Pos, Owner)> =
        save_entity_record(a, Saved(10), &tables, |e| markers.get(&e).map(|m| m.id()))
            .ok()
            .unwrap();
    assert_eq!(record.marker, Saved(10));
    assert_eq!(record.components, (Some(Pos { x: 4, y: 5 }), Some(20)));
}

#[test]
fn record_is_not_made_when_a_component_fails() {
    let a = entity(1);
    let tables = tables(a, entity(2));
    let r = save_entity_record::<Saved, WorldError, (Pos, Owner), _>(a, Saved(10), &tables, |_| {
        None
    });
    assert_eq!(r.err(), Some(WorldError::UnknownReference));
}

#[test]
fn record_is_loaded_onto_the_resolved_entity() {
    let a = entity(1);
    let b = entity(2);
    let source = tables(a, b);
    let record: EntityData<Saved, WorldError, (Pos, Owner)> =
        save_entity_record(a, Saved(10), &source, |e| Some(u64::from(e.id) * 10))
            .ok()
            .unwrap();

    let a_again = Entity { id: 7, generation: 2 };
    let b_again = Entity { id: 8, generation: 2 };
    let mut entities = HashMap::new();
    entities.insert(10u64, a_again);
    entities.insert(20u64, b_again);
    let mut target = (Storage::new(), Storage::new());
    let resolved = entities[&record.marker.id()];
    let r = load_entity_record(record, resolved, &mut target, |m| entities.get(&m).copied());
    assert_eq!(r, Ok(()));
    assert_eq!(target.0.get(a_again), Some(&Pos { x: 4, y: 5 }));
    assert_eq!(target.1.get(a_again), Some(&Owner { owner: b_again }));
    assert_eq!(target.0.get(a), None);
    assert_eq!(target.1.get(a), None);
}

#[test]
fn record_load_fails_on_an_unknown_marker() {
    let a = entity(1);
    let record: EntityData<Saved, WorldError, (Pos, Owner)> =
        EntityData { marker: Saved(10), components: (Some(Pos { x: 1, y: 1 }), Some(99)) };
    let mut target = tables(a, entity(2));
    let r = load_entity_record(record, a, &mut target, |_| None);
    assert_eq!(r, Err(WorldError::UnknownReference));
    assert_eq!(target.0.get(a), Some(&Pos { x: 1, y: 1 }));
    assert_eq!(target.1.get(a), Some(&Owner { owner: entity(2) }));
}

#[test]
fn record_of_an_entity_without_components() {
    let a = entity(1);
    let source = tables(a, entity(2));
    let record: EntityData<Saved, WorldError, (Pos, Owner)> =
        save_entity_record(entity(3), Saved(30), &source, |_| None).ok().unwrap();
    assert_eq!(record.components, (None, None));
    let mut target = tables(a, entity(2));
    let r = load_entity_record(record, a, &mut target, |_| None);
    assert_eq!(r, Ok(()));
    assert_eq!(target.0.get(a), None);
    assert_eq!(target.1.get(a), None);
}
