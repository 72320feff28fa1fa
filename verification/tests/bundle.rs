use saveload::error::NoError;
use saveload::saveload::details::{Components, SaveLoadComponent};
use saveload::storage::Storage;
use saveload::world::{Component, Entity};
use std::collections::HashMap;

#[derive(Clone, Copy, Debug, PartialEq)]
struct Pos {
    x: i32,
    y: i32,
}

impl Component for Pos {}

#[derive(Clone, Copy, Debug, PartialEq)]
struct Vel {
    x: i32,
    y: i32,
}

impl Component for Vel {}

#[derive(Clone, Copy, Debug, PartialEq)]
struct Tag(u8);

impl Component for Tag {}

#[derive(Debug, PartialEq)]
struct Link {
    target: Entity,
}

impl Component for Link {}

#[derive(Debug, PartialEq)]
enum LinkError {
    NoMarker(Entity),
    NoEntity(u64),
}

impl SaveLoadComponent<u64> for Link {
    type Data = u64;
    type Error = LinkError;

    fn save<F>(&self, ids: &mut F) -> Result<u64, LinkError>
    where
        F: FnMut(Entity) -> Option<u64>,
    {
        match ids(self.target) {
            Some(marker) => Ok(marker),
            None => Err(LinkError::NoMarker(self.target)),
        }
    }

    fn load<F>(data: u64, ids: &mut F) -> Result<Link, LinkError>
    where
        F: FnMut(u64) -> Option<Entity>,
    {
        match ids(data) {
            Some(target) => Ok(Link { target }),
            None => Err(LinkError::NoEntity(data)),
        }
    }
}

#[derive(Debug, PartialEq)]
enum TestError {
    Link(LinkError),
}

impl From<LinkError> for TestError {
    fn from(e: LinkError) -> TestError {
        TestError::Link(e)
    }
}

impl From<NoError> for TestError {
    fn from(e: NoError) -> TestError {
        match e {}
    }
}

fn entity(id: u32) -> Entity {
    Entity { id, generation: 0 }
}

fn no_marker(_: Entity) -> Option<u64> {
    None
}

fn no_entity(_: u64) -> Option<Entity> {
    None
}

#[test]
fn empty_list_saves_nothing() {
    let r = <() as Components<u64, TestError>>::save(entity(1), &(), no_marker);
    assert_eq!(r, Ok(()));
}

#[test]
fn empty_list_loads_nothing() {
    let r = <() as Components<u64, TestError>>::load(entity(1), (), &mut (), no_entity);
    assert_eq!(r, Ok(()));
}

#[test]
fn empty_list_never_asks_the_lookup() {
    let mut asked = 0u32;
    let r = <() as Components<u64, TestError>>::save(entity(1), &(), |_| {
        asked += 1;
        None
    });
    assert_eq!(r, Ok(()));
    let r = <() as Components<u64, TestError>>::load(entity(1), (), &mut (), |_| {
        asked += 1;
        None
    });
    assert_eq!(r, Ok(()));
    assert_eq!(asked, 0);
}

#[test]
fn list_of_one_saves_its_component() {
    let mut pos = Storage::new();
    pos.insert(entity(1), Pos { x: 1, y: 2 });
    let r = <(Pos,) as Components<u64, TestError>>::save(entity(1), &(pos,), no_marker);
    assert_eq!(r, Ok((Some(Pos { x: 1, y: 2 }),)));
}

#[test]
fn missing_component_is_saved_as_empty_slot() {
    let mut pos = Storage::new();
    let mut vel = Storage::new();
    let tag: Storage<Tag> = Storage::new();
    pos.insert(entity(1), Pos { x: 1, y: 2 });
    vel.insert(entity(2), Vel { x: 3, y: 4 });
    let tables = (pos, vel, tag);
    let r = <(Pos, Vel, Tag) as Components<u64, TestError>>::save(entity(1), &tables, no_marker);
    assert_eq!(r, Ok((Some(Pos { x: 1, y: 2 }), None, None)));
    let r = <(Pos, Vel, Tag) as Components<u64, TestError>>::save(entity(2), &tables, no_marker);
    assert_eq!(r, Ok((None, Some(Vel { x: 3, y: 4 }), None)));
    let r = <(Pos, Vel, Tag) as Components<u64, TestError>>::save(entity(3), &tables, no_marker);
    assert_eq!(r, Ok((None, None, None)));
}

#[test]
fn empty_slot_removes_the_component_on_load() {
    let mut pos = Storage::new();
    let mut vel = Storage::new();
    pos.insert(entity(1), Pos { x: 1, y: 2 });
    vel.insert(entity(1), Vel { x: 3, y: 4 });
    pos.insert(entity(2), Pos { x: 5, y: 6 });
    let mut tables = (pos, vel);
    let r = <(Pos, Vel) as Components<u64, TestError>>::load(
        entity(1),
        (None, Some(Vel { x: 7, y: 8 })),
        &mut tables,
        no_entity,
    );
    assert_eq!(r, Ok(()));
    assert_eq!(tables.0.get(entity(1)), None);
    assert_eq!(tables.1.get(entity(1)), Some(&Vel { x: 7, y: 8 }));
    assert_eq!(tables.0.get(entity(2)), Some(&Pos { x: 5, y: 6 }));
}

#[test]
fn load_overwrites_the_component() {
    let mut pos = Storage::new();
    pos.insert(entity(1), Pos { x: 1, y: 2 });
    let mut tables = (pos,);
    let r = <(Pos,) as Components<u64, TestError>>::load(
        entity(1),
        (Some(Pos { x: 9, y: 9 }),),
        &mut tables,
        no_entity,
    );
    assert_eq!(r, Ok(()));
    assert_eq!(tables.0.get(entity(1)), Some(&Pos { x: 9, y: 9 }));
}

#[test]
fn slots_stay_at_their_positions() {
    let mut pos = Storage::new();
    let mut vel = Storage::new();
    pos.insert(entity(1), Pos { x: 1, y: 2 });
    vel.insert(entity(1), Vel { x: 3, y: 4 });
    let saved =
        <(Pos, Vel) as Components<u64, TestError>>::save(entity(1), &(pos, vel), no_marker)
            .unwrap();
    assert_eq!(saved.0, Some(Pos { x: 1, y: 2 }));
    assert_eq!(saved.1, Some(Vel { x: 3, y: 4 }));

    let mut tables = (Storage::new(), Storage::new());
    let r = <(Pos, Vel) as Components<u64, TestError>>::load(
        entity(5),
        saved,
        &mut tables,
        no_entity,
    );
    assert_eq!(r, Ok(()));
    assert_eq!(tables.0.get(entity(5)), Some(&Pos { x: 1, y: 2 }));
    assert_eq!(tables.1.get(entity(5)), Some(&Vel { x: 3, y: 4 }));
}

#[test]
fn reversed_list_has_reversed_slots() {
    let mut pos = Storage::new();
    let mut vel = Storage::new();
    pos.insert(entity(1), Pos { x: 1, y: 2 });
    vel.insert(entity(1), Vel { x: 3, y: 4 });
    let forward: (Option<Pos>, Option<Vel>) =
        <(Pos, Vel) as Components<u64, TestError>>::save(entity(1), &(pos, vel), no_marker)
            .unwrap();
    let mut pos = Storage::new();
    let mut vel = Storage::new();
    pos.insert(entity(1), Pos { x: 1, y: 2 });
    vel.insert(entity(1), Vel { x: 3, y: 4 });
    let backward: (Option<Vel>, Option<Pos>) =
        <(Vel, Pos) as Components<u64, TestError>>::save(entity(1), &(vel, pos), no_marker)
            .unwrap();
    assert_eq!(forward.0, backward.1);
    assert_eq!(forward.1, backward.0);
}

#[test]
fn save_stops_at_the_first_error() {
    let a = entity(1);
    let mut pos = Storage::new();
    let mut links = Storage::new();
    let mut tags = Storage::new();
    pos.insert(a, Pos { x: 1, y: 2 });
    links.insert(a, Link { target: entity(2) });
    tags.insert(a, Tag(3));
    let tables = (pos, links, tags);
    let r = <(Pos, Link, Tag) as Components<u64, TestError>>::save(a, &tables, no_marker);
    assert_eq!(r, Err(TestError::Link(LinkError::NoMarker(entity(2)))));
    assert_eq!(tables.0.get(a), Some(&Pos { x: 1, y: 2 }));
    assert_eq!(tables.1.get(a), Some(&Link { target: entity(2) }));
    assert_eq!(tables.2.get(a), Some(&Tag(3)));
}

#[test]
fn save_returns_the_error_of_the_first_failing_position() {
    let a = entity(1);
    let mut first = Storage::new();
    let mut second = Storage::new();
    first.insert(a, Link { target: entity(2) });
    second.insert(a, Link { target: entity(3) });
    let tables = (first, second);
    let r = <(Link, Link) as Components<u64, TestError>>::save(a, &tables, no_marker);
    assert_eq!(r, Err(TestError::Link(LinkError::NoMarker(entity(2)))));
    let r = <(Link, Link) as Components<u64, TestError>>::save(a, &tables, |e| {
        if e == entity(2) {
            Some(20)
        } else {
            None
        }
    });
    assert_eq!(r, Err(TestError::Link(LinkError::NoMarker(entity(3)))));
    let r = <(Link, Link) as Components<u64, TestError>>::save(a, &tables, |e| {
        Some(u64::from(e.id) * 10)
    });
    assert_eq!(r, Ok((Some(20), Some(30))));
}

#[test]
fn save_asks_nothing_after_the_first_error() {
    let a = entity(1);
    let mut first = Storage::new();
    let mut second = Storage::new();
    first.insert(a, Link { target: entity(2) });
    second.insert(a, Link { target: entity(3) });
    let mut asked = Vec::new();
    let r = <(Link, Link) as Components<u64, TestError>>::save(a, &(first, second), |e| {
        asked.push(e);
        None
    });
    assert_eq!(r, Err(TestError::Link(LinkError::NoMarker(entity(2)))));
    assert_eq!(asked, vec![entity(2)]);
}

#[test]
fn load_keeps_what_was_done_before_the_error() {
    let a = entity(1);
    let mut pos = Storage::new();
    let mut links = Storage::new();
    let mut tags = Storage::new();
    pos.insert(a, Pos { x: 1, y: 2 });
    links.insert(a, Link { target: entity(2) });
    tags.insert(a, Tag(3));
    let mut tables = (pos, links, tags);
    let r = <(Pos, Link, Tag) as Components<u64, TestError>>::load(
        a,
        (Some(Pos { x: 10, y: 20 }), Some(55), Some(Tag(30))),
        &mut tables,
        no_entity,
    );
    assert_eq!(r, Err(TestError::Link(LinkError::NoEntity(55))));
    assert_eq!(tables.0.get(a), Some(&Pos { x: 10, y: 20 }));
    assert_eq!(tables.1.get(a), Some(&Link { target: entity(2) }));
    assert_eq!(tables.2.get(a), Some(&Tag(3)));
}

#[test]
fn load_keeps_a_removal_done_before_the_error() {
    let a = entity(1);
    let mut pos = Storage::new();
    let links = Storage::new();
    let tags: Storage<Tag> = Storage::new();
    pos.insert(a, Pos { x: 1, y: 2 });
    let mut tables = (pos, links, tags);
    let r = <(Pos, Link, Tag) as Components<u64, TestError>>::load(
        a,
        (None, Some(55), Some(Tag(30))),
        &mut tables,
        no_entity,
    );
    assert_eq!(r, Err(TestError::Link(LinkError::NoEntity(55))));
    assert_eq!(tables.0.get(a), None);
    assert_eq!(tables.1.get(a), None);
    assert_eq!(tables.2.get(a), None);
}

#[test]
fn load_with_error_at_the_first_position_changes_nothing() {
    let a = entity(1);
    let mut links = Storage::new();
    let mut pos = Storage::new();
    links.insert(a, Link { target: entity(2) });
    pos.insert(a, Pos { x: 1, y: 2 });
    let mut tables = (links, pos);
    let r = <(Link, Pos) as Components<u64, TestError>>::load(
        a,
        (Some(55), None),
        &mut tables,
        no_entity,
    );
    assert_eq!(r, Err(TestError::Link(LinkError::NoEntity(55))));
    assert_eq!(tables.0.get(a), Some(&Link { target: entity(2) }));
    assert_eq!(tables.1.get(a), Some(&Pos { x: 1, y: 2 }));
}

#[test]
fn link_is_saved_as_the_marker_of_its_target() {
    let a = entity(1);
    let b = entity(2);
    let mut links = Storage::new();
    links.insert(a, Link { target: b });
    let mut markers = HashMap::new();
    markers.insert(b, 77u64);
    let saved = <(Link,) as Components<u64, TestError>>::save(a, &(links,), |e| {
        markers.get(&e).copied()
    });
    assert_eq!(saved, Ok((Some(77),)));
}

#[test]
fn link_is_loaded_with_the_entity_of_its_marker() {
    let a = entity(1);
    let b = entity(2);
    let b_again = Entity { id: 2, generation: 1 };
    let mut links = Storage::new();
    links.insert(a, Link { target: b });
    let mut markers = HashMap::new();
    markers.insert(b, 77u64);
    let saved = <(Link,) as Components<u64, TestError>>::save(a, &(links,), |e| {
        markers.get(&e).copied()
    })
    .unwrap();

    let mut entities = HashMap::new();
    entities.insert(77u64, b_again);
    let mut tables = (Storage::new(),);
    let r = <(Link,) as Components<u64, TestError>>::load(a, saved, &mut tables, |m| {
        entities.get(&m).copied()
    });
    assert_eq!(r, Ok(()));
    assert_eq!(tables.0.get(a), Some(&Link { target: b_again }));
}

#[test]
fn lookup_may_make_entities_while_loading() {
    let a = entity(1);
    let mut made: Vec<(u64, Entity)> = Vec::new();
    let mut tables = (Storage::new(), Storage::new());
    let r = <(Link, Link) as Components<u64, TestError>>::load(
        a,
        (Some(5), Some(5)),
        &mut tables,
        |m| {
            if let Some(found) = made.iter().find(|known| known.0 == m) {
                return Some(found.1);
            }
            let fresh = Entity { id: 100 + made.len() as u32, generation: 0 };
            made.push((m, fresh));
            Some(fresh)
        },
    );
    assert_eq!(r, Ok(()));
    assert_eq!(tables.0.get(a), Some(&Link { target: entity(100) }));
    assert_eq!(tables.1.get(a), Some(&Link { target: entity(100) }));
    assert_eq!(made, vec![(5, entity(100))]);
}

type Fifteen =
    (Tag, Tag, Tag, Tag, Tag, Tag, Tag, Tag, Tag, Tag, Tag, Tag, Tag, Tag, Link);

fn fifteen_tables(a: Entity) -> <Fifteen as saveload::saveload::details::Storages>::ReadStorages {
    let table = |n: u8| {
        let mut t = Storage::new();
        t.insert(a, Tag(n));
        t
    };
    let mut links = Storage::new();
    links.insert(a, Link { target: entity(2) });
    (
        table(0),
        table(1),
        table(2),
        table(3),
        table(4),
        table(5),
        Storage::new(),
        table(7),
        table(8),
        table(9),
        table(10),
        table(11),
        table(12),
        table(13),
        links,
    )
}

#[test]
fn list_of_fifteen_saves_every_position() {
    let a = entity(1);
    let tables = fifteen_tables(a);
    let saved = <Fifteen as Components<u64, TestError>>::save(a, &tables, |_| Some(9))
        .ok()
        .unwrap();
    assert_eq!(saved.0, Some(Tag(0)));
    assert_eq!(saved.1, Some(Tag(1)));
    assert_eq!(saved.2, Some(Tag(2)));
    assert_eq!(saved.3, Some(Tag(3)));
    assert_eq!(saved.4, Some(Tag(4)));
    assert_eq!(saved.5, Some(Tag(5)));
    assert_eq!(saved.6, None);
    assert_eq!(saved.7, Some(Tag(7)));
    assert_eq!(saved.8, Some(Tag(8)));
    assert_eq!(saved.9, Some(Tag(9)));
    assert_eq!(saved.10, Some(Tag(10)));
    assert_eq!(saved.11, Some(Tag(11)));
    assert_eq!(saved.12, Some(Tag(12)));
    assert_eq!(saved.13, Some(Tag(13)));
    assert_eq!(saved.14, Some(9));
}

#[test]
fn list_of_fifteen_fails_at_the_last_position() {
    let a = entity(1);
    let tables = fifteen_tables(a);
    let r = <Fifteen as Components<u64, TestError>>::save(a, &tables, no_marker);
    assert_eq!(r.err(), Some(TestError::Link(LinkError::NoMarker(entity(2)))));
}

#[test]
fn list_of_fifteen_loads_every_position() {
    let a = entity(1);
    let b = entity(3);
    let mut tables = fifteen_tables(a);
    let data = (
        Some(Tag(100)),
        None,
        Some(Tag(102)),
        Some(Tag(103)),
        Some(Tag(104)),
        Some(Tag(105)),
        Some(Tag(106)),
        Some(Tag(107)),
        Some(Tag(108)),
        Some(Tag(109)),
        Some(Tag(110)),
        Some(Tag(111)),
        Some(Tag(112)),
        None,
        Some(4u64),
    );
    let r = <Fifteen as Components<u64, TestError>>::load(a, data, &mut tables, |_| Some(b));
    assert_eq!(r, Ok(()));
    assert_eq!(tables.0.get(a), Some(&Tag(100)));
    assert_eq!(tables.1.get(a), None);
    assert_eq!(tables.2.get(a), Some(&Tag(102)));
    assert_eq!(tables.3.get(a), Some(&Tag(103)));
    assert_eq!(tables.4.get(a), Some(&Tag(104)));
    assert_eq!(tables.5.get(a), Some(&Tag(105)));
    assert_eq!(tables.6.get(a), Some(&Tag(106)));
    assert_eq!(tables.7.get(a), Some(&Tag(107)));
    assert_eq!(tables.8.get(a), Some(&Tag(108)));
    assert_eq!(tables.9.get(a), Some(&Tag(109)));
    assert_eq!(tables.10.get(a), Some(&Tag(110)));
    assert_eq!(tables.11.get(a), Some(&Tag(111)));
    assert_eq!(tables.12.get(a), Some(&Tag(112)));
    assert_eq!(tables.13.get(a), None);
    assert_eq!(tables.14.get(a), Some(&Link { target: b }));
}

#[test]
fn list_of_fifteen_keeps_earlier_tables_changed_on_error() {
    let a = entity(1);
    let mut tables = fifteen_tables(a);
    let data = (
        Some(Tag(100)),
        None,
        None,
        None,
        None,
        None,
        None,
        None,
        None,
        None,
        None,
        None,
        None,
        Some(Tag(113)),
        Some(4u64),
    );
    let r = <Fifteen as Components<u64, TestError>>::load(a, data, &mut tables, no_entity);
    assert_eq!(r, Err(TestError::Link(LinkError::NoEntity(4))));
    assert_eq!(tables.0.get(a), Some(&Tag(100)));
    assert_eq!(tables.1.get(a), None);
    assert_eq!(tables.12.get(a), None);
    assert_eq!(tables.13.get(a), Some(&Tag(113)));
    assert_eq!(tables.14.get(a), Some(&Link { target: entity(2) }));
}

#[test]
fn list_of_eight_fails_in_the_middle() {
    let a = entity(1);
    let tag = |n: u8| {
        let mut t = Storage::new();
        t.insert(a, Tag(n));
        t
    };
    let mut links = Storage::new();
    links.insert(a, Link { target: entity(2) });
    let mut tables = (tag(0), tag(1), tag(2), links, tag(4), tag(5), tag(6), tag(7));
    type Eight = (Tag, Tag, Tag, Link, Tag, Tag, Tag, Tag);
    let r = <Eight as Components<u64, TestError>>::save(a, &tables, no_marker);
    assert_eq!(r, Err(TestError::Link(LinkError::NoMarker(entity(2)))));
    let data = (
        Some(Tag(10)),
        Some(Tag(11)),
        None,
        Some(3u64),
        Some(Tag(14)),
        None,
        Some(Tag(16)),
        Some(Tag(17)),
    );
    let r = <Eight as Components<u64, TestError>>::load(a, data, &mut tables, no_entity);
    assert_eq!(r, Err(TestError::Link(LinkError::NoEntity(3))));
    assert_eq!(tables.0.get(a), Some(&Tag(10)));
    assert_eq!(tables.1.get(a), Some(&Tag(11)));
    assert_eq!(tables.2.get(a), None);
    assert_eq!(tables.3.get(a), Some(&Link { target: entity(2) }));
    assert_eq!(tables.4.get(a), Some(&Tag(4)));
    assert_eq!(tables.5.get(a), Some(&Tag(5)));
    assert_eq!(tables.6.get(a), Some(&Tag(6)));
    assert_eq!(tables.7.get(a), Some(&Tag(7)));
}
