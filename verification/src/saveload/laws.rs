//! What holds of every codec that saves a component as itself, of every
//! position of a list, and of lists of three component types.

use crate::error::NoError;
use crate::saveload::details::{converts, Components, SaveLoadComponent};
use crate::saveload::slot::{slot_load_fails, slot_loaded, slot_passes, slot_save_fails, slot_saved};
use crate::storage::Storage;
use crate::world::{Component, Entity};
use vstd::prelude::*;
use vstd::std_specs::convert::FromSpec;

verus! {

/// A component that is `Copy` is saved as itself and loaded as it was saved,
/// whatever the two lookups may answer: saving `c` gives `c`, and loading what
/// was saved gives `c` again.
pub proof fn pass_through_round_trip<C: Component + Copy, M>(
    c: C,
    save_ids: spec_fn(Entity, Option<M>) -> bool,
    load_ids: spec_fn(M, Option<Entity>) -> bool,
    saved: Result<C, NoError>,
    loaded: Result<C, NoError>,
)
    requires
        <C as SaveLoadComponent<M>>::save_yields(&c, save_ids, saved),
        saved matches Ok(data) ==> <C as SaveLoadComponent<M>>::load_yields(data, load_ids, loaded),
    ensures
        saved == Ok::<C, NoError>(c),
        loaded == Ok::<C, NoError>(c),
{
}

/// Where the entity has no component of a type, saving the position succeeds
/// with an empty slot; where it has one, the slot of a success is full.
pub proof fn component_present_iff_slot_full<M, C: SaveLoadComponent<M>>(
    table: Map<Entity, C>,
    entity: Entity,
    ids: spec_fn(Entity, Option<M>) -> bool,
    r: Result<Option<C::Data>, C::Error>,
)
    requires
        slot_saved::<M, C>(table, entity, ids, r),
    ensures
        !table.contains_key(entity) ==> r == Ok::<Option<C::Data>, C::Error>(None),
        r matches Ok(slot) ==> (slot is Some <==> table.contains_key(entity)),
{
}

/// Loading an empty slot succeeds and leaves the entity without a component
/// of the type, whether it had one or not; no other entity is touched.
pub proof fn empty_slot_removes_component<M, C: SaveLoadComponent<M>>(
    before: Map<Entity, C>,
    after: Map<Entity, C>,
    entity: Entity,
    ids: spec_fn(M, Option<Entity>) -> bool,
    r: Result<(), C::Error>,
)
    requires
        slot_loaded::<M, C>(before, after, entity, None, ids, r),
    ensures
        r is Ok,
        !after.contains_key(entity),
        after == before.remove(entity),
{
}

/// Loading a full slot with success leaves the entity with a component of the
/// type, and a slot that was saved and then loaded with success leaves the
/// entity with a component exactly if it had one when it was saved.
pub proof fn presence_survives_save_and_load<M, C: SaveLoadComponent<M>>(
    saved_from: Map<Entity, C>,
    saved_entity: Entity,
    save_ids: spec_fn(Entity, Option<M>) -> bool,
    slot: Option<C::Data>,
    before: Map<Entity, C>,
    after: Map<Entity, C>,
    entity: Entity,
    load_ids: spec_fn(M, Option<Entity>) -> bool,
)
    requires
        slot_saved::<M, C>(saved_from, saved_entity, save_ids, Ok(slot)),
        slot_loaded::<M, C>(before, after, entity, slot, load_ids, Ok(())),
    ensures
        after.contains_key(entity) <==> saved_from.contains_key(saved_entity),
        forall|other: Entity|
            other != entity ==> (after.contains_key(other) <==> before.contains_key(other)),
{
}

/// Where `E::from` is specified, the error that a list returns for the error
/// `x` of a component is `E::from_spec(x)`.
pub proof fn converted_error_is_from_spec<X, E: From<X>>(x: X, e: E)
    requires
        converts(x, e),
        E::obeys_from_spec(),
    ensures
        e == E::from_spec(x),
{
}

/// The empty list can only succeed, on saving and on loading; there is nothing
/// that it could read or change.
pub proof fn empty_list_succeeds<M, E>(
    entity: Entity,
    save_ids: spec_fn(Entity, Option<M>) -> bool,
    load_ids: spec_fn(M, Option<Entity>) -> bool,
    saved: Result<(), E>,
    loaded: Result<(), E>,
)
    requires
        <() as Components<M, E>>::save_yields(entity, &(), save_ids, saved),
        <() as Components<M, E>>::load_yields(entity, (), &(), &(), load_ids, loaded),
    ensures
        saved is Ok,
        loaded is Ok,
{
}

/// Each slot of what a list of three saves stands for the type at its own
/// position: it is full exactly if the entity has a component in the table at
/// that position.
pub proof fn saved_slots_keep_their_positions<M, E, C0, C1, C2>(
    entity: Entity,
    storages: &(Storage<C0>, Storage<C1>, Storage<C2>),
    ids: spec_fn(Entity, Option<M>) -> bool,
    data: (Option<C0::Data>, Option<C1::Data>, Option<C2::Data>),
) where
    C0: SaveLoadComponent<M>,
    E: From<C0::Error>,
    C1: SaveLoadComponent<M>,
    E: From<C1::Error>,
    C2: SaveLoadComponent<M>,
    E: From<C2::Error>,

    requires
        <(C0, C1, C2) as Components<M, E>>::save_yields(entity, storages, ids, Ok(data)),
    ensures
        data.0 is Some <==> storages.0@.contains_key(entity),
        data.1 is Some <==> storages.1@.contains_key(entity),
        data.2 is Some <==> storages.2@.contains_key(entity),
{
}

/// Each slot that a list of three loads with success goes to the table at its
/// own position: afterwards the entity has a component there exactly if the
/// slot was full.
pub proof fn loaded_slots_keep_their_positions<M, E, C0, C1, C2>(
    entity: Entity,
    components: (Option<C0::Data>, Option<C1::Data>, Option<C2::Data>),
    before: &(Storage<C0>, Storage<C1>, Storage<C2>),
    after: &(Storage<C0>, Storage<C1>, Storage<C2>),
    ids: spec_fn(M, Option<Entity>) -> bool,
) where
    C0: SaveLoadComponent<M>,
    E: From<C0::Error>,
    C1: SaveLoadComponent<M>,
    E: From<C1::Error>,
    C2: SaveLoadComponent<M>,
    E: From<C2::Error>,

    requires
        <(C0, C1, C2) as Components<M, E>>::load_yields(
            entity,
            components,
            before,
            after,
            ids,
            Ok(()),
        ),
    ensures
        after.0@.contains_key(entity) <==> components.0 is Some,
        after.1@.contains_key(entity) <==> components.1 is Some,
        after.2@.contains_key(entity) <==> components.2 is Some,
{
}

/// Where, of a list of three, saving the first position cannot fail and
/// saving the second cannot succeed, saving the list fails, with an error
/// made from one of the second position.
pub proof fn save_stops_at_second_failure<M, E, C0, C1, C2>(
    entity: Entity,
    storages: &(Storage<C0>, Storage<C1>, Storage<C2>),
    ids: spec_fn(Entity, Option<M>) -> bool,
    r: Result<(Option<C0::Data>, Option<C1::Data>, Option<C2::Data>), E>,
) where
    C0: SaveLoadComponent<M>,
    E: From<C0::Error>,
    C1: SaveLoadComponent<M>,
    E: From<C1::Error>,
    C2: SaveLoadComponent<M>,
    E: From<C2::Error>,

    requires
        <(C0, C1, C2) as Components<M, E>>::save_yields(entity, storages, ids, r),
        forall|e: C0::Error| !slot_saved::<M, C0>(storages.0@, entity, ids, Err(e)),
        !slot_passes::<M, C1>(storages.1@, entity, ids),
    ensures
        r matches Err(err) && slot_save_fails::<M, C1, E>(storages.1@, entity, ids, err),
{
    match r {
        Ok(data) => {
            assert(slot_saved::<M, C1>(storages.1@, entity, ids, Ok(data.1)));
        },
        Err(err) => {},
    }
}

/// Where, of a list of three, loading the first slot cannot fail and loading
/// the second cannot succeed, loading the list fails with an error made from
/// one of the second slot; the first table has been changed as the first slot
/// says, the second and third are as they were.
pub proof fn load_stops_at_second_failure<M, E, C0, C1, C2>(
    entity: Entity,
    components: (Option<C0::Data>, Option<C1::Data>, Option<C2::Data>),
    before: &(Storage<C0>, Storage<C1>, Storage<C2>),
    after: &(Storage<C0>, Storage<C1>, Storage<C2>),
    ids: spec_fn(M, Option<Entity>) -> bool,
    r: Result<(), E>,
) where
    C0: SaveLoadComponent<M>,
    E: From<C0::Error>,
    C1: SaveLoadComponent<M>,
    E: From<C1::Error>,
    C2: SaveLoadComponent<M>,
    E: From<C2::Error>,

    requires
        <(C0, C1, C2) as Components<M, E>>::load_yields(entity, components, before, after, ids, r),
        forall|e: C0::Error, changed: Map<Entity, C0>|
            !slot_loaded::<M, C0>(before.0@, changed, entity, components.0, ids, Err(e)),
        forall|changed: Map<Entity, C1>|
            !slot_loaded::<M, C1>(before.1@, changed, entity, components.1, ids, Ok(())),
    ensures
        r matches Err(err) && slot_load_fails::<M, C1, E>(
            before.1@,
            after.1@,
            entity,
            components.1,
            ids,
            err,
        ),
        slot_loaded::<M, C0>(before.0@, after.0@, entity, components.0, ids, Ok(())),
        after.1@ == before.1@,
        after.2@ == before.2@,
{
}

} // verus!
