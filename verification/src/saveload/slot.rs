//! One position of a list of component types: the step that saves or loads
//! the component of one type.

use crate::saveload::details::{answers, converts, SaveLoadComponent};
use crate::storage::Storage;
use crate::world::Entity;
use vstd::prelude::*;

verus! {

/// Whether saving the position may give `r`, where `table` maps each entity
/// to its component of type `C`.
///
/// Without a component the slot is empty and nothing is asked of the codec;
/// with one, the slot holds what the codec made of it, or the codec's error
/// comes back.
pub open spec fn slot_saved<M, C: SaveLoadComponent<M>>(
    table: Map<Entity, C>,
    entity: Entity,
    ids: spec_fn(Entity, Option<M>) -> bool,
    r: Result<Option<C::Data>, C::Error>,
) -> bool {
    if table.contains_key(entity) {
        match r {
            Ok(Some(data)) => table[entity].save_yields(ids, Ok(data)),
            Ok(None) => false,
            Err(e) => table[entity].save_yields(ids, Err(e)),
        }
    } else {
        r == Ok::<Option<C::Data>, C::Error>(None)
    }
}

/// Whether saving the position may succeed, so that the position after it is
/// reached.
pub open spec fn slot_passes<M, C: SaveLoadComponent<M>>(
    table: Map<Entity, C>,
    entity: Entity,
    ids: spec_fn(Entity, Option<M>) -> bool,
) -> bool {
    exists|slot: Option<C::Data>| #[trigger] slot_saved::<M, C>(table, entity, ids, Ok(slot))
}

/// Whether saving the position may fail with an error that `E::from` turns
/// into `err`.
pub open spec fn slot_save_fails<M, C: SaveLoadComponent<M>, E: From<C::Error>>(
    table: Map<Entity, C>,
    entity: Entity,
    ids: spec_fn(Entity, Option<M>) -> bool,
    err: E,
) -> bool {
    exists|e: C::Error| #[trigger]
        slot_saved::<M, C>(table, entity, ids, Err(e)) && converts(e, err)
}

/// Whether loading `slot` may give `r` and change the table from `before` to
/// `after`.
///
/// A full slot is decoded and the result attached to `entity`, in place of
/// what it had; if the codec fails the table stays as it was. An empty slot
/// takes the component of `entity` away.
pub open spec fn slot_loaded<M, C: SaveLoadComponent<M>>(
    before: Map<Entity, C>,
    after: Map<Entity, C>,
    entity: Entity,
    slot: Option<C::Data>,
    ids: spec_fn(M, Option<Entity>) -> bool,
    r: Result<(), C::Error>,
) -> bool {
    match slot {
        Some(data) => match r {
            Ok(_) => exists|c: C| #[trigger]
                C::load_yields(data, ids, Ok(c)) && after == before.insert(entity, c),
            Err(e) => C::load_yields(data, ids, Err(e)) && after == before,
        },
        None => r is Ok && after == before.remove(entity),
    }
}

/// Whether loading `slot` may fail with an error that `E::from` turns into
/// `err`, which leaves the table as it was.
pub open spec fn slot_load_fails<M, C: SaveLoadComponent<M>, E: From<C::Error>>(
    before: Map<Entity, C>,
    after: Map<Entity, C>,
    entity: Entity,
    slot: Option<C::Data>,
    ids: spec_fn(M, Option<Entity>) -> bool,
    err: E,
) -> bool {
    exists|e: C::Error| #[trigger]
        slot_loaded::<M, C>(before, after, entity, slot, ids, Err(e)) && converts(e, err)
}

/// The slot for what a codec made of a component: `found` is `None` where the
/// entity has no component, else what `save` returned for it.
pub open spec fn slot_of<D, X>(found: Option<Result<D, X>>) -> Result<Option<D>, X> {
    match found {
        Some(Ok(data)) => Ok(Some(data)),
        Some(Err(e)) => Err(e),
        None => Ok(None),
    }
}

/// Turns what a codec made of a component into the slot of the position.
pub fn saved_slot<D, X>(found: Option<Result<D, X>>) -> (r: Result<Option<D>, X>)
    ensures
        r == slot_of(found),
{
    match found {
        Some(Ok(data)) => Ok(Some(data)),
        Some(Err(e)) => Err(e),
        None => Ok(None),
    }
}

/// Puts what a codec made of a slot into the table: `loaded` is `None` where
/// the slot was empty, else what `load` returned for it.
///
/// A component is attached to `entity` in place of what it had, an error
/// leaves the table alone, and an empty slot takes the component of `entity`
/// away.
pub fn store_slot<C, X>(entity: Entity, loaded: Option<Result<C, X>>, table: &mut Storage<C>) -> (r:
    Result<(), X>)
    ensures
        match loaded {
            Some(Ok(c)) => r is Ok && final(table)@ == old(table)@.insert(entity, c),
            Some(Err(e)) => r == Err::<(), X>(e) && final(table)@ == old(table)@,
            None => r is Ok && final(table)@ == old(table)@.remove(entity),
        },
{
    match loaded {
        Some(Ok(c)) => {
            table.insert(entity, c);
            Ok(())
        },
        Some(Err(e)) => Err(e),
        None => {
            table.remove(entity);
            Ok(())
        },
    }
}

/// Saves the component of type `C` that `entity` has, if any.
pub fn save_slot<M, C, F>(entity: Entity, table: &Storage<C>, ids: &mut F) -> (r: Result<
    Option<C::Data>,
    C::Error,
>) where C: SaveLoadComponent<M>, F: FnMut(Entity) -> Option<M>
    requires
        forall|e: Entity| call_requires(*old(ids), (e,)),
    ensures
        slot_saved(table@, entity, answers(*old(ids)), r),
        *final(ids) == *old(ids),
{
    let found = match table.get(entity) {
        Some(c) => Some(c.save(ids)),
        None => None,
    };
    saved_slot(found)
}

/// Loads `slot` into the table of type `C`: attaches what it decodes to
/// `entity`, or detaches the component of `entity` where the slot is empty.
pub fn load_slot<M, C, F>(
    entity: Entity,
    slot: Option<C::Data>,
    table: &mut Storage<C>,
    ids: &mut F,
) -> (r: Result<(), C::Error>) where C: SaveLoadComponent<M>, F: FnMut(M) -> Option<Entity>
    requires
        forall|m: M| call_requires(*old(ids), (m,)),
    ensures
        slot_loaded(old(table)@, final(table)@, entity, slot, answers(*old(ids)), r),
        *final(ids) == *old(ids),
{
    let loaded = match slot {
        Some(data) => Some(C::load(data, ids)),
        None => None,
    };
    store_slot(entity, loaded, table)
}

} // verus!
