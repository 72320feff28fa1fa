//! The codec of one component type, and the traits that run an ordered list
//! of codecs for one entity.

use crate::error::NoError;
use crate::saveload::marker::Marker;
use crate::world::{Component, Entity};
use vstd::prelude::*;

verus! {

/// What a lookup may answer: the pairs of a key and an answer that a call of
/// `f` on the key can return. A lookup need not answer the same key the same
/// way twice.
pub open spec fn answers<K, V, F: FnMut(K) -> Option<V>>(f: F) -> spec_fn(K, Option<V>) -> bool {
    |k: K, v: Option<V>| call_ensures(f, (k,), v)
}

/// Whether `e` is what `E::from` can make of `x`.
pub open spec fn converts<X, E: From<X>>(x: X, e: E) -> bool {
    call_ensures(E::from, (x,), e)
}

/// The record of one entity: its marker, and what was saved of its components.
pub struct EntityData<M: Marker, E, T: Components<M::Identifier, E>> {
    /// The marker that names the entity.
    pub marker: M,
    /// What was saved for each component type of `T`, in the order of `T`.
    pub components: T::Data,
}

/// A component that can be saved and loaded, with the entities it refers to
/// written as markers of type `M`.
///
/// Every component that is `Copy` has this codec already: it is saved as
/// itself.
pub trait SaveLoadComponent<M>: Component {
    /// What is written out for the component.
    type Data;

    /// Why saving or loading the component can fail.
    type Error;

    /// Whether `save` may return `r` for this component when `ids` is what the
    /// lookup may answer. A codec that says nothing of itself leaves every
    /// result open.
    open spec fn save_yields(
        &self,
        ids: spec_fn(Entity, Option<M>) -> bool,
        r: Result<Self::Data, Self::Error>,
    ) -> bool {
        true
    }

    /// Whether `load` may return `r` for `data` when `ids` is what the lookup
    /// may answer. A codec that says nothing of itself leaves every result
    /// open.
    open spec fn load_yields(
        data: Self::Data,
        ids: spec_fn(M, Option<Entity>) -> bool,
        r: Result<Self, Self::Error>,
    ) -> bool {
        true
    }

    /// Writes the component out, asking `ids` for the marker of each entity
    /// that it refers to. What happens when an entity has no marker is for the
    /// component to decide.
    fn save<F>(&self, ids: &mut F) -> (r: Result<Self::Data, Self::Error>) where
        F: FnMut(Entity) -> Option<M>,

        requires
            forall|e: Entity| call_requires(*old(ids), (e,)),
        ensures
            self.save_yields(answers(*old(ids)), r),
            *final(ids) == *old(ids),
    ;

    /// Builds the component from what was written out, asking `ids` for the
    /// entity of each marker that `data` holds.
    fn load<F>(data: Self::Data, ids: &mut F) -> (r: Result<Self, Self::Error>) where
        F: FnMut(M) -> Option<Entity>,

        requires
            forall|m: M| call_requires(*old(ids), (m,)),
        ensures
            Self::load_yields(data, answers(*old(ids)), r),
            *final(ids) == *old(ids),
    ;
}

impl<C, M> SaveLoadComponent<M> for C where C: Component + Copy {
    type Data = C;

    type Error = NoError;

    open spec fn save_yields(
        &self,
        ids: spec_fn(Entity, Option<M>) -> bool,
        r: Result<C, NoError>,
    ) -> bool {
        r == Ok::<C, NoError>(*self)
    }

    open spec fn load_yields(
        data: C,
        ids: spec_fn(M, Option<Entity>) -> bool,
        r: Result<C, NoError>,
    ) -> bool {
        r == Ok::<C, NoError>(data)
    }

    fn save<F>(&self, ids: &mut F) -> (r: Result<C, NoError>) where
        F: FnMut(Entity) -> Option<M>,

        ensures
            r == Ok::<C, NoError>(*self),
    {
        Ok(*self)
    }

    fn load<F>(data: C, ids: &mut F) -> (r: Result<C, NoError>) where
        F: FnMut(M) -> Option<Entity>,

        ensures
            r == Ok::<C, NoError>(data),
    {
        Ok(data)
    }
}

/// The tables that belong to an ordered list of component types.
pub trait Storages {
    /// The tables, in the order of the list, as `save` reads them.
    type ReadStorages;

    /// The tables, in the order of the list, as `load` changes them.
    type WriteStorages;
}

/// An ordered list of component types whose components are saved and loaded
/// together, one entity at a time.
///
/// `M` is what stands for an entity in saved data, `E` the one error that the
/// errors of all component types are turned into.
pub trait Components<M, E>: Storages {
    /// One slot per component type, in the order of the list: `None` where the
    /// entity has no component of that type.
    type Data;

    /// Whether `save` may return `r` for `entity`.
    spec fn save_yields(
        entity: Entity,
        storages: &<Self as Storages>::ReadStorages,
        ids: spec_fn(Entity, Option<M>) -> bool,
        r: Result<Self::Data, E>,
    ) -> bool;

    /// Whether `load` may return `r` for `entity` and leave the tables as
    /// `after` when it found them as `before`.
    spec fn load_yields(
        entity: Entity,
        components: Self::Data,
        before: &<Self as Storages>::WriteStorages,
        after: &<Self as Storages>::WriteStorages,
        ids: spec_fn(M, Option<Entity>) -> bool,
        r: Result<(), E>,
    ) -> bool;

    /// Saves the components of `entity`, type by type in the order of the
    /// list, and stops at the first that fails.
    fn save<F>(entity: Entity, storages: &<Self as Storages>::ReadStorages, ids: F) -> (r: Result<
        Self::Data,
        E,
    >) where F: FnMut(Entity) -> Option<M>
        requires
            forall|e: Entity| call_requires(ids, (e,)),
        ensures
            Self::save_yields(entity, storages, answers(ids), r),
    ;

    /// Gives `entity` the components that `components` holds, type by type in
    /// the order of the list, takes from it those for which the slot is empty,
    /// and stops at the first that fails. What was done before a failure
    /// stays done.
    fn load<F>(
        entity: Entity,
        components: Self::Data,
        storages: &mut <Self as Storages>::WriteStorages,
        ids: F,
    ) -> (r: Result<(), E>) where F: FnMut(M) -> Option<Entity>
        requires
            forall|m: M| call_requires(ids, (m,)),
        ensures
            Self::load_yields(entity, components, old(storages), final(storages), answers(ids), r),
    ;
}

/// Saves the components of `entity` and puts them beside its marker.
pub fn save_entity_record<M, E, T, F>(
    entity: Entity,
    marker: M,
    storages: &<T as Storages>::ReadStorages,
    ids: F,
) -> (r: Result<EntityData<M, E, T>, E>) where
    M: Marker,
    T: Components<M::Identifier, E>,
    F: FnMut(Entity) -> Option<M::Identifier>,

    requires
        forall|e: Entity| call_requires(ids, (e,)),
    ensures
        match r {
            Ok(record) => record.marker == marker && T::save_yields(
                entity,
                storages,
                answers(ids),
                Ok(record.components),
            ),
            Err(e) => T::save_yields(entity, storages, answers(ids), Err(e)),
        },
{
    match T::save(entity, storages, ids) {
        Ok(components) => Ok(EntityData { marker, components }),
        Err(e) => Err(e),
    }
}

/// Loads the components of `record` onto `entity`, the entity that the
/// record's marker was resolved to.
pub fn load_entity_record<M, E, T, F>(
    record: EntityData<M, E, T>,
    entity: Entity,
    storages: &mut <T as Storages>::WriteStorages,
    ids: F,
) -> (r: Result<(), E>) where
    M: Marker,
    T: Components<M::Identifier, E>,
    F: FnMut(M::Identifier) -> Option<Entity>,

    requires
        forall|m: M::Identifier| call_requires(ids, (m,)),
    ensures
        T::load_yields(
            entity,
            record.components,
            old(storages),
            final(storages),
            answers(ids),
            r,
        ),
{
    T::load(entity, record.components, storages, ids)
}

} // verus!
