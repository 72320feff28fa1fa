//! The table that holds the components of one type.

use crate::world::Entity;
use std::collections::HashMap;
use vstd::prelude::*;

verus! {

/// The number under which a table files an entity: the generation in the high
/// half, the index in the low half.
spec fn key_of(e: Entity) -> u64 {
    (e.generation * 0x1_0000_0000 + e.id) as u64
}

/// All components of type `C`, each attached to one entity.
///
/// The view is the map from the entities that have a component to that
/// component.
pub struct Storage<C> {
    slots: HashMap<u64, C>,
}

impl<C> View for Storage<C> {
    type V = Map<Entity, C>;

    closed spec fn view(&self) -> Map<Entity, C> {
        Map::new(
            |e: Entity| self.slots@.contains_key(key_of(e)),
            |e: Entity| self.slots@[key_of(e)],
        )
    }
}

/// Computes the number under which `e` is filed.
fn key(e: Entity) -> (k: u64)
    ensures
        k == key_of(e),
{
    let high: u64 = e.generation as u64;
    let low: u64 = e.id as u64;
    high * 0x1_0000_0000 + low
}

impl<C> Storage<C> {
    /// A table in which no entity has a component.
    pub fn new() -> (s: Self)
        ensures
            s@ == Map::<Entity, C>::empty(),
    {
        let s = Storage { slots: HashMap::new() };
        assert(s@ =~= Map::<Entity, C>::empty());
        s
    }

    /// The component of `e`, if it has one.
    pub fn get(&self, e: Entity) -> (r: Option<&C>)
        ensures
            r == (if self@.contains_key(e) {
                Some(&self@[e])
            } else {
                None
            }),
    {
        broadcast use vstd::std_specs::hash::group_hash_axioms;

        self.slots.get(&key(e))
    }

    /// Attaches `c` to `e`, in place of any component that `e` had.
    pub fn insert(&mut self, e: Entity, c: C)
        ensures
            final(self)@ == old(self)@.insert(e, c),
    {
        broadcast use vstd::std_specs::hash::group_hash_axioms;

        self.slots.insert(key(e), c);
        assert(self@ =~= old(self)@.insert(e, c));
    }

    /// Detaches the component of `e` and returns it, if `e` had one.
    pub fn remove(&mut self, e: Entity) -> (r: Option<C>)
        ensures
            final(self)@ == old(self)@.remove(e),
            r == (if old(self)@.contains_key(e) {
                Some(old(self)@[e])
            } else {
                None
            }),
    {
        broadcast use vstd::std_specs::hash::group_hash_axioms;

        let r = self.slots.remove(&key(e));
        assert(self@ =~= old(self)@.remove(e));
        r
    }
}

} // verus!
