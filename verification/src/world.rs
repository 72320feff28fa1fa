//! Entities and the trait that marks a type as a component.

use vstd::prelude::*;

verus! {

/// A handle to one object of the running world.
///
/// Two handles are the same entity when index and generation agree. A handle
/// is not stable across a save and a later load.
#[derive(Clone, Copy, Debug, PartialEq, Eq, Structural, Hash)]
pub struct Entity {
    /// Slot of the entity.
    pub id: u32,
    /// How often the slot had been reused when the entity was made.
    pub generation: u32,
}

/// Data that can be attached to an entity, at most once per type.
pub trait Component: Sized {}

} // verus!
