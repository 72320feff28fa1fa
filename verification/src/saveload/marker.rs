//! Stable names for entities.

use crate::world::Component;
use vstd::prelude::*;

verus! {

/// A component that names its entity across a save and a later load.
pub trait Marker: Component {
    /// What stands for the entity in saved data.
    type Identifier;

    /// The identifier that this marker carries.
    fn id(&self) -> Self::Identifier;
}

} // verus!
