//! Saving and loading the components of one entity.
//!
//! An [`world::Entity`] is a handle that means something only while the process
//! runs. A component that refers to another entity is therefore saved with the
//! entity replaced by a stable marker, and loaded with the marker replaced by
//! an entity again. The [`saveload`] module holds the codec that each component
//! type provides for this, and the machinery that runs an ordered list of
//! codecs for one entity.

pub mod error;
pub mod saveload;
pub mod storage;
pub mod world;
