//! What is written out for the components of an entity, and how components
//! are made of it again.

pub mod details;
pub mod laws;
pub mod marker;
pub mod slot;
pub mod tuples_0_to_4;
pub mod tuples_12_to_13;
pub mod tuples_14_to_15;
pub mod tuples_5_to_8;
pub mod tuples_9_to_11;
