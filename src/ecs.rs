//! A small entity store: per-type sparse sets of components keyed by entity
//! id.
pub mod sparse_set;
pub mod world;

pub use sparse_set::{ComponentStorage, Entity, SparseSet};
pub use world::{EntityBuilder, World};
