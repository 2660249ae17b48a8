//! The entity-component world: typed per-entity stores, per-tick shared
//! resources, the systems that run over them, and the scheduler that orders
//! the systems.

pub mod component;
pub mod resource;
pub mod scheduler;
pub mod system;
pub mod world;

use vstd::prelude::*;

verus! {

/// An entity: an opaque identifier with no intrinsic data. Entities are
/// created by the world; identifiers are never reused within one world.
#[derive(Debug, Clone, Copy, PartialEq, Eq, Structural, Hash)]
pub struct Entity {
    /// The arena index of the entity.
    pub id: usize,
}

} // verus!
