//! Per-tick shared resources: values every system may read, written once
//! per tick at the top of the loop, plus the collision event channel.

use vstd::prelude::*;
use crate::ecs::Entity;
use crate::event::EventChannel;

verus! {

/// Where the sprite-sheet image lives; read once by the render back end.
#[derive(Debug, Clone)]
pub struct SpritesheetPath(pub String);

/// Microseconds elapsed since the previous tick.
#[derive(Debug, Clone, Copy, PartialEq, Eq, Structural)]
pub struct DeltaTime(pub u32);

impl Default for DeltaTime {
    fn default() -> (r: DeltaTime)
        ensures
            r == DeltaTime(0u32),
    {
        DeltaTime(0)
    }
}

/// The window size in pixels.
#[derive(Debug, Clone, Copy, PartialEq, Eq, Structural)]
pub struct WindowSize(pub u32, pub u32);

impl Default for WindowSize {
    fn default() -> (r: WindowSize)
        ensures
            r == WindowSize(0u32, 0u32),
    {
        WindowSize(0, 0)
    }
}

/// The camera offset: world x, world y, and a depth-scale component.
#[derive(Debug, Clone, Copy, PartialEq, Eq, Structural)]
pub struct ViewOffset(pub i64, pub i64, pub i64);

impl Default for ViewOffset {
    fn default() -> (r: ViewOffset)
        ensures
            r == ViewOffset(0i64, 0i64, 0i64),
    {
        ViewOffset(0, 0, 0)
    }
}

/// One detected overlap between two collidable entities. Detection walks
/// ordered pairs, so both `(a, b)` and `(b, a)` are emitted for a single
/// physical overlap; consumers must tolerate that.
#[derive(Debug, Clone, Copy, PartialEq, Eq, Structural)]
pub struct CollisionEvent {
    pub collider_a: Entity,
    pub collider_b: Entity,
}

impl CollisionEvent {
    pub fn new(a: Entity, b: Entity) -> (r: CollisionEvent)
        ensures
            r == (CollisionEvent { collider_a: a, collider_b: b }),
    {
        CollisionEvent { collider_a: a, collider_b: b }
    }
}

/// The broadcast log of this world's collision events.
pub type CollisionEvents = EventChannel<CollisionEvent>;

} // verus!
