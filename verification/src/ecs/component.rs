//! The component kinds an entity can carry. World coordinates and scales
//! are fixed-point integers (milli-units), durations are microseconds;
//! the front end converts at the boundary.

use vstd::prelude::*;
use std::sync::Arc;
use crate::model::spritesheet::{AnimationSchema, SpriteSchema, assoc_find};
use crate::shared::arc_clone;

verus! {

/// A world-space position, y growing upward, z used for draw depth.
#[derive(Debug, Clone, Copy, PartialEq, Eq, Structural)]
pub struct Position {
    pub x: i64,
    pub y: i64,
    pub z: i64,
}

impl Position {
    pub fn new(x: i64, y: i64, z: i64) -> (r: Position)
        ensures
            r == (Position { x, y, z }),
    {
        Position { x, y, z }
    }
}

impl Default for Position {
    /// The origin.
    fn default() -> (r: Position)
        ensures
            r == (Position { x: 0i64, y: 0i64, z: 0i64 }),
    {
        Position { x: 0, y: 0, z: 0 }
    }
}

/// A per-axis render scale in milli-units: 1000 is natural size. A negative
/// x flips the sprite horizontally.
#[derive(Debug, Clone, Copy, PartialEq, Eq, Structural)]
pub struct Scale {
    pub x: i32,
    pub y: i32,
}

impl Scale {
    pub fn new(x: i32, y: i32) -> (r: Scale)
        ensures
            r == (Scale { x, y }),
    {
        Scale { x, y }
    }
}

impl Default for Scale {
    /// Natural size.
    fn default() -> (r: Scale)
        ensures
            r == (Scale { x: 1000i32, y: 1000i32 }),
    {
        Scale { x: 1000, y: 1000 }
    }
}

/// A rotation in millidegrees.
#[derive(Debug, Clone, Copy, PartialEq, Eq, Structural)]
pub struct Rotation {
    pub deg: i32,
}

impl Default for Rotation {
    fn default() -> (r: Rotation)
        ensures
            r == (Rotation { deg: 0i32 }),
    {
        Rotation { deg: 0 }
    }
}

/// An RGBA tint, each channel 0 to 255.
#[derive(Debug, Clone, Copy, PartialEq, Eq, Structural)]
pub struct Color {
    pub r: u8,
    pub g: u8,
    pub b: u8,
    pub a: u8,
}

impl Default for Color {
    /// Opaque white: the identity tint.
    fn default() -> (r: Color)
        ensures
            r == (Color { r: 255u8, g: 255u8, b: 255u8, a: 255u8 }),
    {
        Color { r: 255, g: 255, b: 255, a: 255 }
    }
}

/// A renderable sprite: a shared schema handle plus the tile offset the
/// animation system maintains. The drawn tile is always
/// `schema.root + id_offset`, recomputed every tick, never drifted.
#[derive(Debug, Clone)]
pub struct Sprite {
    /// Shifts the sprite's drawn tile away from the schema root; written by
    /// the animation system.
    pub id_offset: i32,
    /// The sprite's shared, immutable definition.
    pub schema: Arc<SpriteSchema>,
}

impl Sprite {
    /// A fresh sprite showing its schema's root tile.
    pub fn from_schema(schema: Arc<SpriteSchema>) -> (r: Sprite)
        ensures
            r.id_offset == 0,
            *r.schema == *schema,
    {
        Sprite { id_offset: 0, schema }
    }

    /// An explicit copy; the schema handle is shared, never deep-copied.
    pub fn duplicate(&self) -> (r: Sprite)
        ensures
            r == *self,
    {
        Sprite { id_offset: self.id_offset, schema: arc_clone(&self.schema) }
    }
}

/// Per-entity animation playback state. The shared schema says what the
/// animation is; this says where this entity currently stands in it.
#[derive(Debug, Clone)]
pub struct Animation {
    /// Current offset from the schema's root tile.
    pub frame: u8,
    /// Fractional progress toward the next frame, in microseconds;
    /// always less than the schema's `frame_time`.
    pub frame_progress: u32,
    /// Whether playback currently runs backwards.
    pub is_reversing: bool,
    /// Set once a non-persisting terminal mode finishes; the entity is then
    /// deleted at the next maintenance point.
    pub is_done: bool,
    /// The shared definition; `None` means the entity is static.
    pub schema: Option<Arc<AnimationSchema>>,
}

impl Animation {
    /// Playback state the animation engine can step: the frame and the
    /// progress accumulator are in range and the reversing flag only arises
    /// in modes that reverse.
    pub open spec fn wf(self) -> bool {
        match self.schema {
            Some(schema) => {
                &&& (*schema).wf()
                &&& self.frame < (*schema).frames
                &&& self.frame_progress < (*schema).frame_time
                &&& self.is_reversing ==> (*schema).mode.spec_reverses()
            },
            None => true,
        }
    }

    /// Fresh playback state at frame zero of the given animation, if any.
    pub fn from_schema(schema: Option<Arc<AnimationSchema>>) -> (r: Animation)
        ensures
            r.frame == 0,
            r.frame_progress == 0,
            !r.is_reversing,
            !r.is_done,
            r.schema == schema,
            (match schema {
                Some(s) => (*s).wf(),
                None => true,
            }) ==> r.wf(),
    {
        Animation {
            frame: 0,
            frame_progress: 0,
            is_reversing: false,
            is_done: false,
            schema,
        }
    }

    /// Fresh playback state for the sprite's animation of the given name;
    /// an unknown name yields a static (schema-less) state.
    pub fn from_name(name: &str, sprite: &Sprite) -> (r: Animation)
        ensures
            r.frame == 0,
            r.frame_progress == 0,
            !r.is_reversing,
            !r.is_done,
            r.schema == assoc_find((*sprite.schema).animations@, name@),
    {
        let found = sprite.schema.animation(name);
        match found {
            Some(a) => Animation::from_schema(Some(arc_clone(a))),
            None => Animation::from_schema(None),
        }
    }

    /// An explicit copy; the schema handle is shared, never deep-copied.
    pub fn duplicate(&self) -> (r: Animation)
        ensures
            r == *self,
    {
        Animation {
            frame: self.frame,
            frame_progress: self.frame_progress,
            is_reversing: self.is_reversing,
            is_done: self.is_done,
            schema: match &self.schema {
                Some(s) => Some(arc_clone(s)),
                None => None,
            },
        }
    }

    /// Checks [`Self::wf`].
    pub fn is_wf(&self) -> (r: bool)
        ensures
            r == self.wf(),
    {
        match &self.schema {
            None => true,
            Some(sc) => sc.frames >= 1 && sc.frame_time >= 1 && (!sc.mode.reverses()
                || sc.frames >= 2) && sc.root <= 0xFFFF && self.frame < sc.frames
                && self.frame_progress < sc.frame_time && (!self.is_reversing
                || sc.mode.reverses()),
        }
    }
}

/// A velocity in milli-units per second.
#[derive(Debug, Clone, Copy, PartialEq, Eq, Structural)]
pub struct Velocity {
    pub x: i32,
    pub y: i32,
}

impl Velocity {
    pub fn new(x: i32, y: i32) -> (r: Velocity)
        ensures
            r == (Velocity { x, y }),
    {
        Velocity { x, y }
    }
}

/// A target position approached with damped motion. Carried as data; no
/// system drives it yet.
#[derive(Debug, Clone, Copy)]
pub struct DampedMoveTarget {
    /// The position to move to.
    pub target: (i64, i64),
    /// Parameters for the movement.
    pub frequency: i32,
    pub damping: i32,
    pub response: i32,
}

/// An axis-aligned collision box, centred on the entity's position;
/// extents in milli-units.
#[derive(Debug, Clone, Copy, PartialEq, Eq, Structural)]
pub struct Collider {
    pub width: u32,
    pub height: u32,
}

impl Collider {
    pub fn new(width: u32, height: u32) -> (r: Collider)
        ensures
            r == (Collider { width, height }),
    {
        Collider { width, height }
    }
}

/// A point light. Intensity is in milli-units; a scaled light multiplies
/// its intensity by the entity's largest scale axis.
#[derive(Debug, Clone, Copy, PartialEq, Eq, Structural)]
pub struct PointLight {
    pub intensity: u32,
    pub scaled: bool,
}

impl PointLight {
    pub fn new(intensity: u32) -> (r: PointLight)
        ensures
            r == (PointLight { intensity, scaled: false }),
    {
        PointLight { intensity, scaled: false }
    }

    pub fn new_scaled(intensity: u32) -> (r: PointLight)
        ensures
            r == (PointLight { intensity, scaled: true }),
    {
        PointLight { intensity, scaled: true }
    }
}

/// A text label drawn near the entity; size in milli-units, offset in
/// world coordinates.
#[derive(Debug)]
pub struct Text {
    pub content: String,
    pub size: i32,
    pub offset: (i64, i64),
}

impl Text {
    pub fn new(content: String, size: i32, offset: (i64, i64)) -> (r: Text)
        ensures
            r.content == content,
            r.size == size,
            r.offset == offset,
    {
        Text { content, size, offset }
    }
}

/// A decrementing lifetime in microseconds. Once it reaches zero the
/// particle system queues the entity for deletion.
#[derive(Debug, Clone, Copy, PartialEq, Eq, Structural)]
pub struct Lifetime {
    pub remaining: i64,
}

/// Applies a per-second scaling factor (milli-units) to the entity's
/// scale; below the threshold the entity is queued for deletion.
#[derive(Debug, Clone, Copy, PartialEq, Eq, Structural)]
pub struct Scaling {
    pub factor: u32,
    pub threshold: i32,
}

impl Scaling {
    /// A scaling with a threshold below any magnitude, so the entity is
    /// never deleted on size alone.
    pub fn new(factor: u32) -> (r: Scaling)
        ensures
            r == (Scaling { factor, threshold: -1000i32 }),
    {
        Scaling { factor, threshold: -1000 }
    }

    pub fn with_thresh(factor: u32, threshold: i32) -> (r: Scaling)
        ensures
            r == (Scaling { factor, threshold }),
    {
        Scaling { factor, threshold }
    }
}

/// Lets a particle float with a random drift. Bias is in milli-units from
/// -1000 to 1000 on each axis. Carried as data; no system drives it yet.
#[derive(Debug, Clone, Copy)]
pub struct Wandering {
    pub bias: (i32, i32),
    pub strength: i32,
    pub resistance: i32,
}

/// A grid tile coordinate.
#[derive(Debug, Clone, Copy)]
pub struct Tile {
    pub pos: (i32, i32),
}

/// The floor sprite drawn at a tile, under everything else.
#[derive(Debug, Clone)]
pub struct Floor {
    pub schema: Arc<SpriteSchema>,
}

/// The wall sprite drawn at a tile, above the floor pass.
#[derive(Debug, Clone)]
pub struct Wall {
    pub schema: Arc<SpriteSchema>,
}

} // verus!
