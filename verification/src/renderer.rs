//! Plain draw records: the fixed-layout values the render-data extraction
//! passes produce, one per visible entity, handed to the GPU back end as
//! an opaque buffer. The core knows nothing of buffer layout beyond
//! producing one record per entity in a stable field order.

use vstd::prelude::*;

verus! {

/// Flags that modify how the renderer treats a sprite record.
#[derive(Debug, Clone, Copy, PartialEq, Eq, Structural)]
pub enum SpriteFlag {
    /// Have the renderer animate the sprite.
    Animated,
    /// Loop the sprite's animation on completion.
    Looping,
    /// Reverse the animation at the end.
    Reverse,
    /// The sprite is currently playing in reverse; can be used mid
    /// animation to cancel with a rewind.
    Reversing,
}

impl SpriteFlag {
    /// The flag's bit within a record's flag byte.
    pub open spec fn spec_mask(self) -> u8 {
        match self {
            SpriteFlag::Animated => 1,
            SpriteFlag::Looping => 2,
            SpriteFlag::Reverse => 4,
            SpriteFlag::Reversing => 64,
        }
    }

    /// Executable form of [`Self::spec_mask`].
    pub fn mask(&self) -> (r: u8)
        ensures
            r == self.spec_mask(),
    {
        match self {
            SpriteFlag::Animated => 1,
            SpriteFlag::Looping => 2,
            SpriteFlag::Reverse => 4,
            SpriteFlag::Reversing => 64,
        }
    }
}

/// One sprite draw record. Coordinates are world milli-units, scales are
/// milli-units, color channels 0 to 255.
#[derive(Debug, Clone, Copy, PartialEq, Eq)]
pub struct RenderSprite {
    pub translation: (i64, i64, i64),
    pub scale: (i32, i32),
    pub rotation: i32,
    pub color: (u8, u8, u8, u8),
    /// The resolved atlas tile to draw.
    pub sprite_id: u32,
    /// The sprite's tile footprint, packed as two 4-bit extents with x in
    /// the low bits.
    pub sprite_dims: u8,
    /// Flag bits; see [`SpriteFlag`].
    pub sprite_flags: u8,
    pub reserved: u8,
}

impl RenderSprite {
    pub fn new(
        translation: (i64, i64, i64),
        scale: (i32, i32),
        rotation: i32,
        color: (u8, u8, u8, u8),
        dims: (u8, u8),
        sprite_id: u32,
    ) -> (r: RenderSprite)
        requires
            1 <= dims.0 <= 16,
            1 <= dims.1 <= 16,
        ensures
            r == (RenderSprite {
                translation,
                scale,
                rotation,
                color,
                sprite_id,
                sprite_dims: ((dims.1 - 1) * 16 + (dims.0 - 1)) as u8,
                sprite_flags: 0u8,
                reserved: 0u8,
            }),
    {
        RenderSprite {
            translation,
            scale,
            rotation,
            color,
            sprite_id,
            sprite_dims: (dims.1 - 1) * 16 + (dims.0 - 1),
            sprite_flags: 0,
            reserved: 0,
        }
    }

    /// Whether the record carries the given flag.
    pub fn check_flag(&self, flag: SpriteFlag) -> (r: bool)
        ensures
            r == (self.sprite_flags & flag.spec_mask() != 0),
    {
        self.sprite_flags & flag.mask() != 0
    }

    /// Sets or clears one flag bit, leaving the others alone.
    pub fn set_flag(&mut self, flag: SpriteFlag, state: bool)
        ensures
            final(self).sprite_flags == if state {
                old(self).sprite_flags | flag.spec_mask()
            } else {
                old(self).sprite_flags & !flag.spec_mask()
            },
            *final(self) == (RenderSprite { sprite_flags: final(self).sprite_flags, ..*old(self) }),
    {
        if state {
            self.sprite_flags = self.sprite_flags | flag.mask();
        } else {
            self.sprite_flags = self.sprite_flags & !flag.mask();
        }
    }

    /// Changes the record's tile footprint: how many atlas tiles the
    /// sprite spans on each axis, not its drawn size.
    pub fn redimension(&mut self, dims: (u8, u8))
        requires
            1 <= dims.0 <= 16,
            1 <= dims.1 <= 16,
        ensures
            final(self).sprite_dims == (dims.1 - 1) * 16 + (dims.0 - 1),
            *final(self) == (RenderSprite { sprite_dims: final(self).sprite_dims, ..*old(self) }),
    {
        self.sprite_dims = (dims.1 - 1) * 16 + (dims.0 - 1);
    }
}

impl Default for RenderSprite {
    /// A unit record: origin, natural scale, no rotation, white, tile 0.
    fn default() -> (r: RenderSprite)
        ensures
            r == (RenderSprite {
                translation: (0i64, 0i64, 0i64),
                scale: (1000i32, 1000i32),
                rotation: 0i32,
                color: (255u8, 255u8, 255u8, 255u8),
                sprite_id: 0u32,
                sprite_dims: 0u8,
                sprite_flags: 0u8,
                reserved: 0u8,
            }),
    {
        RenderSprite {
            translation: (0, 0, 0),
            scale: (1000, 1000),
            rotation: 0,
            color: (255, 255, 255, 255),
            sprite_id: 0,
            sprite_dims: 0,
            sprite_flags: 0,
            reserved: 0,
        }
    }
}

/// One point-light draw record.
#[derive(Debug, Clone, Copy, PartialEq, Eq)]
pub struct RenderLight {
    pub pos: (i64, i64),
    pub intensity: i64,
}

/// One text-label draw record.
#[derive(Debug)]
pub struct RenderString {
    pub position: (i64, i64, i64),
    pub size: i32,
    pub color: (u8, u8, u8, u8),
    pub text: String,
}

} // verus!
