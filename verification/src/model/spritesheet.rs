//! Immutable sprite-sheet schemas: the shared catalog of sprite and
//! animation definitions. A schema is built once at load time, validated,
//! and then only ever read; entities hold reference-counted handles into it.

use vstd::prelude::*;
use vstd::string::StringExecFns;
use std::sync::Arc;
use crate::error::EngineError;

verus! {

/// How an animation behaves when it reaches its final frame.
#[derive(Debug, Copy, Clone, PartialEq, Eq, Structural)]
pub enum AnimMode {
    /// Play to the end once, then mark the animation done.
    Once,
    /// Play to the end once and freeze on the final frame.
    OncePersist,
    /// Wrap back to frame zero and keep playing.
    Loop,
    /// Bounce between the first and final frames, forever.
    LoopReverse,
    /// Play to the end, play back to the start, then mark done.
    Reverse,
}

impl AnimMode {
    /// The least eventful mode, used where a layout names none.
    pub fn lowest() -> (r: Self)
        ensures
            r == AnimMode::OncePersist,
    {
        AnimMode::OncePersist
    }

    /// Whether the mode wraps around instead of stopping.
    pub open spec fn spec_loops(self) -> bool {
        self == AnimMode::Loop || self == AnimMode::LoopReverse
    }

    /// Whether the mode plays backwards after the final frame.
    pub open spec fn spec_reverses(self) -> bool {
        self == AnimMode::Reverse || self == AnimMode::LoopReverse
    }

    /// Executable form of [`Self::spec_loops`].
    pub fn loops(&self) -> (r: bool)
        ensures
            r == self.spec_loops(),
    {
        match self {
            AnimMode::Loop | AnimMode::LoopReverse => true,
            _ => false,
        }
    }

    /// Executable form of [`Self::spec_reverses`].
    pub fn reverses(&self) -> (r: bool)
        ensures
            r == self.spec_reverses(),
    {
        match self {
            AnimMode::Reverse | AnimMode::LoopReverse => true,
            _ => false,
        }
    }
}

/// A description of one sprite animation: a run of `frames` consecutive
/// tiles starting at `root`, shown for `frame_time` microseconds each.
#[derive(Debug, Copy, Clone)]
pub struct AnimationSchema {
    /// The atlas position of the animation's first tile.
    pub root: u32,
    /// The number of unique tiles in the animation.
    pub frames: u8,
    /// What happens at the final frame.
    pub mode: AnimMode,
    /// Microseconds between frames.
    pub frame_time: u32,
}

impl AnimationSchema {
    /// A schema the animation engine can run: at least one frame, a
    /// positive frame time, at least two frames when playback reverses
    /// (a single-frame bounce would never consume its step), and a root
    /// that fits the 255-by-255-tile atlas bound.
    pub open spec fn wf(self) -> bool {
        &&& self.frames >= 1
        &&& self.frame_time >= 1
        &&& self.mode.spec_reverses() ==> self.frames >= 2
        &&& self.root <= 0xFFFF
    }

    /// What "same animation" means: timing changes alone do not make a
    /// different animation.
    pub open spec fn same_animation(self, other: AnimationSchema) -> bool {
        self.root == other.root && self.frames == other.frames && self.mode == other.mode
    }
}

impl PartialEq for AnimationSchema {
    /// Equality ignores `frame_time`: it is used to detect "the animation
    /// changed" without a deep comparison.
    fn eq(&self, other: &Self) -> (r: bool) {
        self.root == other.root && self.frames == other.frames && self.mode == other.mode
    }
}

impl vstd::std_specs::cmp::PartialEqSpecImpl for AnimationSchema {
    open spec fn obeys_eq_spec() -> bool {
        true
    }

    open spec fn eq_spec(&self, other: &Self) -> bool {
        self.same_animation(*other)
    }
}

/// A description of one sprite: its root tile, its footprint in tiles,
/// named palette/skin variants, and named animations.
#[derive(Debug)]
pub struct SpriteSchema {
    /// The bottom-left single tile of the sprite.
    pub root: u32,
    /// Named variants of the sprite, e.g. brick, mossy brick, cracked brick.
    pub variants: Vec<(String, Arc<SpriteSchema>)>,
    /// How many tiles the sprite spans in each direction from its root.
    pub dimensions: (u8, u8),
    /// The animations this sprite can play, by name.
    pub animations: Vec<(String, Arc<AnimationSchema>)>,
}

/// First-match lookup in an association list, the shape shared by the
/// sprite, variant and animation catalogs.
pub open spec fn assoc_find<T>(entries: Seq<(String, T)>, name: Seq<char>) -> Option<T>
    decreases entries.len(),
{
    if entries.len() == 0 {
        None
    } else if entries[0].0@ == name {
        Some(entries[0].1)
    } else {
        assoc_find(entries.subrange(1, entries.len() as int), name)
    }
}

/// If no entry among the first `i` matches, the search result over the
/// whole list equals the result over the remaining suffix.
pub proof fn lemma_assoc_find_skip<T>(entries: Seq<(String, T)>, name: Seq<char>, i: int)
    requires
        0 <= i < entries.len(),
        entries[i].0@ != name,
    ensures
        assoc_find(entries.subrange(i, entries.len() as int), name) == assoc_find(
            entries.subrange(i + 1, entries.len() as int),
            name,
        ),
{
    let suffix = entries.subrange(i, entries.len() as int);
    assert(suffix[0] == entries[i]);
    assert(suffix.subrange(1, suffix.len() as int) =~= entries.subrange(
        i + 1,
        entries.len() as int,
    ));
}

impl SpriteSchema {
    /// A schema the engine can use: a footprint of 1 to 15 tiles on each
    /// axis (the draw record packs each extent into four bits), every
    /// animation well formed, and every variant well formed in turn.
    pub open spec fn wf(self) -> bool
        decreases self,
    {
        &&& self.root <= 0xFFFF
        &&& 1 <= self.dimensions.0 <= 15
        &&& 1 <= self.dimensions.1 <= 15
        &&& forall|i: int|
            0 <= i < self.animations@.len() ==> (*#[trigger] self.animations@[i].1).wf()
        &&& forall|i: int|
            0 <= i < self.variants@.len() ==> (*#[trigger] self.variants@[i].1).wf()
    }

    /// Checks [`Self::wf`] over the whole schema tree.
    pub fn is_wf(&self) -> (r: bool)
        ensures
            r == self.wf(),
        decreases *self,
    {
        if self.root > 0xFFFF || self.dimensions.0 < 1 || self.dimensions.0 > 15
            || self.dimensions.1 < 1 || self.dimensions.1 > 15 {
            return false;
        }
        let n_anims = self.animations.len();
        let mut i: usize = 0;
        while i < n_anims
            invariant
                0 <= i <= n_anims,
                n_anims == self.animations@.len(),
                forall|j: int| 0 <= j < i ==> (*#[trigger] self.animations@[j].1).wf(),
            decreases n_anims - i,
        {
            let a = &self.animations[i].1;
            if !(a.frames >= 1 && a.frame_time >= 1 && (!a.mode.reverses() || a.frames >= 2)
                && a.root <= 0xFFFF) {
                return false;
            }
            i = i + 1;
        }
        let n_vars = self.variants.len();
        let mut k: usize = 0;
        while k < n_vars
            invariant
                0 <= k <= n_vars,
                n_vars == self.variants@.len(),
                forall|j: int| 0 <= j < k ==> (*#[trigger] self.variants@[j].1).wf(),
            decreases n_vars - k,
        {
            if !self.variants[k].1.is_wf() {
                return false;
            }
            k = k + 1;
        }
        true
    }

    /// Looks up an animation by name; a miss is an ordinary outcome the
    /// caller degrades on, never an error.
    pub fn animation(&self, name: &str) -> (r: Option<&Arc<AnimationSchema>>)
        ensures
            match r {
                Some(a) => assoc_find(self.animations@, name@) == Some(*a),
                None => assoc_find(self.animations@, name@) is None,
            },
    {
        assoc_get(&self.animations, name)
    }

    /// Looks up a named variant of this sprite.
    pub fn variant(&self, name: &str) -> (r: Option<&Arc<SpriteSchema>>)
        ensures
            match r {
                Some(v) => assoc_find(self.variants@, name@) == Some(*v),
                None => assoc_find(self.variants@, name@) is None,
            },
    {
        assoc_get(&self.variants, name)
    }
}

/// First-match search through a name-keyed catalog.
fn assoc_get<'a, T>(entries: &'a Vec<(String, T)>, name: &str) -> (r: Option<&'a T>)
    ensures
        match r {
            Some(v) => assoc_find(entries@, name@) == Some(*v),
            None => assoc_find(entries@, name@) is None,
        },
{
    let key = String::from_str(name);
    let n = entries.len();
    assert(entries@.subrange(0, n as int) =~= entries@);
    let mut i: usize = 0;
    while i < n
        invariant
            0 <= i <= n,
            n == entries@.len(),
            key@ == name@,
            assoc_find(entries@, name@) == assoc_find(entries@.subrange(i as int, n as int), name@),
        decreases n - i,
    {
        if entries[i].0 == key {
            assert(assoc_find(entries@.subrange(i as int, n as int), name@) == Some(
                entries@[i as int].1,
            ));
            return Some(&entries[i].1);
        }
        proof {
            lemma_assoc_find_skip(entries@, name@, i as int);
        }
        i = i + 1;
    }
    assert(entries@.subrange(n as int, n as int) =~= Seq::<(String, T)>::empty());
    None
}

/// A sprite sheet: the process-wide immutable catalog of sprite schemas,
/// together with the atlas geometry. At most 255 tiles fit in a row.
#[derive(Debug)]
pub struct SpriteSheet {
    /// Pixel width of the sprite-sheet image.
    pub sheet_width: u32,
    /// Pixel width of a single sprite tile.
    pub tile_width: u32,
    /// All the sprite definitions, by name.
    pub sprites: Vec<(String, Arc<SpriteSchema>)>,
}

impl SpriteSheet {
    /// A catalog the engine can run on: the atlas row fits in 255 tiles and
    /// every schema in it is well formed.
    pub open spec fn wf(self) -> bool {
        &&& self.tile_width >= 1
        &&& self.sheet_width as int / self.tile_width as int <= 255
        &&& forall|i: int| 0 <= i < self.sprites@.len() ==> (*#[trigger] self.sprites@[i].1).wf()
    }

    /// Builds the catalog from already-deserialized parts, validating it.
    /// Fails exactly on a row wider than 255 tiles (`SheetSizeError`) or on
    /// a schema the animation engine could not run (`SchemaError`).
    pub fn new(sheet_width: u32, tile_width: u32, sprites: Vec<(String, Arc<SpriteSchema>)>) -> (r:
        Result<SpriteSheet, EngineError>)
        requires
            tile_width >= 1,
        ensures
            match r {
                Ok(sheet) => {
                    &&& sheet.sheet_width == sheet_width
                    &&& sheet.tile_width == tile_width
                    &&& sheet.sprites@ == sprites@
                    &&& sheet.wf()
                },
                Err(EngineError::SheetSizeError(_)) => sheet_width as int / tile_width as int
                    > 255,
                Err(EngineError::SchemaError(_)) => {
                    &&& sheet_width as int / tile_width as int <= 255
                    &&& exists|i: int|
                        0 <= i < sprites@.len() && !(*#[trigger] sprites@[i].1).wf()
                },
                Err(_) => false,
            },
            r is Ok <==> (sheet_width as int / tile_width as int <= 255 && forall|i: int|
                0 <= i < sprites@.len() ==> (*#[trigger] sprites@[i].1).wf()),
    {
        if sheet_width / tile_width > 255 {
            return Err(EngineError::SheetSizeError(String::from_str(
                "Maximum tiles per row is 255",
            )));
        }
        let n = sprites.len();
        let mut i: usize = 0;
        while i < n
            invariant
                0 <= i <= n,
                n == sprites@.len(),
                sheet_width as int / tile_width as int <= 255,
                forall|j: int| 0 <= j < i ==> (*#[trigger] sprites@[j].1).wf(),
            decreases n - i,
        {
            if !sprites[i].1.is_wf() {
                assert(i < sprites@.len() && !(*sprites@[i as int].1).wf());
                return Err(EngineError::SchemaError(String::from_str(
                    "sprite schema is not well formed",
                )));
            }
            i = i + 1;
        }
        Ok(SpriteSheet { sheet_width, tile_width, sprites })
    }

    /// Looks up a sprite schema by name.
    pub fn sprite(&self, name: &str) -> (r: Option<&Arc<SpriteSchema>>)
        ensures
            match r {
                Some(v) => assoc_find(self.sprites@, name@) == Some(*v),
                None => assoc_find(self.sprites@, name@) is None,
            },
    {
        assoc_get(&self.sprites, name)
    }
}

} // verus!
