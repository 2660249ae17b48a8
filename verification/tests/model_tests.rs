//! The sprite-sheet catalog: validation, lookup, schema equality, and the
//! geometry helpers.

use std::sync::Arc;
use stoneng::Config;
use stoneng::error::EngineError;
use stoneng::model::Rect;
use stoneng::model::spritesheet::{AnimMode, AnimationSchema, SpriteSchema, SpriteSheet};

fn plain_schema(root: u32) -> Arc<SpriteSchema> {
    Arc::new(SpriteSchema {
        root,
        variants: Vec::new(),
        dimensions: (1, 1),
        animations: Vec::new(),
    })
}

#[test]
fn sheet_accepts_a_valid_layout() {
    let sheet = SpriteSheet::new(
        256,
        32,
        vec![(String::from("grass"), plain_schema(0)), (String::from("arch"), plain_schema(9))],
    )
    .unwrap();
    assert_eq!(sheet.sheet_width, 256);
    assert_eq!(sheet.tile_width, 32);
    assert_eq!(sheet.sprite("arch").unwrap().root, 9);
    assert!(sheet.sprite("water").is_none());
}

#[test]
fn sheet_rejects_rows_wider_than_255_tiles() {
    let r = SpriteSheet::new(8192, 32, Vec::new());
    assert!(matches!(r, Err(EngineError::SheetSizeError(_))));
}

#[test]
fn sheet_rejects_an_unrunnable_animation() {
    // A reversing animation with a single frame can never consume a step.
    let bad = Arc::new(SpriteSchema {
        root: 0,
        variants: Vec::new(),
        dimensions: (1, 1),
        animations: vec![(
            String::from("bounce"),
            Arc::new(AnimationSchema { root: 0, frames: 1, mode: AnimMode::LoopReverse, frame_time: 100 }),
        )],
    });
    let r = SpriteSheet::new(256, 32, vec![(String::from("bad"), bad)]);
    assert!(matches!(r, Err(EngineError::SchemaError(_))));
}

#[test]
fn sheet_rejects_a_zero_frame_time() {
    let bad = Arc::new(SpriteSchema {
        root: 0,
        variants: Vec::new(),
        dimensions: (1, 1),
        animations: vec![(
            String::from("idle"),
            Arc::new(AnimationSchema { root: 0, frames: 3, mode: AnimMode::Loop, frame_time: 0 }),
        )],
    });
    let r = SpriteSheet::new(256, 32, vec![(String::from("bad"), bad)]);
    assert!(matches!(r, Err(EngineError::SchemaError(_))));
}

#[test]
fn sheet_rejects_an_oversized_footprint() {
    // The draw record packs each extent into four bits: 16 tiles do not fit.
    let big = Arc::new(SpriteSchema {
        root: 0,
        variants: Vec::new(),
        dimensions: (16, 1),
        animations: Vec::new(),
    });
    let r = SpriteSheet::new(256, 32, vec![(String::from("big"), big)]);
    assert!(matches!(r, Err(EngineError::SchemaError(_))));
}

#[test]
fn variant_lookup_walks_the_tree() {
    let mossy = plain_schema(12);
    let brick = Arc::new(SpriteSchema {
        root: 11,
        variants: vec![(String::from("mossy"), mossy)],
        dimensions: (2, 2),
        animations: Vec::new(),
    });
    assert_eq!(brick.variant("mossy").unwrap().root, 12);
    assert!(brick.variant("cracked").is_none());
}

#[test]
fn animation_equality_ignores_frame_time() {
    let a = AnimationSchema { root: 3, frames: 4, mode: AnimMode::Loop, frame_time: 100 };
    let b = AnimationSchema { root: 3, frames: 4, mode: AnimMode::Loop, frame_time: 999 };
    let c = AnimationSchema { root: 3, frames: 5, mode: AnimMode::Loop, frame_time: 100 };
    assert!(a == b);
    assert!(a != c);
}

#[test]
fn lowest_mode_is_once_persist() {
    assert_eq!(AnimMode::lowest(), AnimMode::OncePersist);
}

#[test]
fn rect_overlap_is_strict() {
    let a = Rect::new((0, 10), (10, 0));
    let touching = Rect::new((10, 10), (20, 0));
    let overlapping = Rect::new((9, 10), (19, 0));
    assert!(!a.intersects(&touching));
    assert!(a.intersects(&overlapping));
    assert!(overlapping.intersects(&a));
}

#[test]
fn default_config_matches_the_stock_window() {
    let c = Config::default();
    assert_eq!(c.dimensions, (800, 600));
    assert_eq!(c.frame_cap, 100);
    assert_eq!(c.opengl_version, (4, 2));
    assert!(!c.fullscreen);
    assert!(!c.resizable);
    assert_eq!(c.title, String::from("StoneEng"));
    // 100 frames per second pace to a 10 ms budget.
    assert_eq!(c.frame_time_micros(), 10_000);
    let mut uncapped = Config::default();
    uncapped.frame_cap = 0;
    assert_eq!(uncapped.frame_time_micros(), 0);
}
