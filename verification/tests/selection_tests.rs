//! Animation selection by name: idempotent re-selection, graceful lookup
//! misses, and the per-entity errors.

use std::sync::Arc;
use stoneng::ecs::component::{Animation, Sprite};
use stoneng::ecs::system::sprite::AnimSpriteSys;
use stoneng::ecs::world::World;
use stoneng::error::EngineError;
use stoneng::model::spritesheet::{AnimMode, AnimationSchema, SpriteSchema};

fn anim_schema(root: u32, frames: u8, mode: AnimMode, frame_time: u32) -> Arc<AnimationSchema> {
    Arc::new(AnimationSchema { root, frames, mode, frame_time })
}

fn walker_schema() -> Arc<SpriteSchema> {
    Arc::new(SpriteSchema {
        root: 5,
        variants: Vec::new(),
        dimensions: (1, 1),
        animations: vec![
            (String::from("idle"), anim_schema(5, 2, AnimMode::Loop, 400)),
            (String::from("walk"), anim_schema(10, 4, AnimMode::Loop, 200)),
        ],
    })
}

#[test]
fn reselecting_same_animation_is_a_no_op() {
    let mut world = World::new();
    let e = world.create_entity();
    world.sprites.insert(e, Sprite::from_schema(walker_schema()));
    world.animations.insert(e, Animation::from_schema(None));

    AnimSpriteSys::entity_to_anim(&e, "walk", &mut world).unwrap();
    // Advance part-way into the animation by hand, then re-request it.
    {
        let a = world.animations.get(e).unwrap();
        assert_eq!(a.frame, 0);
    }
    let mut mid = world.animations.get(e).unwrap().duplicate();
    mid.frame = 2;
    mid.frame_progress = 77;
    mid.is_reversing = false;
    world.animations.insert(e, mid);

    AnimSpriteSys::entity_to_anim(&e, "walk", &mut world).unwrap();
    let after_first = world.animations.get(e).unwrap().duplicate();
    assert_eq!(after_first.frame, 2);
    assert_eq!(after_first.frame_progress, 77);

    AnimSpriteSys::entity_to_anim(&e, "walk", &mut world).unwrap();
    let after_second = world.animations.get(e).unwrap();
    assert_eq!(after_second.frame, 2);
    assert_eq!(after_second.frame_progress, 77);
    assert!(!after_second.is_reversing);
}

#[test]
fn selecting_a_different_animation_restarts_playback() {
    let mut world = World::new();
    let e = world.create_entity();
    world.sprites.insert(e, Sprite::from_schema(walker_schema()));
    let mut initial = Animation::from_name("idle", &Sprite::from_schema(walker_schema()));
    initial.frame = 1;
    initial.frame_progress = 123;
    world.animations.insert(e, initial);

    AnimSpriteSys::entity_to_anim(&e, "walk", &mut world).unwrap();
    let a = world.animations.get(e).unwrap();
    assert_eq!(a.frame, 0);
    assert_eq!(a.frame_progress, 0);
    assert!(!a.is_reversing);
    assert_eq!(a.schema.as_ref().unwrap().root, 10);
}

#[test]
fn unknown_name_keeps_current_state() {
    let mut world = World::new();
    let e = world.create_entity();
    world.sprites.insert(e, Sprite::from_schema(walker_schema()));
    let mut current = Animation::from_name("walk", &Sprite::from_schema(walker_schema()));
    current.frame = 3;
    world.animations.insert(e, current);

    AnimSpriteSys::entity_to_anim(&e, "no-such-animation", &mut world).unwrap();
    let a = world.animations.get(e).unwrap();
    assert_eq!(a.frame, 3);
    assert_eq!(a.schema.as_ref().unwrap().root, 10);
}

#[test]
fn lookup_miss_is_not_an_error() {
    let mut world = World::new();
    let e = world.create_entity();
    world.sprites.insert(e, Sprite::from_schema(walker_schema()));
    world.animations.insert(e, Animation::from_schema(None));
    assert!(AnimSpriteSys::entity_to_anim(&e, "no-such-animation", &mut world).is_ok());
    assert!(world.animations.get(e).unwrap().schema.is_none());
}

#[test]
fn missing_sprite_component_is_an_error() {
    let mut world = World::new();
    let e = world.create_entity();
    world.animations.insert(e, Animation::from_schema(None));
    let r = AnimSpriteSys::entity_to_anim(&e, "walk", &mut world);
    assert!(matches!(r, Err(EngineError::AnimationError(_))));
}

#[test]
fn missing_animation_component_is_an_error() {
    let mut world = World::new();
    let e = world.create_entity();
    world.sprites.insert(e, Sprite::from_schema(walker_schema()));
    let r = AnimSpriteSys::entity_to_anim(&e, "walk", &mut world);
    assert!(matches!(r, Err(EngineError::AnimationError(_))));
}

#[test]
fn from_name_miss_yields_static_state() {
    let sprite = Sprite::from_schema(walker_schema());
    let a = Animation::from_name("sprint", &sprite);
    assert!(a.schema.is_none());
    assert_eq!(a.frame, 0);
    let b = Animation::from_name("walk", &sprite);
    assert_eq!(b.schema.unwrap().root, 10);
}
