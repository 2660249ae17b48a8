//! The animation state machine under each playback mode, time-accumulator
//! conservation, and the bounded-work short-circuit.

use std::sync::Arc;
use stoneng::ecs::component::{Animation, Sprite};
use stoneng::ecs::system::sprite::AnimSpriteSys;
use stoneng::model::spritesheet::{AnimMode, AnimationSchema, SpriteSchema};

fn anim_schema(root: u32, frames: u8, mode: AnimMode, frame_time: u32) -> Arc<AnimationSchema> {
    Arc::new(AnimationSchema { root, frames, mode, frame_time })
}

fn bare_sprite(root: u32) -> Sprite {
    Sprite::from_schema(Arc::new(SpriteSchema {
        root,
        variants: Vec::new(),
        dimensions: (1, 1),
        animations: Vec::new(),
    }))
}

/// Drives one animation with a constant delta and returns the frame after
/// each tick.
fn frame_sequence(mode: AnimMode, frames: u8, dt: u32, ticks: usize) -> (Vec<u8>, Vec<bool>) {
    let schema = anim_schema(40, frames, mode, 1000);
    let mut sprite = bare_sprite(7);
    let mut anim = Animation::from_schema(Some(schema));
    let mut seen = Vec::new();
    let mut done = Vec::new();
    for _ in 0..ticks {
        AnimSpriteSys::advance_animation(&mut sprite, &mut anim, dt);
        seen.push(anim.frame);
        done.push(anim.is_done);
    }
    (seen, done)
}

#[test]
fn loop_mode_cycles_through_frames() {
    let (frames, done) = frame_sequence(AnimMode::Loop, 3, 1000, 7);
    assert_eq!(frames, vec![1, 2, 0, 1, 2, 0, 1]);
    assert!(done.iter().all(|d| !d));
}

#[test]
fn once_mode_stops_on_last_frame_and_marks_done() {
    let (frames, done) = frame_sequence(AnimMode::Once, 3, 1000, 4);
    assert_eq!(frames, vec![1, 2, 2, 2]);
    assert_eq!(done, vec![false, false, true, true]);
}

#[test]
fn once_persist_freezes_without_done() {
    let (frames, done) = frame_sequence(AnimMode::OncePersist, 3, 1000, 5);
    assert_eq!(frames, vec![1, 2, 2, 2, 2]);
    assert!(done.iter().all(|d| !d));
}

#[test]
fn reverse_mode_plays_back_then_finishes() {
    let (frames, done) = frame_sequence(AnimMode::Reverse, 3, 1000, 6);
    assert_eq!(frames, vec![1, 2, 1, 0, 0, 0]);
    assert_eq!(done, vec![false, false, false, false, true, true]);
}

#[test]
fn loop_reverse_mode_bounces_forever() {
    let (frames, done) = frame_sequence(AnimMode::LoopReverse, 3, 1000, 9);
    assert_eq!(frames, vec![1, 2, 1, 0, 1, 2, 1, 0, 1]);
    assert!(done.iter().all(|d| !d));
}

#[test]
fn fractional_progress_conserves_time() {
    // Frame time 300 us; irregular deltas. The whole frames advanced must
    // equal floor(sum / 300) with no drift from fractional accumulation.
    let deltas: [u32; 8] = [100, 100, 100, 250, 50, 299, 1, 500];
    let schema = anim_schema(0, 255, AnimMode::Loop, 300);
    let mut sprite = bare_sprite(0);
    let mut anim = Animation::from_schema(Some(schema));
    let mut sum: u64 = 0;
    for dt in deltas {
        AnimSpriteSys::advance_animation(&mut sprite, &mut anim, dt);
        sum += dt as u64;
        // 255 frames and few ticks: the frame count is exactly the whole
        // frame total, and the accumulator holds exactly the remainder.
        assert_eq!(anim.frame as u64, sum / 300);
        assert_eq!(anim.frame_progress as u64, sum % 300);
    }
}

#[test]
fn oversized_tick_short_circuits() {
    // 1 us per frame and a 10 ms tick implies 10000 whole frames: far over
    // 255, so the step discards the excess instead of looping: the frame
    // state is unchanged and the sprite is pinned to root + frame.
    let schema = anim_schema(40, 10, AnimMode::Loop, 1);
    let mut sprite = bare_sprite(7);
    let mut anim = Animation::from_schema(Some(schema));
    AnimSpriteSys::advance_animation(&mut sprite, &mut anim, 3000);
    anim.frame = 4;
    AnimSpriteSys::advance_animation(&mut sprite, &mut anim, 10_000);
    assert_eq!(anim.frame, 4);
    assert!(!anim.is_done);
    assert!(!anim.is_reversing);
    assert_eq!(sprite.id_offset, 44);
}

#[test]
fn static_animation_is_untouched() {
    let mut sprite = bare_sprite(7);
    sprite.id_offset = 3;
    let mut anim = Animation::from_schema(None);
    AnimSpriteSys::advance_animation(&mut sprite, &mut anim, 5000);
    assert_eq!(anim.frame, 0);
    assert_eq!(anim.frame_progress, 0);
    assert_eq!(sprite.id_offset, 3);
}

#[test]
fn idle_retarget_resets_playback() {
    let idle = anim_schema(9, 2, AnimMode::Loop, 500);
    let sheet_sprite = Sprite::from_schema(Arc::new(SpriteSchema {
        root: 9,
        variants: Vec::new(),
        dimensions: (1, 1),
        animations: vec![(String::from("idle"), idle)],
    }));
    let walk = anim_schema(20, 4, AnimMode::Loop, 250);
    let mut anim = Animation::from_schema(Some(walk));
    anim.frame = 3;
    anim.frame_progress = 120;
    anim.is_reversing = true;
    AnimSpriteSys::sprite_to_idle(&sheet_sprite, &mut anim);
    assert_eq!(anim.frame, 0);
    assert_eq!(anim.frame_progress, 0);
    assert!(!anim.is_reversing);
    let schema = anim.schema.expect("idle animation should be found");
    assert_eq!(schema.root, 9);
    assert_eq!(schema.frames, 2);
}

#[test]
fn missing_idle_leaves_sprite_static() {
    let sheet_sprite = bare_sprite(9);
    let walk = anim_schema(20, 4, AnimMode::Loop, 250);
    let mut anim = Animation::from_schema(Some(walk));
    AnimSpriteSys::sprite_to_idle(&sheet_sprite, &mut anim);
    assert!(anim.schema.is_none());
}
