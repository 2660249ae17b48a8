//! Direction classification at the canonical angles, animation naming, and
//! the two controllers.

use std::sync::Arc;
use stoneng::animation::{PlayerAnim, PlayerDirection, PlayerState};
use stoneng::audio::{AudioEngine, AudioRequest, AudioType};
use stoneng::controller::{MovementDirection, MovementType, PlayerController};
use stoneng::ecs::component::{Animation, Scale, Sprite, Velocity};
use stoneng::ecs::world::World;
use stoneng::model::spritesheet::{AnimMode, AnimationSchema, SpriteSchema};
use stoneng::player;

#[test]
fn canonical_angles_classify_exactly() {
    // 0, 45, 90, 135 and 180 degrees, as unit vectors in milli-units.
    assert_eq!(PlayerDirection::from_vector(1000, 0), PlayerDirection::Side);
    assert_eq!(PlayerDirection::from_vector(707, 707), PlayerDirection::DiagUp);
    assert_eq!(PlayerDirection::from_vector(0, 1000), PlayerDirection::Up);
    // 135 degrees mirrors onto the diagonal-up animation: left and right
    // share a sprite, flipped horizontally.
    assert_eq!(PlayerDirection::from_vector(-707, 707), PlayerDirection::DiagUp);
    assert_eq!(PlayerDirection::from_vector(-1000, 0), PlayerDirection::Side);
    // Straight down, and the mirrored diagonal down.
    assert_eq!(PlayerDirection::from_vector(0, -1000), PlayerDirection::Down);
    assert_eq!(PlayerDirection::from_vector(-707, -707), PlayerDirection::DiagDown);
}

#[test]
fn player_anim_names_join_state_and_direction() {
    let walk_side = PlayerAnim { state: PlayerState::Walking, direction: PlayerDirection::Side };
    assert_eq!(walk_side.name(), String::from("walk-side"));
    let idle_up = PlayerAnim { state: PlayerState::Idle, direction: PlayerDirection::Up };
    assert_eq!(idle_up.name(), String::from("idle-up"));
}

#[test]
fn instant_controller_sets_velocity_from_keys() {
    let mut world = World::new();
    let player = world.create_entity();
    world.velocities.insert(player, Velocity::new(0, 0));
    let mut c = PlayerController::new(player, MovementType::Instant(250_000));

    c.update_move_input(MovementDirection::Up, true);
    c.tick(16_000, &mut world);
    assert_eq!(world.velocities.get(player), Some(&Velocity::new(0, 250_000)));

    // A diagonal: 707/1000 of the top speed on each axis.
    c.update_move_input(MovementDirection::Right, true);
    c.tick(16_000, &mut world);
    assert_eq!(world.velocities.get(player), Some(&Velocity::new(176_750, 176_750)));

    // Releasing both keys stops the player.
    c.update_move_input(MovementDirection::Up, false);
    c.update_move_input(MovementDirection::Right, false);
    c.tick(16_000, &mut world);
    assert_eq!(world.velocities.get(player), Some(&Velocity::new(0, 0)));
}

#[test]
fn repeated_key_reports_are_ignored() {
    let player = stoneng::ecs::Entity { id: 0 };
    let mut c = PlayerController::new(player, MovementType::Instant(1000));
    c.update_move_input(MovementDirection::Left, true);
    let before = c.move_vec();
    c.update_move_input(MovementDirection::Left, true);
    assert_eq!(c.move_vec(), before);
    assert_eq!(before, (-1000, 0));
}

fn walker_schema() -> Arc<SpriteSchema> {
    Arc::new(SpriteSchema {
        root: 5,
        variants: Vec::new(),
        dimensions: (1, 1),
        animations: vec![
            (
                String::from("walk-up"),
                Arc::new(AnimationSchema { root: 30, frames: 4, mode: AnimMode::Loop, frame_time: 200 }),
            ),
            (
                String::from("walk-side"),
                Arc::new(AnimationSchema { root: 40, frames: 4, mode: AnimMode::Loop, frame_time: 200 }),
            ),
        ],
    })
}

#[test]
fn key_input_selects_animation_and_flips_sprite() {
    let mut world = World::new();
    let e = world.create_entity();
    world.scales.insert(e, Scale::new(1000, 1000));
    world.sprites.insert(e, Sprite::from_schema(walker_schema()));
    world.animations.insert(e, Animation::from_schema(None));

    let mut c = player::PlayerController::new(player::PlayerEntity::new(e, 300_000, 4000, 10_000));

    c.set_move_input(player::MoveDir::Up, true, &mut world);
    assert_eq!(world.animations.get(e).unwrap().schema.as_ref().unwrap().root, 30);
    assert_eq!(c.move_vec, (0, 1000));
    assert_eq!(world.scales.get(e).unwrap().x, 1000);

    // Moving left flips the right-facing sprite and picks the side walk.
    c.set_move_input(player::MoveDir::Up, false, &mut world);
    c.set_move_input(player::MoveDir::Left, true, &mut world);
    assert_eq!(world.animations.get(e).unwrap().schema.as_ref().unwrap().root, 40);
    assert_eq!(world.scales.get(e).unwrap().x, -1000);
    assert_eq!(c.move_vec, (-1000, 0));

    // Diagonal up has no entry in this sheet: the lookup miss changes
    // nothing and the side walk keeps playing.
    c.set_move_input(player::MoveDir::Up, true, &mut world);
    assert_eq!(world.animations.get(e).unwrap().schema.as_ref().unwrap().root, 40);
    assert_eq!(c.move_vec, (-707, 707));
}

#[test]
fn reselecting_the_playing_player_anim_is_a_no_op() {
    let mut world = World::new();
    let e = world.create_entity();
    world.sprites.insert(e, Sprite::from_schema(walker_schema()));
    world.animations.insert(e, Animation::from_schema(None));
    let mut c = player::PlayerController::new(player::PlayerEntity::new(e, 300_000, 4000, 10_000));

    c.select_anim(player::PlayerAnim::WalkSide, &mut world);
    let mut mid = world.animations.get(e).unwrap().duplicate();
    mid.frame = 2;
    mid.frame_progress = 55;
    world.animations.insert(e, mid);

    // The side walk is already playing: re-requesting it changes nothing.
    c.select_anim(player::PlayerAnim::WalkSide, &mut world);
    let a = world.animations.get(e).unwrap();
    assert_eq!(a.frame, 2);
    assert_eq!(a.frame_progress, 55);

    // A genuinely different animation restarts playback.
    c.select_anim(player::PlayerAnim::WalkUp, &mut world);
    let a = world.animations.get(e).unwrap();
    assert_eq!(a.frame, 0);
    assert_eq!(a.schema.as_ref().unwrap().root, 30);
}

#[test]
fn audio_volume_requests_mirror_state() {
    let mut audio = AudioEngine::new();
    assert_eq!(audio.get_volumes(), (1000, 1000));
    let r = audio.set_volume(AudioType::Music, 500);
    assert!(matches!(r, AudioRequest::MusicVolume(500)));
    let r = audio.set_volume(AudioType::Sfx, 250);
    assert!(matches!(r, AudioRequest::SfxVolume(250)));
    assert_eq!(audio.get_volumes(), (500, 250));
}
