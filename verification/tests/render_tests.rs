//! Draw records and the extraction passes: flag bits, footprint packing,
//! scaled lights, text offsets, and the terminal cleanup of finished
//! animations.

use std::sync::Arc;
use stoneng::animation::PlayerState;
use stoneng::ecs::component::{
    Animation, Color, Floor, PointLight, Position, Scale, Sprite, Text, Tile, Wall,
};
use stoneng::ecs::resource::DeltaTime;
use stoneng::ecs::system::light::LightRenderSys;
use stoneng::ecs::system::sprite::{AnimSpriteSys, SpriteRenderSys, TileRenderSys};
use stoneng::ecs::system::text::TextRenderSys;
use stoneng::ecs::world::World;
use stoneng::model::spritesheet::{AnimMode, AnimationSchema, SpriteSchema};
use stoneng::renderer::{RenderSprite, SpriteFlag};

#[test]
fn sprite_flags_set_and_clear_single_bits() {
    let mut r = RenderSprite::default();
    assert!(!r.check_flag(SpriteFlag::Animated));
    r.set_flag(SpriteFlag::Animated, true);
    r.set_flag(SpriteFlag::Reversing, true);
    assert!(r.check_flag(SpriteFlag::Animated));
    assert!(r.check_flag(SpriteFlag::Reversing));
    assert!(!r.check_flag(SpriteFlag::Looping));
    r.set_flag(SpriteFlag::Animated, false);
    assert!(!r.check_flag(SpriteFlag::Animated));
    assert!(r.check_flag(SpriteFlag::Reversing));
}

#[test]
fn redimension_packs_two_nibbles() {
    let mut r = RenderSprite::default();
    r.redimension((3, 2));
    // x - 1 in the low bits, y - 1 shifted high.
    assert_eq!(r.sprite_dims, (2 - 1) * 16 + (3 - 1));
}

#[test]
fn sprite_extraction_resolves_tile_and_footprint() {
    let mut world = World::new();
    let e = world.create_entity();
    world.positions.insert(e, Position { x: 10, y: 20, z: 30 });
    world.scales.insert(e, Scale::new(2000, 2000));
    world.colors.insert(e, Color { r: 1, g: 2, b: 3, a: 4 });
    let mut sprite = Sprite::from_schema(Arc::new(SpriteSchema {
        root: 100,
        variants: Vec::new(),
        dimensions: (2, 3),
        animations: Vec::new(),
    }));
    sprite.id_offset = 5;
    world.sprites.insert(e, sprite);

    let records = SpriteRenderSys::run(&world);
    assert_eq!(records.len(), 1);
    assert_eq!(records[0].translation, (10, 20, 30));
    assert_eq!(records[0].sprite_id, 105);
    assert_eq!(records[0].sprite_dims, 2 | (3 << 4));
    assert_eq!(records[0].color, (1, 2, 3, 4));
}

#[test]
fn scaled_light_brightens_with_the_larger_axis() {
    let mut world = World::new();
    let fixed = world.create_entity();
    world.positions.insert(fixed, Position { x: 1, y: 2, z: 0 });
    world.lights.insert(fixed, PointLight::new(700));
    let scaled = world.create_entity();
    world.positions.insert(scaled, Position { x: 3, y: 4, z: 0 });
    world.lights.insert(scaled, PointLight::new_scaled(700));
    world.scales.insert(scaled, Scale::new(2000, 5000));

    let records = LightRenderSys::run(&world);
    assert_eq!(records.len(), 2);
    assert_eq!(records[0].intensity, 700);
    // 700 * 5000 / 1000.
    assert_eq!(records[1].intensity, 3500);
    assert_eq!(records[1].pos, (3, 4));
}

#[test]
fn text_extraction_offsets_from_the_entity() {
    let mut world = World::new();
    let e = world.create_entity();
    world.positions.insert(e, Position { x: 100, y: 200, z: 5 });
    world.colors.insert(e, Color::default());
    world.texts.insert(e, Text::new(String::from("Bobert"), 2000, (-25, 45)));
    let records = TextRenderSys::run(&world);
    assert_eq!(records.len(), 1);
    assert_eq!(records[0].position, (75, 245, 5));
    assert_eq!(records[0].text, String::from("Bobert"));
}

#[test]
fn finished_once_animation_self_destructs_at_maintenance() {
    let mut world = World::new();
    let e = world.create_entity();
    let schema = Arc::new(SpriteSchema {
        root: 48,
        variants: Vec::new(),
        dimensions: (1, 1),
        animations: Vec::new(),
    });
    world.sprites.insert(e, Sprite::from_schema(schema));
    world.animations.insert(
        e,
        Animation::from_schema(Some(Arc::new(AnimationSchema {
            root: 48,
            frames: 2,
            mode: AnimMode::Once,
            frame_time: 1000,
        }))),
    );
    world.delta_time = DeltaTime(1000);

    AnimSpriteSys::run(&mut world);
    world.maintain();
    assert!(world.animations.get(e).is_some());
    AnimSpriteSys::run(&mut world);
    world.maintain();
    // The animation is done now but deletion is deferred to the next pass.
    assert!(world.animations.get(e).unwrap().is_done);
    AnimSpriteSys::run(&mut world);
    assert!(world.animations.get(e).is_some());
    world.maintain();
    assert!(world.animations.get(e).is_none());
    assert!(world.sprites.get(e).is_none());
}

#[test]
fn run_recomputes_the_drawn_tile_every_tick() {
    let mut world = World::new();
    let e = world.create_entity();
    let schema = Arc::new(SpriteSchema {
        root: 10,
        variants: Vec::new(),
        dimensions: (1, 1),
        animations: Vec::new(),
    });
    world.sprites.insert(e, Sprite::from_schema(schema));
    world.animations.insert(
        e,
        Animation::from_schema(Some(Arc::new(AnimationSchema {
            root: 30,
            frames: 4,
            mode: AnimMode::Loop,
            frame_time: 1000,
        }))),
    );
    world.delta_time = DeltaTime(2000);
    AnimSpriteSys::run(&mut world);
    // Two frames in: the drawn tile is the animation root plus frame two,
    // expressed as an offset from the sprite's own root.
    assert_eq!(world.animations.get(e).unwrap().frame, 2);
    assert_eq!(world.sprites.get(e).unwrap().id_offset, 30 + 2 - 10);
}

#[test]
fn tile_extraction_draws_floors_under_walls() {
    let mut world = World::new();
    let t = world.create_entity();
    let floor_schema = Arc::new(SpriteSchema {
        root: 1,
        variants: Vec::new(),
        dimensions: (1, 1),
        animations: Vec::new(),
    });
    let wall_schema = Arc::new(SpriteSchema {
        root: 2,
        variants: Vec::new(),
        dimensions: (1, 1),
        animations: Vec::new(),
    });
    world.tiles.insert(t, Tile { pos: (2, -3) });
    world.floors.insert(t, Floor { schema: floor_schema });
    world.walls.insert(t, Wall { schema: wall_schema });
    world.colors.insert(t, Color::default());

    let pass = TileRenderSys::default();
    let records = pass.run(&world);
    assert_eq!(records.len(), 2);
    // The floor pass comes first, deeper than the wall pass.
    assert_eq!(records[0].sprite_id, 1);
    assert_eq!(records[0].translation, (2 * 5000 * 10, -3 * 5000 * 10, -10100));
    assert_eq!(records[1].sprite_id, 2);
    assert_eq!(records[1].translation.2, -10000);
    assert_eq!(records[0].scale, (5000, 5000));
}

#[test]
fn speed_threshold_splits_idle_from_walking() {
    assert_eq!(PlayerState::from_speed(0, 0, 10_000), PlayerState::Idle);
    assert_eq!(PlayerState::from_speed(10_000, 0, 10_000), PlayerState::Idle);
    assert_eq!(PlayerState::from_speed(10_001, 0, 10_000), PlayerState::Walking);
    assert_eq!(PlayerState::from_speed(8000, 8000, 10_000), PlayerState::Walking);
}
