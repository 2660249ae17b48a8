//! Scheduler validation and the thread-affine barrier: conflicting
//! parallel systems are rejected at build time unless an edge orders them,
//! and render passes observe the state committed by the parallel passes.

use std::sync::Arc;
use stoneng::ecs::component::{Color, Position, Scale, Sprite, Velocity};
use stoneng::ecs::resource::DeltaTime;
use stoneng::ecs::scheduler::{DispatcherBuilder, DrawBatch, SystemDesc, SystemKind};
use stoneng::ecs::world::World;
use stoneng::error::EngineError;
use stoneng::model::spritesheet::SpriteSchema;

#[test]
fn conflicting_parallel_systems_are_rejected_at_setup() {
    // Velocity writes positions; collision reads them. With no dependency
    // edge the pair may run concurrently: a configuration error.
    let b = DispatcherBuilder::new()
        .with(SystemDesc::for_kind(1, SystemKind::Collision, false, Vec::new()))
        .with(SystemDesc::for_kind(2, SystemKind::Velocity, false, Vec::new()));
    match b.build() {
        Err(EngineError::ScheduleConflict(x, y)) => {
            assert_eq!((x, y), (1, 2));
        },
        _ => panic!("expected a schedule conflict"),
    }
}

#[test]
fn dependency_edge_makes_conflicting_pair_schedulable() {
    let b = DispatcherBuilder::new()
        .with(SystemDesc::for_kind(1, SystemKind::Collision, false, Vec::new()))
        .with(SystemDesc::for_kind(2, SystemKind::Velocity, false, vec![1]))
        .with(SystemDesc::for_kind(3, SystemKind::AnimSprite, false, Vec::new()));
    assert!(b.build().is_ok());
}

#[test]
fn disjoint_systems_need_no_edge() {
    let b = DispatcherBuilder::new()
        .with(SystemDesc::for_kind(1, SystemKind::Velocity, false, Vec::new()))
        .with(SystemDesc::for_kind(2, SystemKind::AnimSprite, false, Vec::new()));
    assert!(b.build().is_ok());
}

#[test]
fn render_pass_observes_committed_parallel_writes() {
    // Write-then-read marker: the velocity pass moves the entity; the
    // thread-affine sprite pass must extract the moved position.
    let mut world = World::new();
    let e = world.create_entity();
    world.positions.insert(e, Position { x: 0, y: 0, z: 0 });
    world.velocities.insert(e, Velocity::new(1000, 0));
    world.scales.insert(e, Scale::new(1000, 1000));
    world.colors.insert(e, Color::default());
    world.sprites.insert(
        e,
        Sprite::from_schema(Arc::new(SpriteSchema {
            root: 3,
            variants: Vec::new(),
            dimensions: (1, 1),
            animations: Vec::new(),
        })),
    );
    world.delta_time = DeltaTime(1_000_000);

    let d = DispatcherBuilder::new()
        .with(SystemDesc::for_kind(1, SystemKind::Velocity, false, Vec::new()))
        .with_thread_local(SystemDesc::for_kind(10, SystemKind::RenderClear, true, Vec::new()))
        .with_thread_local(SystemDesc::for_kind(11, SystemKind::SpriteRender, true, Vec::new()))
        .build()
        .unwrap();

    let batches = d.dispatch(&mut world);
    assert_eq!(batches.len(), 2);
    assert!(matches!(batches[0], DrawBatch::Clear));
    match &batches[1] {
        DrawBatch::Sprites(records) => {
            assert_eq!(records.len(), 1);
            // One second at 1000 milli-units per second: the extraction
            // sees the committed, moved position.
            assert_eq!(records[0].translation, (1000, 0, 0));
            assert_eq!(records[0].sprite_id, 3);
        },
        _ => panic!("expected the sprite batch second"),
    }
    // The parallel write is committed in the world too.
    assert_eq!(world.positions.get(e).unwrap().x, 1000);
}

#[test]
fn simulation_kind_in_the_affine_group_emits_an_empty_batch() {
    let mut world = World::new();
    let e = world.create_entity();
    world.positions.insert(e, Position { x: 0, y: 0, z: 0 });
    world.velocities.insert(e, Velocity::new(2000, 0));
    world.delta_time = DeltaTime(500_000);
    let d = DispatcherBuilder::new()
        .with_thread_local(SystemDesc::for_kind(1, SystemKind::Velocity, true, Vec::new()))
        .build()
        .unwrap();
    let batches = d.dispatch(&mut world);
    assert_eq!(batches.len(), 1);
    assert!(matches!(batches[0], DrawBatch::Empty));
    // It still ran, sequentially on the affine thread.
    assert_eq!(world.positions.get(e).unwrap().x, 1000);
}

#[test]
fn dispatcher_tick_maintains_then_writes_delta_then_runs() {
    // The per-tick order: deferred deletions land first, the delta time is
    // written next, and only then do the systems run with it.
    let mut world = World::new();
    let doomed = world.create_entity();
    world.positions.insert(doomed, Position { x: 0, y: 0, z: 0 });
    world.velocities.insert(doomed, Velocity::new(9000, 0));
    let mover = world.create_entity();
    world.positions.insert(mover, Position { x: 0, y: 0, z: 0 });
    world.velocities.insert(mover, Velocity::new(2000, 0));
    world.delete_entity(doomed);

    let d = DispatcherBuilder::new()
        .with(SystemDesc::for_kind(1, SystemKind::Velocity, false, Vec::new()))
        .build()
        .unwrap();
    let batches = d.tick(&mut world, 500_000);
    assert!(batches.is_empty());
    // The doomed entity was purged before the velocity pass could move it.
    assert!(world.positions.get(doomed).is_none());
    assert_eq!(world.positions.get(mover).unwrap().x, 1000);
    assert_eq!(world.delta_time, DeltaTime(500_000));
}

#[test]
fn thread_affine_batches_keep_registration_order() {
    let mut world = World::new();
    let d = DispatcherBuilder::new()
        .with_thread_local(SystemDesc::for_kind(1, SystemKind::RenderClear, true, Vec::new()))
        .with_thread_local(SystemDesc::for_kind(2, SystemKind::TileRender, true, Vec::new()))
        .with_thread_local(SystemDesc::for_kind(3, SystemKind::LightRender, true, Vec::new()))
        .build()
        .unwrap();
    let batches = d.dispatch(&mut world);
    assert!(matches!(batches[0], DrawBatch::Clear));
    assert!(matches!(batches[1], DrawBatch::Tiles(_)));
    assert!(matches!(batches[2], DrawBatch::Lights(_)));
}
