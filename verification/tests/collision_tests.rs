//! Collision detection boundary cases: exactly touching boxes emit no
//! event, overlap by one unit emits one event per ordered pair.

use stoneng::ecs::component::{Collider, Position};
use stoneng::ecs::system::collision::CollisionSys;
use stoneng::ecs::resource::CollisionEvent;
use stoneng::ecs::world::World;
use stoneng::ecs::Entity;

fn body(world: &mut World, x: i64, y: i64, w: u32, h: u32) -> Entity {
    let e = world.create_entity();
    world.positions.insert(e, Position { x, y, z: 0 });
    world.colliders.insert(e, Collider::new(w, h));
    e
}

fn run_and_read(world: &mut World) -> Vec<CollisionEvent> {
    let mut reader = world.collision_events.register_reader();
    CollisionSys::run(world);
    world.collision_events.read(&mut reader)
}

#[test]
fn touching_edges_do_not_collide() {
    let mut world = World::new();
    // Half extents 50 each: right edge of a at 50, left edge of b at 50.
    body(&mut world, 0, 0, 100, 100);
    body(&mut world, 100, 0, 100, 100);
    assert_eq!(run_and_read(&mut world).len(), 0);
}

#[test]
fn overlap_by_one_unit_emits_both_directions() {
    let mut world = World::new();
    let a = body(&mut world, 0, 0, 100, 100);
    let b = body(&mut world, 99, 0, 100, 100);
    let events = run_and_read(&mut world);
    assert_eq!(events.len(), 2);
    assert_eq!(events[0], CollisionEvent::new(a, b));
    assert_eq!(events[1], CollisionEvent::new(b, a));
}

#[test]
fn vertical_touch_is_not_a_hit_either() {
    let mut world = World::new();
    body(&mut world, 0, 0, 100, 100);
    body(&mut world, 0, 100, 100, 100);
    assert_eq!(run_and_read(&mut world).len(), 0);
}

#[test]
fn three_bodies_emit_each_overlapping_ordered_pair_once() {
    let mut world = World::new();
    let a = body(&mut world, 0, 0, 100, 100);
    let b = body(&mut world, 50, 0, 100, 100);
    let c = body(&mut world, 500, 0, 100, 100);
    let events = run_and_read(&mut world);
    assert_eq!(events, vec![CollisionEvent::new(a, b), CollisionEvent::new(b, a)]);
    let _ = c;
}

#[test]
fn entity_without_collider_is_ignored() {
    let mut world = World::new();
    let a = world.create_entity();
    world.positions.insert(a, Position { x: 0, y: 0, z: 0 });
    body(&mut world, 0, 0, 100, 100);
    assert_eq!(run_and_read(&mut world).len(), 0);
}
