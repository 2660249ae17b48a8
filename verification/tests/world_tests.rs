//! The entity world: store access, deferred deletion, and maintenance.

use stoneng::ecs::component::{Lifetime, Position, Scale, Scaling, Velocity};
use stoneng::ecs::resource::DeltaTime;
use stoneng::ecs::system::movement::VelocitySys;
use stoneng::ecs::system::particle::ParticleSys;
use stoneng::ecs::world::World;

#[test]
fn stores_return_only_held_components() {
    let mut world = World::new();
    let a = world.create_entity();
    let b = world.create_entity();
    world.positions.insert(a, Position { x: 1, y: 2, z: 3 });
    assert_eq!(world.positions.get(a), Some(&Position { x: 1, y: 2, z: 3 }));
    assert_eq!(world.positions.get(b), None);
    world.positions.remove(a);
    assert_eq!(world.positions.get(a), None);
}

#[test]
fn deletion_is_deferred_until_maintain() {
    let mut world = World::new();
    let a = world.create_entity();
    world.positions.insert(a, Position { x: 5, y: 5, z: 0 });
    world.velocities.insert(a, Velocity::new(1, 1));
    world.delete_entity(a);
    // Mid-pass the entity is still fully visible.
    assert!(world.positions.get(a).is_some());
    assert!(world.velocities.get(a).is_some());
    world.maintain();
    assert!(world.positions.get(a).is_none());
    assert!(world.velocities.get(a).is_none());
}

#[test]
fn entity_identifiers_are_never_reused() {
    let mut world = World::new();
    let a = world.create_entity();
    world.delete_entity(a);
    world.maintain();
    let b = world.create_entity();
    assert_ne!(a, b);
}

#[test]
fn velocity_integrates_position_over_the_tick() {
    let mut world = World::new();
    let e = world.create_entity();
    world.positions.insert(e, Position { x: 100, y: -100, z: 7 });
    world.velocities.insert(e, Velocity::new(2000, -500));
    // Half a second: 1000 milli-units right, 250 down.
    world.delta_time = DeltaTime(500_000);
    VelocitySys::run(&mut world);
    assert_eq!(world.positions.get(e), Some(&Position { x: 1100, y: -350, z: 7 }));
}

#[test]
fn lifetimes_expire_and_delete_after_maintenance() {
    let mut world = World::new();
    let doomed = world.create_entity();
    let survivor = world.create_entity();
    world.lifetimes.insert(doomed, Lifetime { remaining: 900 });
    world.lifetimes.insert(survivor, Lifetime { remaining: 5000 });
    world.delta_time = DeltaTime(1000);
    ParticleSys::run(&mut world);
    assert_eq!(world.lifetimes.get(survivor).unwrap().remaining, 4000);
    // The expiring lifetime keeps its decremented, now negative remainder
    // until the deferred deletion lands.
    assert_eq!(world.lifetimes.get(doomed).unwrap().remaining, -100);
    world.maintain();
    assert!(world.lifetimes.get(doomed).is_none());
    assert!(world.lifetimes.get(survivor).is_some());
}

#[test]
fn scaling_shrinks_and_deletes_under_threshold() {
    let mut world = World::new();
    let p = world.create_entity();
    world.scales.insert(p, Scale::new(1000, 1000));
    // Factor 500/1000 per second over a full second halves the scale.
    world.scalings.insert(p, Scaling::with_thresh(500, 400));
    world.delta_time = DeltaTime(0);
    ParticleSys::run(&mut world);
    assert_eq!(world.scales.get(p), Some(&Scale::new(500, 500)));
    world.maintain();
    assert!(world.scales.get(p).is_some());
    // A second pass falls to 250, under the 400 threshold: deleted.
    ParticleSys::run(&mut world);
    assert_eq!(world.scales.get(p), Some(&Scale::new(250, 250)));
    world.maintain();
    assert!(world.scales.get(p).is_none());
}
