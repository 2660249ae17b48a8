//! The broadcast event channel: independent cursors, exactly-once reads,
//! and interleaving with later writes.

use stoneng::ecs::Entity;
use stoneng::ecs::resource::{CollisionEvent, CollisionEvents};

fn ev(a: usize, b: usize) -> CollisionEvent {
    CollisionEvent::new(Entity { id: a }, Entity { id: b })
}

#[test]
fn two_readers_each_see_every_event_once() {
    let mut channel = CollisionEvents::new();
    let mut r1 = channel.register_reader();
    let mut r2 = channel.register_reader();

    channel.single_write(ev(1, 2));
    channel.single_write(ev(2, 1));

    let first = channel.read(&mut r1);
    assert_eq!(first.len(), 2);
    assert_eq!(first[0], ev(1, 2));
    assert_eq!(first[1], ev(2, 1));

    channel.single_write(ev(3, 4));

    // The first reader sees only what it has not seen; the second sees
    // everything, in append order, despite the interleaved read.
    let second = channel.read(&mut r1);
    assert_eq!(second, vec![ev(3, 4)]);

    let all = channel.read(&mut r2);
    assert_eq!(all, vec![ev(1, 2), ev(2, 1), ev(3, 4)]);

    // Nothing is seen twice.
    assert_eq!(channel.read(&mut r1).len(), 0);
    assert_eq!(channel.read(&mut r2).len(), 0);
}

#[test]
fn late_reader_sees_only_later_events() {
    let mut channel = CollisionEvents::new();
    channel.single_write(ev(7, 8));
    let mut late = channel.register_reader();
    channel.single_write(ev(8, 7));
    assert_eq!(channel.read(&mut late), vec![ev(8, 7)]);
}
