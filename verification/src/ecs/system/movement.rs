//! Velocity integration: each tick, every entity carrying both a position
//! and a velocity moves by its velocity scaled to the tick's duration.

use vstd::prelude::*;
use crate::ecs::Entity;
use crate::ecs::component::{Position, Velocity};
use crate::ecs::world::{World, WorldView};

verus! {

/// How far a velocity of `v` milli-units per second carries in `dt`
/// microseconds, truncated toward zero.
pub open spec fn scaled_delta(v: int, dt: int) -> int {
    if v >= 0 {
        (v * dt) / 1_000_000
    } else {
        -(((-v) * dt) / 1_000_000)
    }
}

/// Addition clamped to the `i64` range; positions saturate at the world's
/// edge rather than wrapping.
pub open spec fn sat_add_i64(a: int, b: int) -> int {
    if a + b > i64::MAX {
        i64::MAX as int
    } else if a + b < i64::MIN {
        i64::MIN as int
    } else {
        a + b
    }
}

/// Where one tick carries a position: each axis moves by the velocity
/// scaled to the tick, depth is untouched.
pub open spec fn moved_position(p: Position, v: Velocity, dt: int) -> Position {
    Position {
        x: sat_add_i64(p.x as int, scaled_delta(v.x as int, dt)) as i64,
        y: sat_add_i64(p.y as int, scaled_delta(v.y as int, dt)) as i64,
        z: p.z,
    }
}

/// Whether entity `i` carries both a position and a velocity.
pub open spec fn vel_present(w: WorldView, i: int) -> bool {
    &&& 0 <= i < w.positions.len()
    &&& 0 <= i < w.velocities.len()
    &&& w.positions[i] is Some
    &&& w.velocities[i] is Some
}

/// One run of the velocity pass: every entity with a position and a
/// velocity moves; nothing else changes.
pub open spec fn velocity_step(w: WorldView) -> WorldView {
    let dt = w.delta_time.0 as int;
    WorldView {
        positions: Seq::new(
            w.positions.len(),
            |i: int|
                if vel_present(w, i) {
                    Some(moved_position(w.positions[i]->0, w.velocities[i]->0, dt))
                } else {
                    w.positions[i]
                },
        ),
        ..w
    }
}

/// Executable form of [`scaled_delta`].
pub fn scaled_delta_exec(v: i32, dt: u32) -> (r: i64)
    ensures
        r == scaled_delta(v as int, dt as int),
{
    if v >= 0 {
        let va: u64 = v as u64;
        let da: u64 = dt as u64;
        proof {
            assert(va * da <= 0x7FFF_FFFF * 0xFFFF_FFFF) by (nonlinear_arith)
                requires
                    va <= 0x7FFF_FFFF,
                    da <= 0xFFFF_FFFF,
            ;
        }
        let prod: u64 = va * da;
        (prod / 1_000_000) as i64
    } else {
        let va: u64 = (-(v as i64)) as u64;
        let da: u64 = dt as u64;
        proof {
            assert(va * da <= 0x8000_0000 * 0xFFFF_FFFF) by (nonlinear_arith)
                requires
                    va <= 0x8000_0000,
                    da <= 0xFFFF_FFFF,
            ;
        }
        let mag: u64 = va * da;
        -((mag / 1_000_000) as i64)
    }
}

/// Executable form of [`sat_add_i64`].
pub fn sat_add_exec(a: i64, b: i64) -> (r: i64)
    ensures
        r == sat_add_i64(a as int, b as int),
{
    if b >= 0 {
        if a > i64::MAX - b {
            i64::MAX
        } else {
            a + b
        }
    } else {
        if a < i64::MIN - b {
            i64::MIN
        } else {
            a + b
        }
    }
}

/// The system that applies entity velocities to entity positions.
pub struct VelocitySys;

impl VelocitySys {
    /// Runs the velocity pass over the whole world.
    pub fn run(world: &mut World)
        ensures
            final(world)@ == velocity_step(old(world)@),
    {
        let ghost w0 = old(world)@;
        let ghost tgt = velocity_step(old(world)@);
        let dt = world.delta_time.0;
        let cap_p = world.positions.capacity();
        let cap_v = world.velocities.capacity();
        let n: usize = if cap_p <= cap_v {
            cap_p
        } else {
            cap_v
        };
        let mut i: usize = 0;
        while i < n
            invariant
                w0 == old(world)@,
                0 <= i <= n,
                n <= w0.positions.len(),
                n <= w0.velocities.len(),
                dt == w0.delta_time.0,
                world@.positions.len() == w0.positions.len(),
                forall|j: int|
                    0 <= j < world@.positions.len() ==> (#[trigger] world@.positions[j]) == (if j
                        < i && vel_present(w0, j) {
                        Some(moved_position(w0.positions[j]->0, w0.velocities[j]->0, dt as int))
                    } else {
                        w0.positions[j]
                    }),
                world@ == (WorldView { positions: world@.positions, ..w0 }),
            decreases n - i,
        {
            let e = Entity { id: i };
            let pos_opt: Option<Position> = match world.positions.get(e) {
                Some(p) => Some(*p),
                None => None,
            };
            let vel_opt: Option<Velocity> = match world.velocities.get(e) {
                Some(v) => Some(*v),
                None => None,
            };
            if let (Some(p), Some(v)) = (pos_opt, vel_opt) {
                proof {
                    assert(vel_present(w0, i as int));
                    assert(p == w0.positions[i as int]->0);
                    assert(v == w0.velocities[i as int]->0);
                }
                let nx = sat_add_exec(p.x, scaled_delta_exec(v.x, dt));
                let ny = sat_add_exec(p.y, scaled_delta_exec(v.y, dt));
                let np = Position { x: nx, y: ny, z: p.z };
                proof {
                    assert(np == moved_position(p, v, dt as int));
                    world.positions.lemma_capacity_bound();
                }
                world.positions.insert(e, np);
            }
            i = i + 1;
        }
        proof {
            assert(world@.positions =~= tgt.positions);
            assert(world@ =~= tgt);
        }
    }
}

} // verus!
