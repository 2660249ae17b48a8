//! Particle upkeep: lifetimes count down and expire, scaling particles
//! shrink (or grow) each tick and die below their threshold. Expired
//! entities are queued for deletion, applied at the next maintenance
//! point.

use vstd::prelude::*;
use crate::ecs::Entity;
use crate::ecs::component::{Lifetime, Scale, Scaling};
use crate::ecs::world::{World, WorldView};

verus! {

/// Division truncated toward zero, for a positive divisor.
pub open spec fn trunc_div(p: int, d: int) -> int {
    if p >= 0 {
        p / d
    } else {
        -((-p) / d)
    }
}

/// A value clamped to the `i32` range.
pub open spec fn sat_i32(x: int) -> int {
    if x > i32::MAX {
        i32::MAX as int
    } else if x < i32::MIN {
        i32::MIN as int
    } else {
        x
    }
}

/// What remains of a lifetime after a tick of `dt` microseconds: the
/// delta is subtracted outright, so an expiring lifetime goes negative
/// until its deletion lands at the next maintenance point (saturating
/// only at the component type's floor).
pub open spec fn life_after(l: Lifetime, dt: int) -> Lifetime {
    Lifetime {
        remaining: crate::ecs::system::movement::sat_add_i64(l.remaining as int, -dt) as i64,
    }
}

/// Whether one tick of `dt` exhausts the lifetime.
pub open spec fn life_expires(l: Lifetime, dt: int) -> bool {
    l.remaining <= dt
}

/// One scale axis after a tick: the per-second factor is applied in
/// proportion to the remaining share of a second, truncating toward zero
/// and saturating at the `i32` range.
pub open spec fn scaled_axis(s: int, factor: int, dt: int) -> int {
    sat_i32(trunc_div(s * factor * (1_000_000 - dt), 1_000_000_000))
}

/// An entity's scale after a tick of its scaling component.
pub open spec fn scale_after(s: Scale, sc: Scaling, dt: int) -> Scale {
    Scale {
        x: scaled_axis(s.x as int, sc.factor as int, dt) as i32,
        y: scaled_axis(s.y as int, sc.factor as int, dt) as i32,
    }
}

/// Whether the new scale falls under the scaling's deletion threshold on
/// either axis.
pub open spec fn scale_expires(s: Scale, sc: Scaling, dt: int) -> bool {
    let n = scale_after(s, sc, dt);
    abs_int(n.x as int) < sc.threshold || abs_int(n.y as int) < sc.threshold
}

/// The absolute value.
pub open spec fn abs_int(x: int) -> int {
    if x >= 0 {
        x
    } else {
        -x
    }
}

/// Whether entity `i` carries a lifetime.
pub open spec fn life_present(w: WorldView, i: int) -> bool {
    0 <= i < w.lifetimes.len() && w.lifetimes[i] is Some
}

/// Whether entity `i` carries both a scaling and a scale.
pub open spec fn scaling_present(w: WorldView, i: int) -> bool {
    &&& 0 <= i < w.scalings.len()
    &&& 0 <= i < w.scales.len()
    &&& w.scalings[i] is Some
    &&& w.scales[i] is Some
}

/// The entities among the first `n` whose lifetime this tick exhausts, in
/// index order.
pub open spec fn life_deaths(w: WorldView, n: int) -> Seq<Entity>
    decreases n,
{
    if n <= 0 {
        Seq::empty()
    } else {
        life_deaths(w, n - 1) + (if life_present(w, n - 1) && life_expires(
            w.lifetimes[n - 1]->0,
            w.delta_time.0 as int,
        ) {
            seq![Entity { id: (n - 1) as usize }]
        } else {
            Seq::empty()
        })
    }
}

/// How many entity indices the scaling pass scans.
pub open spec fn scaling_scan_len(w: WorldView) -> int {
    if w.scalings.len() <= w.scales.len() {
        w.scalings.len() as int
    } else {
        w.scales.len() as int
    }
}

/// The entities among the first `n` whose scale this tick pushes under
/// its threshold, in index order.
pub open spec fn scale_deaths(w: WorldView, n: int) -> Seq<Entity>
    decreases n,
{
    if n <= 0 {
        Seq::empty()
    } else {
        scale_deaths(w, n - 1) + (if scaling_present(w, n - 1) && scale_expires(
            w.scales[n - 1]->0,
            w.scalings[n - 1]->0,
            w.delta_time.0 as int,
        ) {
            seq![Entity { id: (n - 1) as usize }]
        } else {
            Seq::empty()
        })
    }
}

/// One run of the particle pass: lifetimes count down (expired entities
/// are queued for deletion), then scaling entities shrink or grow (those
/// under their threshold are queued too, after all lifetime deaths).
/// Nothing else changes.
pub open spec fn particle_step(w: WorldView) -> WorldView {
    let dt = w.delta_time.0 as int;
    WorldView {
        lifetimes: Seq::new(
            w.lifetimes.len(),
            |i: int|
                if life_present(w, i) {
                    Some(life_after(w.lifetimes[i]->0, dt))
                } else {
                    w.lifetimes[i]
                },
        ),
        scales: Seq::new(
            w.scales.len(),
            |i: int|
                if scaling_present(w, i) {
                    Some(scale_after(w.scales[i]->0, w.scalings[i]->0, dt))
                } else {
                    w.scales[i]
                },
        ),
        pending: w.pending + life_deaths(w, w.lifetimes.len() as int) + scale_deaths(
            w,
            scaling_scan_len(w),
        ),
        ..w
    }
}

/// Executable form of [`scaled_axis`].
fn scaled_axis_exec(s: i32, factor: u32, dt: u32) -> (r: i32)
    ensures
        r as int == scaled_axis(s as int, factor as int, dt as int),
{
    let tf: i64 = 1_000_000i64 - dt as i64;
    let a: i128 = s as i128;
    let f: i128 = factor as i128;
    let t: i128 = tf as i128;
    proof {
        assert(-0x8000_0000_0000_0000 <= a * f <= 0x8000_0000_0000_0000) by (nonlinear_arith)
            requires
                -0x8000_0000 <= a <= 0x7FFF_FFFF,
                0 <= f <= 0xFFFF_FFFF,
        ;
    }
    let af: i128 = a * f;
    proof {
        assert(-0x1_0000_0000_0000_0000_0000_0000 <= af * t
            <= 0x1_0000_0000_0000_0000_0000_0000) by (nonlinear_arith)
            requires
                -0x8000_0000_0000_0000 <= af <= 0x8000_0000_0000_0000,
                -0x1_0000_0000 <= t <= 0x1_0000_0000,
        ;
    }
    let prod: i128 = af * t;
    let neg: bool = prod < 0;
    let q: u128 = if prod >= 0 {
        (prod as u128) / 1_000_000_000
    } else {
        ((-prod) as u128) / 1_000_000_000
    };
    if neg {
        if q >= 2_147_483_648 {
            i32::MIN
        } else {
            -((q as i64) as i32)
        }
    } else {
        if q >= 2_147_483_647 {
            i32::MAX
        } else {
            q as i32
        }
    }
}

/// The system that ages particles: counts lifetimes down and applies
/// scaling decay, queueing expired entities for deletion.
pub struct ParticleSys;

impl ParticleSys {
    /// Runs the particle pass over the whole world.
    pub fn run(world: &mut World)
        ensures
            final(world)@ == particle_step(old(world)@),
    {
        let ghost w0 = old(world)@;
        let ghost tgt = particle_step(old(world)@);
        let dt = world.delta_time.0;
        let n_l = world.lifetimes.capacity();
        let mut i: usize = 0;
        proof {
            assert(world@.pending =~= w0.pending + life_deaths(w0, 0));
        }
        while i < n_l
            invariant
                w0 == old(world)@,
                0 <= i <= n_l,
                n_l == w0.lifetimes.len(),
                dt == w0.delta_time.0,
                world@.lifetimes.len() == w0.lifetimes.len(),
                forall|j: int|
                    0 <= j < world@.lifetimes.len() ==> (#[trigger] world@.lifetimes[j]) == (if j
                        < i && life_present(w0, j) {
                        Some(life_after(w0.lifetimes[j]->0, dt as int))
                    } else {
                        w0.lifetimes[j]
                    }),
                world@.pending == w0.pending + life_deaths(w0, i as int),
                world@ == (WorldView {
                    lifetimes: world@.lifetimes,
                    pending: world@.pending,
                    ..w0
                }),
            decreases n_l - i,
        {
            let e = Entity { id: i };
            let life_opt: Option<Lifetime> = match world.lifetimes.get(e) {
                Some(l) => Some(*l),
                None => None,
            };
            if let Some(l) = life_opt {
                proof {
                    assert(life_present(w0, i as int));
                    assert(l == w0.lifetimes[i as int]->0);
                }
                let dt64 = dt as i64;
                let remaining = crate::ecs::system::movement::sat_add_exec(l.remaining, -dt64);
                proof {
                    world.lifetimes.lemma_capacity_bound();
                }
                world.lifetimes.insert(e, Lifetime { remaining });
                if l.remaining <= dt64 {
                    world.delete_entity(e);
                }
                proof {
                    assert(world@.pending =~= w0.pending + life_deaths(w0, i + 1));
                }
            } else {
                proof {
                    assert(world@.pending =~= w0.pending + life_deaths(w0, i + 1));
                }
            }
            i = i + 1;
        }
        let cap_sc = world.scalings.capacity();
        let cap_s = world.scales.capacity();
        let n_s: usize = if cap_sc <= cap_s {
            cap_sc
        } else {
            cap_s
        };
        let ghost lifetimes_done = world@.lifetimes;
        let mut k: usize = 0;
        proof {
            assert(world@.pending =~= w0.pending + life_deaths(w0, n_l as int) + scale_deaths(
                w0,
                0,
            ));
        }
        while k < n_s
            invariant
                w0 == old(world)@,
                0 <= k <= n_s,
                n_s == scaling_scan_len(w0),
                dt == w0.delta_time.0,
                world@.lifetimes == lifetimes_done,
                world@.scales.len() == w0.scales.len(),
                forall|j: int|
                    0 <= j < world@.scales.len() ==> (#[trigger] world@.scales[j]) == (if j < k
                        && scaling_present(w0, j) {
                        Some(scale_after(w0.scales[j]->0, w0.scalings[j]->0, dt as int))
                    } else {
                        w0.scales[j]
                    }),
                world@.pending == w0.pending + life_deaths(w0, n_l as int) + scale_deaths(
                    w0,
                    k as int,
                ),
                world@ == (WorldView {
                    lifetimes: lifetimes_done,
                    scales: world@.scales,
                    pending: world@.pending,
                    ..w0
                }),
            decreases n_s - k,
        {
            let e = Entity { id: k };
            let scaling_opt: Option<Scaling> = match world.scalings.get(e) {
                Some(sc) => Some(*sc),
                None => None,
            };
            let scale_opt: Option<Scale> = match world.scales.get(e) {
                Some(s) => Some(*s),
                None => None,
            };
            if let (Some(sc), Some(s)) = (scaling_opt, scale_opt) {
                proof {
                    assert(scaling_present(w0, k as int));
                    assert(sc == w0.scalings[k as int]->0);
                    assert(s == w0.scales[k as int]->0);
                }
                let nx = scaled_axis_exec(s.x, sc.factor, dt);
                let ny = scaled_axis_exec(s.y, sc.factor, dt);
                let ns = Scale { x: nx, y: ny };
                proof {
                    assert(ns == scale_after(s, sc, dt as int));
                    world.scales.lemma_capacity_bound();
                }
                world.scales.insert(e, ns);
                let ax: i64 = if nx >= 0 {
                    nx as i64
                } else {
                    -(nx as i64)
                };
                let ay: i64 = if ny >= 0 {
                    ny as i64
                } else {
                    -(ny as i64)
                };
                if ax < sc.threshold as i64 || ay < sc.threshold as i64 {
                    world.delete_entity(e);
                }
                proof {
                    assert(world@.pending =~= w0.pending + life_deaths(w0, n_l as int)
                        + scale_deaths(w0, k + 1));
                }
            } else {
                proof {
                    assert(world@.pending =~= w0.pending + life_deaths(w0, n_l as int)
                        + scale_deaths(w0, k + 1));
                }
            }
            k = k + 1;
        }
        proof {
            assert(world@.lifetimes =~= tgt.lifetimes);
            assert(world@.scales =~= tgt.scales);
            assert(world@.pending =~= tgt.pending);
            assert(world@ =~= tgt);
        }
    }
}

} // verus!
