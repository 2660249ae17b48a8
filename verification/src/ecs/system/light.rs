//! Light render-data extraction: a thread-affine pass that turns every
//! entity carrying a position and a point light into one draw record. A
//! scaled light is brightened by the entity's largest scale axis.

use vstd::prelude::*;
use crate::ecs::Entity;
use crate::ecs::system::{filtered_records, lemma_filtered_records_step};
use crate::ecs::system::particle::trunc_div;
use crate::ecs::world::{World, WorldView};
use crate::renderer::RenderLight;

verus! {

/// How many entity indices the light pass scans.
pub open spec fn light_scan_len(w: WorldView) -> int {
    if w.positions.len() <= w.lights.len() {
        w.positions.len() as int
    } else {
        w.lights.len() as int
    }
}

/// The draw record entity `i` yields, if it carries a position and a
/// light: the light sits at the entity's position; a scaled light
/// multiplies its intensity by the larger scale axis, in milli-units.
pub open spec fn light_record(w: WorldView, i: int) -> Option<RenderLight> {
    if 0 <= i < w.positions.len() && 0 <= i < w.lights.len() && w.positions[i] is Some
        && w.lights[i] is Some {
        let p = w.positions[i]->0;
        let l = w.lights[i]->0;
        let intensity = if l.scaled && 0 <= i < w.scales.len() && w.scales[i] is Some {
            let s = w.scales[i]->0;
            let m = if s.x >= s.y {
                s.x
            } else {
                s.y
            };
            trunc_div(l.intensity * m, 1000)
        } else {
            l.intensity as int
        };
        Some(RenderLight { pos: (p.x, p.y), intensity: intensity as i64 })
    } else {
        None
    }
}

/// The tick's light draw records, in entity order.
pub open spec fn light_records(w: WorldView) -> Seq<RenderLight> {
    filtered_records(light_scan_len(w), |i: int| light_record(w, i))
}

/// The thread-affine system that extracts light draw records.
pub struct LightRenderSys;

impl LightRenderSys {
    /// Extracts one draw record per lit entity, in entity order, touching
    /// nothing.
    pub fn run(world: &World) -> (r: Vec<RenderLight>)
        ensures
            r@ == light_records(world@),
    {
        let ghost w0 = world@;
        let ghost pick = |i: int| light_record(w0, i);
        let cap_p = world.positions.capacity();
        let cap_l = world.lights.capacity();
        let n: usize = if cap_p <= cap_l {
            cap_p
        } else {
            cap_l
        };
        let mut out: Vec<RenderLight> = Vec::new();
        let mut i: usize = 0;
        while i < n
            invariant
                w0 == world@,
                0 <= i <= n,
                n == light_scan_len(w0),
                pick == (|j: int| light_record(w0, j)),
                out@ == filtered_records(i as int, pick),
            decreases n - i,
        {
            let e = Entity { id: i };
            let rec: Option<RenderLight> = match (world.positions.get(e), world.lights.get(e)) {
                (Some(p), Some(l)) => {
                    let base: i64 = l.intensity as i64;
                    let intensity: i64 = if l.scaled {
                        match world.scales.get(e) {
                            Some(s) => {
                                let m: i64 = if s.x >= s.y {
                                    s.x as i64
                                } else {
                                    s.y as i64
                                };
                                proof {
                                    assert(-0x7FFF_FFFF_8000_0000 <= base * m
                                        <= 0x7FFF_FFFE_8000_0001) by (nonlinear_arith)
                                        requires
                                            0 <= base <= 0xFFFF_FFFF,
                                            -0x8000_0000 <= m <= 0x7FFF_FFFF,
                                    ;
                                }
                                let prod: i64 = base * m;
                                if prod >= 0 {
                                    ((prod as u64) / 1000) as i64
                                } else {
                                    -((((-prod) as u64) / 1000) as i64)
                                }
                            },
                            None => base,
                        }
                    } else {
                        base
                    };
                    Some(RenderLight { pos: (p.x, p.y), intensity })
                },
                _ => None,
            };
            proof {
                assert(rec == light_record(w0, i as int));
                lemma_filtered_records_step(i as int, pick);
            }
            match rec {
                Some(rl) => {
                    out.push(rl);
                    proof {
                        assert(out@ =~= filtered_records(i + 1, pick));
                    }
                },
                None => {
                    proof {
                        assert(out@ =~= filtered_records(i + 1, pick));
                    }
                },
            }
            i = i + 1;
        }
        out
    }
}

} // verus!
