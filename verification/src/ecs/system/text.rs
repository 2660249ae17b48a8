//! Text render-data extraction: a thread-affine pass that turns every
//! entity carrying a text label, a position and a color into one draw
//! record, offset from the entity's position.

use vstd::prelude::*;
use crate::ecs::Entity;
use crate::ecs::system::{filtered_records, lemma_filtered_records_step};
use crate::ecs::system::movement::sat_add_i64;
use crate::ecs::world::{World, WorldView};
use crate::renderer::RenderString;

verus! {

/// How many entity indices the text pass scans.
pub open spec fn text_scan_len(w: WorldView) -> int {
    let a = if w.texts.len() <= w.positions.len() {
        w.texts.len() as int
    } else {
        w.positions.len() as int
    };
    if a <= w.colors.len() {
        a
    } else {
        w.colors.len() as int
    }
}

/// The draw record entity `i` yields, if it carries a text, a position
/// and a color: the label sits at the entity's position plus the label's
/// own offset, saturating at the world's edge.
pub open spec fn text_record(w: WorldView, i: int) -> Option<RenderString> {
    if 0 <= i < w.texts.len() && 0 <= i < w.positions.len() && 0 <= i < w.colors.len()
        && w.texts[i] is Some && w.positions[i] is Some && w.colors[i] is Some {
        let t = w.texts[i]->0;
        let p = w.positions[i]->0;
        let c = w.colors[i]->0;
        Some(
            RenderString {
                position: (
                    sat_add_i64(p.x as int, t.offset.0 as int) as i64,
                    sat_add_i64(p.y as int, t.offset.1 as int) as i64,
                    p.z,
                ),
                size: t.size,
                color: (c.r, c.g, c.b, c.a),
                text: t.content,
            },
        )
    } else {
        None
    }
}

/// The tick's text draw records, in entity order.
pub open spec fn text_records(w: WorldView) -> Seq<RenderString> {
    filtered_records(text_scan_len(w), |i: int| text_record(w, i))
}

/// The thread-affine system that extracts text draw records.
pub struct TextRenderSys;

impl TextRenderSys {
    /// Extracts one draw record per labelled entity, in entity order,
    /// touching nothing.
    pub fn run(world: &World) -> (r: Vec<RenderString>)
        ensures
            r@ == text_records(world@),
    {
        let ghost w0 = world@;
        let ghost pick = |i: int| text_record(w0, i);
        let cap_t = world.texts.capacity();
        let cap_p = world.positions.capacity();
        let cap_c = world.colors.capacity();
        let m: usize = if cap_t <= cap_p {
            cap_t
        } else {
            cap_p
        };
        let n: usize = if m <= cap_c {
            m
        } else {
            cap_c
        };
        let mut out: Vec<RenderString> = Vec::new();
        let mut i: usize = 0;
        while i < n
            invariant
                w0 == world@,
                0 <= i <= n,
                n == text_scan_len(w0),
                pick == (|j: int| text_record(w0, j)),
                out@ == filtered_records(i as int, pick),
            decreases n - i,
        {
            let e = Entity { id: i };
            let rec: Option<RenderString> = match (world.texts.get(e), world.positions.get(e),
                world.colors.get(e)) {
                (Some(t), Some(p), Some(c)) => {
                    let x = crate::ecs::system::movement::sat_add_exec(p.x, t.offset.0);
                    let y = crate::ecs::system::movement::sat_add_exec(p.y, t.offset.1);
                    Some(
                        RenderString {
                            position: (x, y, p.z),
                            size: t.size,
                            color: (c.r, c.g, c.b, c.a),
                            text: t.content.clone(),
                        },
                    )
                },
                _ => None,
            };
            proof {
                assert(rec == text_record(w0, i as int));
                lemma_filtered_records_step(i as int, pick);
            }
            match rec {
                Some(rs) => {
                    out.push(rs);
                    proof {
                        assert(out@ =~= filtered_records(i + 1, pick));
                    }
                },
                None => {
                    proof {
                        assert(out@ =~= filtered_records(i + 1, pick));
                    }
                },
            }
            i = i + 1;
        }
        out
    }
}

} // verus!
