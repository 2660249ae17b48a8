//! Pairwise collision detection: every ordered pair of distinct entities
//! carrying a position and a collider is tested for strict box overlap,
//! and each overlapping ordered pair emits exactly one event per tick into
//! the broadcast channel. Detection is directional over the double loop:
//! both `(a, b)` and `(b, a)` are emitted for one physical overlap, and
//! consumers must tolerate that.

use vstd::prelude::*;
use crate::ecs::Entity;
use crate::ecs::component::{Collider, Position};
use crate::ecs::resource::CollisionEvent;
use crate::ecs::world::{World, WorldView};

verus! {

/// Strict interior overlap of the two entities' collision boxes, each
/// centred on its position with half the collider's extent on each side
/// (halving truncates). Boxes that merely touch do not overlap.
pub open spec fn boxes_overlap(pa: Position, ca: Collider, pb: Position, cb: Collider) -> bool {
    let aw = ca.width as int / 2;
    let ah = ca.height as int / 2;
    let bw = cb.width as int / 2;
    let bh = cb.height as int / 2;
    &&& pa.x + aw > pb.x - bw
    &&& pa.x - aw < pb.x + bw
    &&& pa.y + ah > pb.y - bh
    &&& pa.y - ah < pb.y + bh
}

/// Overlap does not depend on the order of the two bodies.
pub proof fn lemma_boxes_overlap_symmetric(pa: Position, ca: Collider, pb: Position, cb: Collider)
    ensures
        boxes_overlap(pa, ca, pb, cb) == boxes_overlap(pb, cb, pa, ca),
{
}

/// Whether entity `i` carries both a position and a collider.
pub open spec fn coll_present(w: WorldView, i: int) -> bool {
    &&& 0 <= i < w.positions.len()
    &&& 0 <= i < w.colliders.len()
    &&& w.positions[i] is Some
    &&& w.colliders[i] is Some
}

/// Whether the tick detects the ordered pair `(i, j)`: two distinct
/// collidable entities whose boxes strictly overlap.
pub open spec fn hit(w: WorldView, i: int, j: int) -> bool {
    &&& i != j
    &&& coll_present(w, i)
    &&& coll_present(w, j)
    &&& boxes_overlap(w.positions[i]->0, w.colliders[i]->0, w.positions[j]->0, w.colliders[j]->0)
}

/// The events entity `i` emits against targets `0..j`, in target order.
pub open spec fn row_events(w: WorldView, i: int, j: int) -> Seq<CollisionEvent>
    decreases j,
{
    if j <= 0 {
        Seq::empty()
    } else {
        row_events(w, i, j - 1) + (if hit(w, i, j - 1) {
            seq![
                CollisionEvent {
                    collider_a: Entity { id: i as usize },
                    collider_b: Entity { id: (j - 1) as usize },
                },
            ]
        } else {
            Seq::empty()
        })
    }
}

/// How many entity indices the collision pass scans.
pub open spec fn coll_scan_len(w: WorldView) -> int {
    if w.positions.len() <= w.colliders.len() {
        w.positions.len() as int
    } else {
        w.colliders.len() as int
    }
}

/// All events the tick emits for sources `0..i`, in source-major order.
pub open spec fn all_events(w: WorldView, i: int) -> Seq<CollisionEvent>
    decreases i,
{
    if i <= 0 {
        Seq::empty()
    } else {
        all_events(w, i - 1) + row_events(w, i - 1, coll_scan_len(w))
    }
}

/// One run of the collision pass: exactly the detected ordered pairs are
/// appended to the event log, in scan order; nothing else changes.
pub open spec fn collision_step(w: WorldView) -> WorldView {
    WorldView { collision_events: w.collision_events + all_events(w, coll_scan_len(w)), ..w }
}

/// Extending a row's scan by one target appends that target's event, if
/// detected.
pub proof fn lemma_row_events_step(w: WorldView, i: int, j: int)
    requires
        j >= 0,
    ensures
        row_events(w, i, j + 1) == row_events(w, i, j) + (if hit(w, i, j) {
            seq![
                CollisionEvent {
                    collider_a: Entity { id: i as usize },
                    collider_b: Entity { id: j as usize },
                },
            ]
        } else {
            Seq::empty()
        }),
{
    let j1 = j + 1;
    assert(row_events(w, i, j1) == row_events(w, i, j1 - 1) + (if hit(w, i, j1 - 1) {
        seq![
            CollisionEvent {
                collider_a: Entity { id: i as usize },
                collider_b: Entity { id: (j1 - 1) as usize },
            },
        ]
    } else {
        Seq::empty()
    }));
    assert(j1 - 1 == j);
}

/// Extending the source scan by one appends that source's whole row.
pub proof fn lemma_all_events_step(w: WorldView, i: int)
    requires
        i >= 0,
    ensures
        all_events(w, i + 1) == all_events(w, i) + row_events(w, i, coll_scan_len(w)),
{
    let i1 = i + 1;
    assert(all_events(w, i1) == all_events(w, i1 - 1) + row_events(w, i1 - 1, coll_scan_len(w)));
    assert(i1 - 1 == i);
}

/// A row contains `(a, b)` exactly when `a` is its source, `b` is a
/// scanned target, and the pair is detected.
pub proof fn lemma_row_events_contains(w: WorldView, i: int, j: int, a: Entity, b: Entity)
    requires
        0 <= j <= usize::MAX,
        0 <= i <= usize::MAX,
    ensures
        row_events(w, i, j).contains(CollisionEvent { collider_a: a, collider_b: b }) <==> (a.id
            == i && b.id < j && hit(w, i, b.id as int)),
    decreases j,
{
    let ev = CollisionEvent { collider_a: a, collider_b: b };
    if j == 0 {
        assert(!row_events(w, i, 0).contains(ev));
    } else {
        lemma_row_events_contains(w, i, j - 1, a, b);
        let prefix = row_events(w, i, j - 1);
        let row = row_events(w, i, j);
        if hit(w, i, j - 1) {
            let last = CollisionEvent {
                collider_a: Entity { id: i as usize },
                collider_b: Entity { id: (j - 1) as usize },
            };
            assert(row == prefix + seq![last]);
            if row.contains(ev) {
                let k = choose|k: int| 0 <= k < row.len() && row[k] == ev;
                if k < prefix.len() {
                    assert(prefix[k] == ev);
                    assert(prefix.contains(ev));
                } else {
                    assert(ev == last);
                    assert(a.id == i);
                    assert(b.id == j - 1);
                    assert(hit(w, i, b.id as int));
                }
            }
            if a.id == i && b.id < j && hit(w, i, b.id as int) {
                if b.id == j - 1 {
                    assert(row[row.len() - 1] == ev);
                    assert(row.contains(ev));
                } else {
                    assert(prefix.contains(ev));
                    let k = choose|k: int| 0 <= k < prefix.len() && prefix[k] == ev;
                    assert(row[k] == ev);
                    assert(row.contains(ev));
                }
            }
        } else {
            assert(row =~= prefix);
            if a.id == i && b.id < j && hit(w, i, b.id as int) {
                assert(b.id != j - 1);
            }
        }
    }
}

/// The tick's event sequence contains `(a, b)` exactly when the pair is
/// detected: detection is exhaustive over ordered pairs.
pub proof fn lemma_all_events_contains(w: WorldView, i: int, a: Entity, b: Entity)
    requires
        0 <= i <= coll_scan_len(w),
        coll_scan_len(w) <= usize::MAX,
    ensures
        all_events(w, i).contains(CollisionEvent { collider_a: a, collider_b: b }) <==> (a.id < i
            && b.id < coll_scan_len(w) && hit(w, a.id as int, b.id as int)),
    decreases i,
{
    let ev = CollisionEvent { collider_a: a, collider_b: b };
    let n = coll_scan_len(w);
    if i == 0 {
        assert(!all_events(w, 0).contains(ev));
    } else {
        lemma_all_events_contains(w, i - 1, a, b);
        lemma_row_events_contains(w, i - 1, n, a, b);
        let prefix = all_events(w, i - 1);
        let row = row_events(w, i - 1, n);
        let whole = all_events(w, i);
        assert(whole == prefix + row);
        if whole.contains(ev) {
            let k = choose|k: int| 0 <= k < whole.len() && whole[k] == ev;
            if k < prefix.len() {
                assert(prefix[k] == ev);
                assert(prefix.contains(ev));
            } else {
                assert(row[k - prefix.len()] == ev);
                assert(row.contains(ev));
            }
        }
        if a.id < i && b.id < n && hit(w, a.id as int, b.id as int) {
            if a.id < i - 1 {
                assert(prefix.contains(ev));
                let k = choose|k: int| 0 <= k < prefix.len() && prefix[k] == ev;
                assert(whole[k] == ev);
            } else {
                assert(row.contains(ev));
                let k = choose|k: int| 0 <= k < row.len() && row[k] == ev;
                assert(whole[prefix.len() + k] == ev);
            }
        }
    }
}

/// Collision symmetry: a tick emits `(a, b)` exactly when it emits
/// `(b, a)` — each physical overlap appears once in each direction, and
/// never for a pair whose boxes do not strictly overlap.
pub proof fn lemma_collision_symmetry(w: WorldView, a: Entity, b: Entity)
    requires
        coll_scan_len(w) <= usize::MAX,
    ensures
        all_events(w, coll_scan_len(w)).contains(
            CollisionEvent { collider_a: a, collider_b: b },
        ) <==> all_events(w, coll_scan_len(w)).contains(
            CollisionEvent { collider_a: b, collider_b: a },
        ),
        all_events(w, coll_scan_len(w)).contains(
            CollisionEvent { collider_a: a, collider_b: b },
        ) <==> (a.id < coll_scan_len(w) && b.id < coll_scan_len(w) && hit(
            w,
            a.id as int,
            b.id as int,
        )),
{
    let n = coll_scan_len(w);
    lemma_all_events_contains(w, n, a, b);
    lemma_all_events_contains(w, n, b, a);
}

/// Executable overlap test over the entities' boxes, exact over the
/// fixed-point coordinates.
fn overlaps(pa: &Position, ca: &Collider, pb: &Position, cb: &Collider) -> (r: bool)
    ensures
        r == boxes_overlap(*pa, *ca, *pb, *cb),
{
    let aw: i128 = (ca.width / 2) as i128;
    let ah: i128 = (ca.height / 2) as i128;
    let bw: i128 = (cb.width / 2) as i128;
    let bh: i128 = (cb.height / 2) as i128;
    let ax: i128 = pa.x as i128;
    let ay: i128 = pa.y as i128;
    let bx: i128 = pb.x as i128;
    let by: i128 = pb.y as i128;
    (ax + aw > bx - bw) && (ax - aw < bx + bw) && (ay + ah > by - bh) && (ay - ah < by + bh)
}

/// The system that detects collisions and broadcasts them.
pub struct CollisionSys;

impl CollisionSys {
    /// Runs the collision pass: appends one event per detected ordered
    /// pair to the world's collision channel, in scan order. Reader
    /// cursors and all component state are untouched.
    pub fn run(world: &mut World)
        ensures
            final(world)@ == collision_step(old(world)@),
    {
        let ghost w0 = old(world)@;
        let ghost tgt = collision_step(old(world)@);
        let cap_p = world.positions.capacity();
        let cap_c = world.colliders.capacity();
        let n: usize = if cap_p <= cap_c {
            cap_p
        } else {
            cap_c
        };
        let mut i: usize = 0;
        proof {
            assert(world@.collision_events =~= w0.collision_events + all_events(w0, 0));
        }
        while i < n
            invariant
                w0 == old(world)@,
                0 <= i <= n,
                n == coll_scan_len(w0),
                world@.collision_events == w0.collision_events + all_events(w0, i as int),
                world@ == (WorldView { collision_events: world@.collision_events, ..w0 }),
            decreases n - i,
        {
            let e_i = Entity { id: i };
            let src_opt: Option<(Position, Collider)> = match (world.positions.get(e_i),
                world.colliders.get(e_i)) {
                (Some(p), Some(c)) => Some((*p, *c)),
                _ => None,
            };
            let mut j: usize = 0;
            proof {
                assert(world@.collision_events =~= w0.collision_events + all_events(w0, i as int)
                    + row_events(w0, i as int, 0));
            }
            while j < n
                invariant
                    w0 == old(world)@,
                    0 <= j <= n,
                    0 <= i < n,
                    n == coll_scan_len(w0),
                    e_i == (Entity { id: i }),
                    src_opt == (if coll_present(w0, i as int) {
                        Some((w0.positions[i as int]->0, w0.colliders[i as int]->0))
                    } else {
                        None::<(Position, Collider)>
                    }),
                    world@.collision_events == w0.collision_events + all_events(w0, i as int)
                        + row_events(w0, i as int, j as int),
                    world@ == (WorldView { collision_events: world@.collision_events, ..w0 }),
                decreases n - j,
            {
                if j != i {
                    if let Some((p_i, c_i)) = src_opt {
                        let e_j = Entity { id: j };
                        let dst_opt: Option<(Position, Collider)> = match (world.positions.get(
                            e_j,
                        ), world.colliders.get(e_j)) {
                            (Some(p), Some(c)) => Some((*p, *c)),
                            _ => None,
                        };
                        if let Some((p_j, c_j)) = dst_opt {
                            if overlaps(&p_i, &c_i, &p_j, &c_j) {
                                proof {
                                    assert(hit(w0, i as int, j as int));
                                }
                                let ev = CollisionEvent { collider_a: e_i, collider_b: e_j };
                                proof {
                                    lemma_row_events_step(w0, i as int, j as int);
                                    assert(row_events(w0, i as int, j + 1) =~= row_events(
                                        w0,
                                        i as int,
                                        j as int,
                                    ).push(ev));
                                }
                                world.collision_events.single_write(ev);
                                proof {
                                    assert(world@.collision_events =~= w0.collision_events
                                        + all_events(w0, i as int) + row_events(
                                        w0,
                                        i as int,
                                        j + 1,
                                    ));
                                }
                            } else {
                                proof {
                                    assert(!hit(w0, i as int, j as int));
                                    lemma_row_events_step(w0, i as int, j as int);
                                    assert(world@.collision_events =~= w0.collision_events
                                        + all_events(w0, i as int) + row_events(
                                        w0,
                                        i as int,
                                        j + 1,
                                    ));
                                }
                            }
                        } else {
                            proof {
                                assert(!hit(w0, i as int, j as int));
                                lemma_row_events_step(w0, i as int, j as int);
                                assert(world@.collision_events =~= w0.collision_events
                                    + all_events(w0, i as int) + row_events(w0, i as int, j + 1));
                            }
                        }
                    } else {
                        proof {
                            assert(!hit(w0, i as int, j as int));
                            lemma_row_events_step(w0, i as int, j as int);
                            assert(world@.collision_events =~= w0.collision_events + all_events(
                                w0,
                                i as int,
                            ) + row_events(w0, i as int, j + 1));
                        }
                    }
                } else {
                    proof {
                        assert(!hit(w0, i as int, j as int));
                        lemma_row_events_step(w0, i as int, j as int);
                        assert(world@.collision_events =~= w0.collision_events + all_events(
                            w0,
                            i as int,
                        ) + row_events(w0, i as int, j + 1));
                    }
                }
                j = j + 1;
            }
            proof {
                lemma_all_events_step(w0, i as int);
                assert(world@.collision_events =~= w0.collision_events + all_events(w0, i + 1));
            }
            i = i + 1;
        }
        proof {
            assert(world@.collision_events =~= tgt.collision_events);
            assert(world@ =~= tgt);
        }
    }
}

} // verus!
