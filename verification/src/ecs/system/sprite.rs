//! The sprite-animation engine: a deterministic per-entity state machine
//! stepped once per tick with the tick's elapsed time.
//!
//! Time is accumulated as a fractional frame count in microseconds: each
//! tick contributes `dt` to the accumulator, whole multiples of the
//! schema's `frame_time` become frames to advance, and the remainder is
//! kept for the next tick, so no time is lost or double-counted across
//! ticks. A tick implying more than 255 whole frames short-circuits and
//! discards the excess instead of looping in proportion to `dt`.

use vstd::prelude::*;
use vstd::arithmetic::div_mod::{lemma_fundamental_div_mod, lemma_fundamental_div_mod_converse};
use vstd::string::StringExecFns;
use crate::ecs::Entity;
use crate::ecs::component::{Animation, Sprite};
use crate::ecs::system::{filtered_records, lemma_filtered_records_step};
use crate::ecs::world::{World, WorldView};
use crate::error::EngineError;
use crate::model::spritesheet::{AnimMode, AnimationSchema, assoc_find};
use crate::shared::arc_clone;

verus! {

/// The part of an animation's state the frame-advance loop works on.
pub ghost struct AnimCursor {
    pub frame: int,
    pub reversing: bool,
    pub done: bool,
}

/// The cursor of a playback state.
pub open spec fn cursor_of(a: Animation) -> AnimCursor {
    AnimCursor { frame: a.frame as int, reversing: a.is_reversing, done: a.is_done }
}

/// A helper measure for termination of [`advance_cursor`]: a flip consumes
/// no frames, but at most two flips can happen before a frame is consumed.
pub open spec fn cursor_rank(c: AnimCursor) -> int {
    if !c.reversing {
        1
    } else if c.frame == 0 {
        2
    } else {
        0
    }
}

/// The frame-advance state machine: consumes `adv` whole frames from
/// cursor `c` under schema `s`.
///
/// Forward playback advances until the final frame; reaching it with steps
/// left applies the mode: reversing modes flip and keep consuming
/// backwards, looping modes wrap to frame zero at the cost of one extra
/// frame, `OncePersist` freezes on the final frame, and `Once` freezes
/// there and marks the state done. Reverse playback mirrors this toward
/// frame zero: a looping mode flips forward again, any other marks done.
pub open spec fn advance_cursor(c: AnimCursor, adv: int, s: AnimationSchema) -> AnimCursor
    decreases adv, cursor_rank(c),
        when s.wf() && 0 <= c.frame < s.frames && adv >= 0
{
    if adv <= 0 || c.done {
        c
    } else if !c.reversing {
        let room = s.frames - 1 - c.frame;
        if adv <= room {
            AnimCursor { frame: c.frame + adv, reversing: false, done: false }
        } else if s.mode.spec_reverses() {
            advance_cursor(
                AnimCursor { frame: s.frames - 1, reversing: true, done: false },
                adv - room,
                s,
            )
        } else if s.mode.spec_loops() {
            advance_cursor(AnimCursor { frame: 0, reversing: false, done: false }, adv - room - 1, s)
        } else if s.mode == AnimMode::OncePersist {
            AnimCursor { frame: s.frames - 1, reversing: false, done: false }
        } else {
            AnimCursor { frame: s.frames - 1, reversing: false, done: true }
        }
    } else {
        if adv <= c.frame {
            AnimCursor { frame: c.frame - adv, reversing: true, done: false }
        } else if s.mode.spec_loops() {
            advance_cursor(AnimCursor { frame: 0, reversing: false, done: false }, adv - c.frame, s)
        } else {
            AnimCursor { frame: 0, reversing: true, done: true }
        }
    }
}

/// The advance loop keeps the cursor inside the schema: the frame stays in
/// range and reversal only arises in modes that reverse.
pub proof fn lemma_advance_cursor_wf(c: AnimCursor, adv: int, s: AnimationSchema)
    requires
        s.wf(),
        0 <= c.frame < s.frames,
        adv >= 0,
        c.reversing ==> s.mode.spec_reverses(),
    ensures
        0 <= advance_cursor(c, adv, s).frame < s.frames,
        advance_cursor(c, adv, s).reversing ==> s.mode.spec_reverses(),
    decreases adv, cursor_rank(c),
{
    if adv <= 0 || c.done {
    } else if !c.reversing {
        let room = s.frames - 1 - c.frame;
        if adv <= room {
        } else if s.mode.spec_reverses() {
            lemma_advance_cursor_wf(
                AnimCursor { frame: s.frames - 1, reversing: true, done: false },
                adv - room,
                s,
            );
        } else if s.mode.spec_loops() {
            lemma_advance_cursor_wf(
                AnimCursor { frame: 0, reversing: false, done: false },
                adv - room - 1,
                s,
            );
        }
    } else {
        if adv <= c.frame {
        } else if s.mode.spec_loops() {
            lemma_advance_cursor_wf(
                AnimCursor { frame: 0, reversing: false, done: false },
                adv - c.frame,
                s,
            );
        }
    }
}

/// The looping mode's closed form: however many whole frames a tick
/// brings, forward playback under `Loop` lands on the frame sum modulo the
/// frame count — each wrap shows frame zero as its one extra frame — and
/// playback never reverses or finishes. With three frames and one frame
/// per tick this is the sequence 0, 1, 2, 0, 1, 2 and so on.
pub proof fn lemma_loop_mode_wraps(f: int, adv: int, s: AnimationSchema)
    requires
        s.wf(),
        s.mode == AnimMode::Loop,
        0 <= f < s.frames,
        adv >= 0,
    ensures
        advance_cursor(AnimCursor { frame: f, reversing: false, done: false }, adv, s)
            == (AnimCursor { frame: (f + adv) % (s.frames as int), reversing: false, done: false }),
    decreases adv,
{
    let n = s.frames as int;
    if adv == 0 {
        vstd::arithmetic::div_mod::lemma_small_mod(f as nat, n as nat);
    } else {
        let room = n - 1 - f;
        if adv <= room {
            vstd::arithmetic::div_mod::lemma_small_mod((f + adv) as nat, n as nat);
        } else {
            lemma_loop_mode_wraps(0, adv - room - 1, s);
            vstd::arithmetic::div_mod::lemma_mod_multiples_vanish(-1, f + adv, n);
            assert(n * -1 + (f + adv) == adv - room - 1);
        }
    }
}

/// The mode correctness table for a tick that reaches the frame boundary:
/// `Once` stops on the final frame and marks the state done;
/// `OncePersist` freezes there without marking done; `Loop` wraps and
/// lands on the frame sum modulo the frame count; the reversing modes
/// flip at the boundary and consume the leftover step backwards.
pub proof fn lemma_mode_table(f: int, adv: int, s: AnimationSchema)
    requires
        s.wf(),
        0 <= f < s.frames,
        adv > s.frames - 1 - f,
    ensures
        ({
            let c = AnimCursor { frame: f, reversing: false, done: false };
            let r = advance_cursor(c, adv, s);
            match s.mode {
                AnimMode::Once => r == (AnimCursor {
                    frame: s.frames - 1,
                    reversing: false,
                    done: true,
                }),
                AnimMode::OncePersist => r == (AnimCursor {
                    frame: s.frames - 1,
                    reversing: false,
                    done: false,
                }),
                AnimMode::Loop => r == (AnimCursor {
                    frame: (f + adv) % (s.frames as int),
                    reversing: false,
                    done: false,
                }),
                AnimMode::Reverse | AnimMode::LoopReverse => r == advance_cursor(
                    AnimCursor { frame: s.frames - 1, reversing: true, done: false },
                    adv - (s.frames - 1 - f),
                    s,
                ),
            }
        }),
{
    if s.mode == AnimMode::Loop {
        lemma_loop_mode_wraps(f, adv, s);
    }
}

/// Bounded work: a tick whose delta implies more than 255 whole frames
/// short-circuits. The playback state keeps its frame, direction and done
/// flag — only the accumulator remainder is kept — and the sprite is
/// pinned to the animation root plus the frozen frame; the excess is
/// discarded instead of looped over.
pub proof fn lemma_bounded_work(sp: Sprite, a: Animation, dt: int)
    requires
        a.schema is Some,
        whole_frames(a.frame_progress as int, dt, (*a.schema->0).frame_time as int) > 255,
    ensures
        step_animation(a, dt).frame == a.frame,
        step_animation(a, dt).is_reversing == a.is_reversing,
        step_animation(a, dt).is_done == a.is_done,
        step_animation(a, dt).schema == a.schema,
        step_sprite(sp, a, dt).id_offset == ((*a.schema->0).root + a.frame) as i32,
        step_sprite(sp, a, dt).schema == sp.schema,
{
}

/// Whole frames one tick of `dt` produces from an accumulator at
/// `progress`, with `frame_time` microseconds per frame.
pub open spec fn whole_frames(progress: int, dt: int, frame_time: int) -> int {
    (progress + dt) / frame_time
}

/// What stays in the accumulator after the tick.
pub open spec fn progress_after(progress: int, dt: int, frame_time: int) -> int {
    (progress + dt) % frame_time
}

/// One tick of the animation state machine on a playback state.
pub open spec fn step_animation(a: Animation, dt: int) -> Animation {
    match a.schema {
        None => a,
        Some(schema) => {
            let s = *schema;
            let w = whole_frames(a.frame_progress as int, dt, s.frame_time as int);
            let p = progress_after(a.frame_progress as int, dt, s.frame_time as int);
            if w > 255 {
                Animation { frame_progress: p as u32, ..a }
            } else {
                let c = advance_cursor(cursor_of(a), w, s);
                Animation {
                    frame: c.frame as u8,
                    frame_progress: p as u32,
                    is_reversing: c.reversing,
                    is_done: c.done,
                    schema: a.schema,
                }
            }
        },
    }
}

/// What one tick does to the sprite inside the frame-advance call itself:
/// only the pathological-stall short-circuit writes it, pinning the drawn
/// tile to the animation root plus the frozen frame.
pub open spec fn step_sprite(sp: Sprite, a: Animation, dt: int) -> Sprite {
    match a.schema {
        None => sp,
        Some(schema) => {
            let s = *schema;
            let w = whole_frames(a.frame_progress as int, dt, s.frame_time as int);
            if w > 255 {
                Sprite { id_offset: (s.root + a.frame) as i32, schema: sp.schema }
            } else {
                sp
            }
        },
    }
}

/// The per-entity gate the batch pass applies before stepping: the
/// playback state must be steppable and, when an animation is active, the
/// sprite's own root must fit the atlas bound so the tile offset is
/// computable. Entities failing it are skipped, never aborting the batch.
pub open spec fn anim_ok(sp: Sprite, a: Animation) -> bool {
    a.wf() && (a.schema is Some ==> (*sp.schema).root <= 0xFFFF)
}

/// The sprite after the batch pass: stepped, then re-pinned so the drawn
/// tile equals the animation's root plus the current frame (or the
/// sprite's own root when no animation is active).
pub open spec fn tick_sprite(sp: Sprite, a: Animation, dt: int) -> Sprite {
    let a2 = step_animation(a, dt);
    let off = match a2.schema {
        None => 0int,
        Some(schema) => (*schema).root + a2.frame - (*sp.schema).root,
    };
    Sprite { id_offset: off as i32, schema: sp.schema }
}

/// Whether entity `i` carries both a sprite and an animation.
pub open spec fn anim_present(w: WorldView, i: int) -> bool {
    &&& 0 <= i < w.sprites.len()
    &&& 0 <= i < w.animations.len()
    &&& w.sprites[i] is Some
    &&& w.animations[i] is Some
}

/// How many entity indices the animation pass scans.
pub open spec fn anim_scan_len(w: WorldView) -> int {
    if w.sprites.len() <= w.animations.len() {
        w.sprites.len() as int
    } else {
        w.animations.len() as int
    }
}

/// The finished entities among the first `n`, in index order: those the
/// pass queues for deletion instead of stepping.
pub open spec fn done_entities(w: WorldView, n: int) -> Seq<Entity>
    decreases n,
{
    if n <= 0 {
        Seq::empty()
    } else {
        done_entities(w, n - 1) + (if anim_present(w, n - 1) && (w.animations[n - 1]->0).is_done {
            seq![Entity { id: (n - 1) as usize }]
        } else {
            Seq::empty()
        })
    }
}

/// A finished entity among the scanned ones is queued: `done_entities`
/// holds its identifier.
pub proof fn lemma_done_entities_has(w: WorldView, n: int, i: int)
    requires
        0 <= i < n,
        n <= usize::MAX,
        anim_present(w, i),
        (w.animations[i]->0).is_done,
    ensures
        done_entities(w, n).contains(Entity { id: i as usize }),
    decreases n,
{
    let e = Entity { id: i as usize };
    if i == n - 1 {
        let whole = done_entities(w, n);
        let prefix = done_entities(w, n - 1);
        assert(whole == prefix + seq![e]);
        assert(whole[whole.len() - 1] == e);
    } else {
        lemma_done_entities_has(w, n - 1, i);
        let prefix = done_entities(w, n - 1);
        let k = choose|k: int| 0 <= k < prefix.len() && prefix[k] == e;
        assert(done_entities(w, n)[k] == e);
    }
}

/// Terminal cleanup: an entity whose animation is done when the pass runs
/// is queued for deletion, and the following maintenance point removes all
/// its components — so render passes never see a finished sprite past the
/// tick that finished it.
pub proof fn lemma_finished_entity_is_purged(w: WorldView, i: int)
    requires
        0 <= i < anim_scan_len(w),
        anim_scan_len(w) <= usize::MAX,
        anim_present(w, i),
        (w.animations[i]->0).is_done,
    ensures
        crate::ecs::world::maintained(anim_system_step(w)).animations[i] is None,
        crate::ecs::world::maintained(anim_system_step(w)).sprites[i] is None,
{
    let stepped = anim_system_step(w);
    lemma_done_entities_has(w, anim_scan_len(w), i);
    let done = done_entities(w, anim_scan_len(w));
    let k = choose|k: int| 0 <= k < done.len() && done[k] == (Entity { id: i as usize });
    assert(stepped.pending[w.pending.len() + k] == (Entity { id: i as usize }));
    assert(crate::ecs::world::queued(stepped.pending, i));
}

/// Whether the batch pass steps entity `i` (rather than deleting or
/// skipping it).
pub open spec fn anim_steps(w: WorldView, i: int) -> bool {
    &&& anim_present(w, i)
    &&& !(w.animations[i]->0).is_done
    &&& anim_ok(w.sprites[i]->0, w.animations[i]->0)
}

/// One run of the animation pass over a whole world: every entity with a
/// sprite and an animation is stepped by the world's delta time; finished
/// entities are queued for deletion instead; entities whose state the
/// engine cannot step are left untouched. Nothing else changes.
pub open spec fn anim_system_step(w: WorldView) -> WorldView {
    let dt = w.delta_time.0 as int;
    WorldView {
        sprites: Seq::new(
            w.sprites.len(),
            |i: int|
                if anim_steps(w, i) {
                    Some(tick_sprite(w.sprites[i]->0, w.animations[i]->0, dt))
                } else {
                    w.sprites[i]
                },
        ),
        animations: Seq::new(
            w.animations.len(),
            |i: int|
                if anim_steps(w, i) {
                    Some(step_animation(w.animations[i]->0, dt))
                } else {
                    w.animations[i]
                },
        ),
        pending: w.pending + done_entities(w, anim_scan_len(w)),
        ..w
    }
}

/// Everything the animation pass leaves alone.
pub open spec fn anim_frame_eq(a: WorldView, b: WorldView) -> bool {
    &&& a.next_id == b.next_id
    &&& a.positions == b.positions
    &&& a.scales == b.scales
    &&& a.colors == b.colors
    &&& a.velocities == b.velocities
    &&& a.colliders == b.colliders
    &&& a.lights == b.lights
    &&& a.texts == b.texts
    &&& a.lifetimes == b.lifetimes
    &&& a.scalings == b.scalings
    &&& a.wanderings == b.wanderings
    &&& a.move_targets == b.move_targets
    &&& a.tiles == b.tiles
    &&& a.floors == b.floors
    &&& a.walls == b.walls
    &&& a.delta_time == b.delta_time
    &&& a.window_size == b.window_size
    &&& a.view_offset == b.view_offset
    &&& a.spritesheet_path == b.spritesheet_path
    &&& a.collision_events == b.collision_events
}

/// What requesting an animation by name does to a playback state: a
/// lookup miss leaves the state as it is; re-requesting the animation
/// already playing (same root, frame count and mode) is a no-op; any other
/// hit restarts playback at frame zero of the new animation.
pub open spec fn select_animation(cur: Animation, sp: Sprite, name: Seq<char>) -> Animation {
    match assoc_find((*sp.schema).animations@, name) {
        None => cur,
        Some(new_schema) => {
            if cur.schema is Some && (*cur.schema->0).same_animation(*new_schema) {
                cur
            } else {
                Animation {
                    frame: 0,
                    frame_progress: 0,
                    is_reversing: false,
                    is_done: false,
                    schema: Some(new_schema),
                }
            }
        },
    }
}

/// Requesting the same animation twice with no tick between is the same
/// as requesting it once: the second request changes nothing.
pub proof fn lemma_select_animation_idempotent(cur: Animation, sp: Sprite, name: Seq<char>)
    ensures
        select_animation(select_animation(cur, sp, name), sp, name) == select_animation(
            cur,
            sp,
            name,
        ),
{
}

/// The system that advances sprite animations. The heart of the engine:
/// it must produce bit-exact frame state from irregular time steps.
pub struct AnimSpriteSys;

impl AnimSpriteSys {
    /// Retargets a playback state to the sprite's `"idle"` animation if
    /// the sprite has one, else leaves it static, resetting frame,
    /// progress and reversal either way.
    pub fn sprite_to_idle(sprite: &Sprite, anim: &mut Animation)
        ensures
            final(anim).frame == 0,
            final(anim).frame_progress == 0,
            !final(anim).is_reversing,
            final(anim).is_done == old(anim).is_done,
            final(anim).schema == assoc_find((*sprite.schema).animations@, "idle"@),
    {
        anim.frame = 0;
        anim.frame_progress = 0;
        anim.is_reversing = false;
        anim.schema = match sprite.schema.animation("idle") {
            Some(s) => Some(arc_clone(s)),
            None => None,
        };
    }

    /// Steps one entity's animation by `dt` microseconds.
    ///
    /// The accumulator takes `dt`; its whole-frame part drives the
    /// [`advance_cursor`] machine; the remainder stays for the next tick.
    /// More than 255 whole frames in one tick short-circuits: the sprite
    /// is pinned to the animation root plus the current frame and the
    /// excess is discarded, so a pathological stall costs bounded work.
    pub fn advance_animation(s: &mut Sprite, a: &mut Animation, dt: u32)
        requires
            old(a).wf(),
        ensures
            *final(a) == step_animation(*old(a), dt as int),
            *final(s) == step_sprite(*old(s), *old(a), dt as int),
            final(a).wf(),
    {
        let schema_arc = match &a.schema {
            Some(sc) => arc_clone(sc),
            None => {
                return ;
            },
        };
        let ghost sch = *schema_arc;
        let ghost p0 = old(a).frame_progress as int;
        let ghost w = whole_frames(p0, dt as int, sch.frame_time as int);
        let ft: u32 = schema_arc.frame_time;
        let sum: u64 = a.frame_progress as u64 + dt as u64;
        let w64: u64 = sum / (ft as u64);
        let rem: u64 = sum % (ft as u64);
        proof {
            assert(w64 == w);
            assert(rem == progress_after(p0, dt as int, sch.frame_time as int));
            assert(rem < ft);
        }
        a.frame_progress = rem as u32;
        if w64 > 255 {
            let tile: u32 = schema_arc.root + a.frame as u32;
            s.id_offset = tile as i32;
            return ;
        }
        proof {
            lemma_advance_cursor_wf(cursor_of(*old(a)), w, sch);
        }
        if a.is_done {
            proof {
                assert(advance_cursor(cursor_of(*old(a)), w, sch) == cursor_of(*old(a)));
                assert(*a == step_animation(*old(a), dt as int));
            }
            return ;
        }
        let mut adv: u8 = w64 as u8;
        let ghost target = advance_cursor(cursor_of(*old(a)), w, sch);
        proof {
            assert(cursor_of(*a) == cursor_of(*old(a)));
        }
        while adv > 0
            invariant
                sch.wf(),
                a.schema == old(a).schema,
                sch == *schema_arc,
                a.frame < sch.frames,
                a.is_reversing ==> sch.mode.spec_reverses(),
                a.frame_progress == progress_after(old(a).frame_progress as int, dt as int,
                sch.frame_time as int),
                a.is_done ==> adv == 0,
                advance_cursor(cursor_of(*a), adv as int, sch) == target,
                *s == *old(s),
            decreases adv, cursor_rank(cursor_of(*a)),
        {
            let ghost c_pre = cursor_of(*a);
            let ghost adv_pre = adv as int;
            if !a.is_reversing {
                let room: u8 = schema_arc.frames - 1 - a.frame;
                if adv <= room {
                    a.frame = a.frame + adv;
                    adv = 0;
                } else if schema_arc.mode.reverses() {
                    adv = adv - room;
                    a.frame = schema_arc.frames - 1;
                    a.is_reversing = true;
                } else if schema_arc.mode.loops() {
                    adv = adv - room - 1;
                    a.frame = 0;
                } else if schema_arc.mode == AnimMode::OncePersist {
                    a.frame = schema_arc.frames - 1;
                    adv = 0;
                } else {
                    a.frame = schema_arc.frames - 1;
                    a.is_done = true;
                    adv = 0;
                }
            } else {
                if adv <= a.frame {
                    a.frame = a.frame - adv;
                    adv = 0;
                } else if schema_arc.mode.loops() {
                    adv = adv - a.frame;
                    a.frame = 0;
                    a.is_reversing = false;
                } else {
                    a.frame = 0;
                    a.is_done = true;
                    adv = 0;
                }
            }
            proof {
                assert(advance_cursor(c_pre, adv_pre, sch) == advance_cursor(
                    cursor_of(*a),
                    adv as int,
                    sch,
                ));
            }
        }
        proof {
            assert(advance_cursor(cursor_of(*a), 0, sch) == cursor_of(*a));
            assert(cursor_of(*a) == target);
            assert(*a == step_animation(*old(a), dt as int));
        }
    }

    /// Runs the animation pass over the whole world, stepping every entity
    /// that carries both a sprite and an animation by the world's delta
    /// time. A finished animation queues its entity for deletion instead
    /// of stepping, so render systems never see a finished sprite. An
    /// entity whose playback state the engine cannot step is skipped on
    /// its own; the batch never aborts.
    pub fn run(world: &mut World)
        ensures
            final(world)@ == anim_system_step(old(world)@),
    {
        let ghost w0 = old(world)@;
        let ghost tgt = anim_system_step(old(world)@);
        let dt = world.delta_time.0;
        let cap_s = world.sprites.capacity();
        let cap_a = world.animations.capacity();
        let n: usize = if cap_s <= cap_a {
            cap_s
        } else {
            cap_a
        };
        let mut i: usize = 0;
        proof {
            assert(world@.pending =~= w0.pending + done_entities(w0, 0));
        }
        while i < n
            invariant
                w0 == old(world)@,
                0 <= i <= n,
                n == anim_scan_len(w0),
                dt == w0.delta_time.0,
                world@.sprites.len() == w0.sprites.len(),
                world@.animations.len() == w0.animations.len(),
                forall|j: int|
                    0 <= j < world@.sprites.len() ==> (#[trigger] world@.sprites[j]) == (if j < i
                        && anim_steps(
                        w0,
                        j,
                    ) {
                        Some(tick_sprite(w0.sprites[j]->0, w0.animations[j]->0, dt as int))
                    } else {
                        w0.sprites[j]
                    }),
                forall|j: int|
                    0 <= j < world@.animations.len() ==> (#[trigger] world@.animations[j]) == (if j
                        < i && anim_steps(w0, j) {
                        Some(step_animation(w0.animations[j]->0, dt as int))
                    } else {
                        w0.animations[j]
                    }),
                world@.pending == w0.pending + done_entities(w0, i as int),
                anim_frame_eq(world@, w0),
            decreases n - i,
        {
            let e = Entity { id: i };
            let sp_opt: Option<Sprite> = match world.sprites.get(e) {
                Some(s) => {
                    let d = s.duplicate();
                    proof {
                        assert(world@.sprites[i as int] == Some(d));
                        assert(w0.sprites[i as int] == Some(d));
                    }
                    Some(d)
                },
                None => None,
            };
            let an_opt: Option<Animation> = match world.animations.get(e) {
                Some(x) => {
                    let d = x.duplicate();
                    proof {
                        assert(world@.animations[i as int] == Some(d));
                        assert(w0.animations[i as int] == Some(d));
                    }
                    Some(d)
                },
                None => None,
            };
            proof {
                assert(sp_opt is Some <==> (i < w0.sprites.len() && w0.sprites[i as int] is Some));
                assert(an_opt is Some <==> (i < w0.animations.len() && w0.animations[i
                    as int] is Some));
            }
            match (sp_opt, an_opt) {
                (Some(mut sp), Some(mut an)) => {
                    proof {
                        assert(anim_present(w0, i as int));
                        assert(sp == w0.sprites[i as int]->0);
                        assert(an == w0.animations[i as int]->0);
                    }
                    if an.is_done {
                        world.delete_entity(e);
                        proof {
                            assert(world@.pending =~= w0.pending + done_entities(w0, i + 1));
                        }
                    } else {
                        let ok = an.is_wf() && (match &an.schema {
                            None => true,
                            Some(_) => sp.schema.root <= 0xFFFF,
                        });
                        proof {
                            assert(ok == anim_ok(sp, an));
                            assert(done_entities(w0, i + 1) =~= done_entities(w0, i as int));
                        }
                        if ok {
                            let ghost sp0 = sp;
                            let ghost an0 = an;
                            AnimSpriteSys::advance_animation(&mut sp, &mut an, dt);
                            let off: i32 = match &an.schema {
                                None => 0,
                                Some(sc) => {
                                    let v: i64 = sc.root as i64 + an.frame as i64
                                        - sp.schema.root as i64;
                                    proof {
                                        assert(an.wf());
                                        assert((*sc).root <= 0xFFFF);
                                        assert(sp.schema == sp0.schema);
                                        assert(-2147483648i64 <= v <= 2147483647i64);
                                    }
                                    v as i32
                                },
                            };
                            sp.id_offset = off;
                            proof {
                                world.sprites.lemma_capacity_bound();
                                world.animations.lemma_capacity_bound();
                                assert(sp == tick_sprite(sp0, an0, dt as int));
                            }
                            world.sprites.insert(e, sp);
                            world.animations.insert(e, an);
                        }
                    }
                },
                _ => {
                    proof {
                        assert(!anim_present(w0, i as int));
                        assert(done_entities(w0, i + 1) =~= done_entities(w0, i as int));
                    }
                },
            }
            i = i + 1;
        }
        proof {
            assert(world@.sprites =~= tgt.sprites);
            assert(world@.animations =~= tgt.animations);
            assert(world@ =~= tgt);
        }
    }

    /// Switches an entity to the named animation. Fails exactly when the
    /// entity lacks a sprite or an animation component; an unknown name is
    /// tolerated by leaving the current state untouched; re-requesting the
    /// animation already playing changes nothing.
    pub fn entity_to_anim(entity: &Entity, anim_name: &str, world: &mut World) -> (r: Result<
        (),
        EngineError,
    >)
        ensures
            r is Ok <==> (old(world)@.sprites.len() > entity.id && old(world)@.sprites[entity.id
                as int] is Some && old(world)@.animations.len() > entity.id
                && old(world)@.animations[entity.id as int] is Some),
            match r {
                Ok(_) => final(world)@ == (WorldView {
                    animations: old(world)@.animations.update(
                        entity.id as int,
                        Some(
                            select_animation(
                                old(world)@.animations[entity.id as int]->0,
                                old(world)@.sprites[entity.id as int]->0,
                                anim_name@,
                            ),
                        ),
                    ),
                    ..old(world)@
                }),
                Err(EngineError::AnimationError(_)) => final(world)@ == old(world)@,
                Err(_) => false,
            },
    {
        let sp = match world.sprites.get(*entity) {
            Some(s) => s.duplicate(),
            None => {
                return Err(
                    EngineError::AnimationError(
                        String::from_str("entity does not have a Sprite component"),
                    ),
                );
            },
        };
        let cur = match world.animations.get(*entity) {
            Some(a) => a.duplicate(),
            None => {
                return Err(
                    EngineError::AnimationError(
                        String::from_str("entity does not have an Animation component"),
                    ),
                );
            },
        };
        let fresh = Animation::from_name(anim_name, &sp);
        let replace: bool = match (&cur.schema, &fresh.schema) {
            (_, None) => false,
            (Some(c), Some(n)) => !(**c == **n),
            (None, Some(_)) => true,
        };
        if replace {
            proof {
                world.animations.lemma_capacity_bound();
            }
            world.animations.insert(*entity, fresh);
            proof {
                assert(final(world)@ =~= (WorldView {
                    animations: old(world)@.animations.update(
                        entity.id as int,
                        Some(
                            select_animation(
                                old(world)@.animations[entity.id as int]->0,
                                old(world)@.sprites[entity.id as int]->0,
                                anim_name@,
                            ),
                        ),
                    ),
                    ..old(world)@
                }));
            }
        } else {
            proof {
                assert(select_animation(
                    old(world)@.animations[entity.id as int]->0,
                    old(world)@.sprites[entity.id as int]->0,
                    anim_name@,
                ) == cur);
                assert(old(world)@.animations.update(entity.id as int, Some(cur))
                    =~= old(world)@.animations);
                assert(final(world)@ =~= (WorldView {
                    animations: old(world)@.animations.update(entity.id as int, Some(cur)),
                    ..old(world)@
                }));
            }
        }
        Ok(())
    }
}

/// How many entity indices the sprite extraction pass scans.
pub open spec fn sprite_scan_len(w: WorldView) -> int {
    let a = if w.sprites.len() <= w.positions.len() {
        w.sprites.len() as int
    } else {
        w.positions.len() as int
    };
    let b = if a <= w.scales.len() {
        a
    } else {
        w.scales.len() as int
    };
    if b <= w.colors.len() {
        b
    } else {
        w.colors.len() as int
    }
}

/// The draw record entity `i` yields, if it carries a sprite, a position,
/// a scale and a color: the drawn tile is the sprite schema's root plus
/// the animation-maintained offset, and the footprint packs the schema's
/// dimensions as two 4-bit extents.
pub open spec fn sprite_record(w: WorldView, i: int) -> Option<crate::renderer::RenderSprite> {
    if 0 <= i < w.sprites.len() && 0 <= i < w.positions.len() && 0 <= i < w.scales.len() && 0 <= i
        < w.colors.len() && w.sprites[i] is Some && w.positions[i] is Some && w.scales[i] is Some
        && w.colors[i] is Some {
        let sp = w.sprites[i]->0;
        let p = w.positions[i]->0;
        let s = w.scales[i]->0;
        let c = w.colors[i]->0;
        Some(
            crate::renderer::RenderSprite {
                translation: (p.x, p.y, p.z),
                scale: (s.x, s.y),
                rotation: 0,
                color: (c.r, c.g, c.b, c.a),
                sprite_id: ((*sp.schema).root + sp.id_offset) as u32,
                sprite_dims: (*sp.schema).dimensions.0 | ((*sp.schema).dimensions.1 << 4),
                sprite_flags: 0,
                reserved: 0,
            },
        )
    } else {
        None
    }
}

/// The tick's sprite draw records, in entity order.
pub open spec fn sprite_records(w: WorldView) -> Seq<crate::renderer::RenderSprite> {
    filtered_records(sprite_scan_len(w), |i: int| sprite_record(w, i))
}

/// The thread-affine system that extracts sprite draw records.
pub struct SpriteRenderSys;

impl SpriteRenderSys {
    /// Extracts one draw record per visible sprite, in entity order,
    /// touching nothing.
    pub fn run(world: &World) -> (r: Vec<crate::renderer::RenderSprite>)
        ensures
            r@ == sprite_records(world@),
    {
        let ghost w0 = world@;
        let ghost pick = |i: int| sprite_record(w0, i);
        let cap_sp = world.sprites.capacity();
        let cap_p = world.positions.capacity();
        let cap_sc = world.scales.capacity();
        let cap_c = world.colors.capacity();
        let a: usize = if cap_sp <= cap_p {
            cap_sp
        } else {
            cap_p
        };
        let b: usize = if a <= cap_sc {
            a
        } else {
            cap_sc
        };
        let n: usize = if b <= cap_c {
            b
        } else {
            cap_c
        };
        let mut out: Vec<crate::renderer::RenderSprite> = Vec::new();
        let mut i: usize = 0;
        while i < n
            invariant
                w0 == world@,
                0 <= i <= n,
                n == sprite_scan_len(w0),
                pick == (|j: int| sprite_record(w0, j)),
                out@ == filtered_records(i as int, pick),
            decreases n - i,
        {
            let e = Entity { id: i };
            let rec: Option<crate::renderer::RenderSprite> = match (world.sprites.get(e),
                world.positions.get(e), world.scales.get(e), world.colors.get(e)) {
                (Some(sp), Some(p), Some(s), Some(c)) => {
                    let root64: i64 = sp.schema.root as i64 + sp.id_offset as i64;
                    let tile: u32 = #[verifier::truncate] (root64 as u32);
                    let dims = sp.schema.dimensions;
                    Some(
                        crate::renderer::RenderSprite {
                            translation: (p.x, p.y, p.z),
                            scale: (s.x, s.y),
                            rotation: 0,
                            color: (c.r, c.g, c.b, c.a),
                            sprite_id: tile,
                            sprite_dims: dims.0 | (dims.1 << 4),
                            sprite_flags: 0,
                            reserved: 0,
                        },
                    )
                },
                _ => None,
            };
            proof {
                assert(rec == sprite_record(w0, i as int));
                lemma_filtered_records_step(i as int, pick);
            }
            match rec {
                Some(rs) => {
                    out.push(rs);
                    proof {
                        assert(out@ =~= filtered_records(i + 1, pick));
                    }
                },
                None => {
                    proof {
                        assert(out@ =~= filtered_records(i + 1, pick));
                    }
                },
            }
            i = i + 1;
        }
        out
    }
}

/// Where a tile's grid coordinate lands in world coordinates: scaled by
/// the pass's tile scale and a factor of ten, saturating at the world's
/// edge.
pub open spec fn tile_axis(t: int, s: int) -> int {
    crate::ecs::system::sat_i64(t * s * 10)
}

/// The draw record a floor or wall layer yields at entity `i`, given the
/// layer's schema root for that entity, the pass's tile scale and the
/// layer's depth.
pub open spec fn tile_record(
    w: WorldView,
    layer: Seq<Option<crate::ecs::component::Floor>>,
    i: int,
    scale: (i32, i32),
    z: i64,
) -> Option<crate::renderer::RenderSprite> {
    if 0 <= i < w.tiles.len() && 0 <= i < layer.len() && 0 <= i < w.colors.len()
        && w.tiles[i] is Some && layer[i] is Some && w.colors[i] is Some {
        let t = w.tiles[i]->0;
        let f = layer[i]->0;
        let c = w.colors[i]->0;
        Some(
            crate::renderer::RenderSprite {
                translation: (
                    tile_axis(t.pos.0 as int, scale.0 as int) as i64,
                    tile_axis(t.pos.1 as int, scale.1 as int) as i64,
                    z,
                ),
                scale,
                rotation: 0,
                color: (c.r, c.g, c.b, c.a),
                sprite_id: (*f.schema).root,
                sprite_dims: 0,
                sprite_flags: 0,
                reserved: 0,
            },
        )
    } else {
        None
    }
}

/// Executable form of [`tile_axis`].
fn tile_axis_exec(t: i32, s: i32) -> (r: i64)
    ensures
        r == tile_axis(t as int, s as int),
{
    let ta: i128 = t as i128;
    let sa: i128 = s as i128;
    proof {
        assert(-0x4000_0000_0000_0000 <= ta * sa <= 0x4000_0000_0000_0000) by (nonlinear_arith)
            requires
                -0x8000_0000 <= ta <= 0x7FFF_FFFF,
                -0x8000_0000 <= sa <= 0x7FFF_FFFF,
        ;
    }
    let prod: i128 = ta * sa * 10;
    if prod > 0x7FFF_FFFF_FFFF_FFFF {
        i64::MAX
    } else if prod < -0x8000_0000_0000_0000 {
        i64::MIN
    } else {
        prod as i64
    }
}

/// The thread-affine system that extracts tile draw records: one floor
/// pass under one wall pass, floor records first.
pub struct TileRenderSys {
    /// The pass's tile scale in milli-units per axis.
    pub scale: (i32, i32),
}

impl Default for TileRenderSys {
    /// The stock pass: five-fold tile scale.
    fn default() -> (r: TileRenderSys)
        ensures
            r.scale == (5000i32, 5000i32),
    {
        TileRenderSys { scale: (5000, 5000) }
    }
}

/// How many entity indices a tile layer pass scans.
pub open spec fn tile_scan_len(
    w: WorldView,
    layer: Seq<Option<crate::ecs::component::Floor>>,
) -> int {
    let a = if w.tiles.len() <= layer.len() {
        w.tiles.len() as int
    } else {
        layer.len() as int
    };
    if a <= w.colors.len() {
        a
    } else {
        w.colors.len() as int
    }
}

/// The floor layer's records followed by the wall layer's records: floors
/// draw beneath walls, so their pass comes first.
pub open spec fn tile_records(w: WorldView, scale: (i32, i32)) -> Seq<
    crate::renderer::RenderSprite,
> {
    filtered_records(tile_scan_len(w, w.floors), |i: int| tile_record(w, w.floors, i, scale, -10100i64))
        + filtered_records(
        tile_scan_len(w, wall_as_layer(w.walls)),
        |i: int| tile_record(w, wall_as_layer(w.walls), i, scale, -10000i64),
    )
}

/// Walls carry the same data as floors; this lets one record shape serve
/// both layers.
pub open spec fn wall_as_layer(walls: Seq<Option<crate::ecs::component::Wall>>) -> Seq<
    Option<crate::ecs::component::Floor>,
> {
    walls.map_values(
        |o: Option<crate::ecs::component::Wall>|
            match o {
                Some(wl) => Some(crate::ecs::component::Floor { schema: wl.schema }),
                None => None,
            },
    )
}

impl TileRenderSys {
    /// Extracts the tick's tile draw records: every tile with a floor and
    /// a color yields a floor record, then every tile with a wall and a
    /// color yields a wall record, each pass in entity order.
    pub fn run(&self, world: &World) -> (r: Vec<crate::renderer::RenderSprite>)
        ensures
            r@ == tile_records(world@, self.scale),
    {
        let ghost w0 = world@;
        let ghost floor_pick = |i: int| tile_record(w0, w0.floors, i, self.scale, -10100i64);
        let ghost wall_pick = |i: int| tile_record(w0, wall_as_layer(w0.walls), i, self.scale, -10000i64);
        let cap_t = world.tiles.capacity();
        let cap_f = world.floors.capacity();
        let cap_w = world.walls.capacity();
        let cap_c = world.colors.capacity();
        let a: usize = if cap_t <= cap_f {
            cap_t
        } else {
            cap_f
        };
        let n_f: usize = if a <= cap_c {
            a
        } else {
            cap_c
        };
        let b: usize = if cap_t <= cap_w {
            cap_t
        } else {
            cap_w
        };
        let n_w: usize = if b <= cap_c {
            b
        } else {
            cap_c
        };
        let mut out: Vec<crate::renderer::RenderSprite> = Vec::new();
        let mut i: usize = 0;
        while i < n_f
            invariant
                w0 == world@,
                0 <= i <= n_f,
                n_f == tile_scan_len(w0, w0.floors),
                floor_pick == (|j: int| tile_record(w0, w0.floors, j, self.scale, -10100i64)),
                out@ == filtered_records(i as int, floor_pick),
            decreases n_f - i,
        {
            let e = Entity { id: i };
            let rec: Option<crate::renderer::RenderSprite> = match (world.tiles.get(e),
                world.floors.get(e), world.colors.get(e)) {
                (Some(t), Some(f), Some(c)) => Some(
                    crate::renderer::RenderSprite {
                        translation: (
                            tile_axis_exec(t.pos.0, self.scale.0),
                            tile_axis_exec(t.pos.1, self.scale.1),
                            -10100,
                        ),
                        scale: self.scale,
                        rotation: 0,
                        color: (c.r, c.g, c.b, c.a),
                        sprite_id: f.schema.root,
                        sprite_dims: 0,
                        sprite_flags: 0,
                        reserved: 0,
                    },
                ),
                _ => None,
            };
            proof {
                assert(rec == floor_pick(i as int));
                lemma_filtered_records_step(i as int, floor_pick);
            }
            match rec {
                Some(rs) => {
                    out.push(rs);
                    proof {
                        assert(out@ =~= filtered_records(i + 1, floor_pick));
                    }
                },
                None => {
                    proof {
                        assert(out@ =~= filtered_records(i + 1, floor_pick));
                    }
                },
            }
            i = i + 1;
        }
        let ghost floor_part = out@;
        let mut k: usize = 0;
        while k < n_w
            invariant
                w0 == world@,
                0 <= k <= n_w,
                n_w == tile_scan_len(w0, wall_as_layer(w0.walls)),
                wall_pick == (|j: int| tile_record(w0, wall_as_layer(w0.walls), j, self.scale, -10000i64)),
                floor_part == filtered_records(tile_scan_len(w0, w0.floors), floor_pick),
                floor_pick == (|j: int| tile_record(w0, w0.floors, j, self.scale, -10100i64)),
                out@ == floor_part + filtered_records(k as int, wall_pick),
            decreases n_w - k,
        {
            let e = Entity { id: k };
            let rec: Option<crate::renderer::RenderSprite> = match (world.tiles.get(e),
                world.walls.get(e), world.colors.get(e)) {
                (Some(t), Some(wl), Some(c)) => Some(
                    crate::renderer::RenderSprite {
                        translation: (
                            tile_axis_exec(t.pos.0, self.scale.0),
                            tile_axis_exec(t.pos.1, self.scale.1),
                            -10000,
                        ),
                        scale: self.scale,
                        rotation: 0,
                        color: (c.r, c.g, c.b, c.a),
                        sprite_id: wl.schema.root,
                        sprite_dims: 0,
                        sprite_flags: 0,
                        reserved: 0,
                    },
                ),
                _ => None,
            };
            proof {
                assert(wall_as_layer(w0.walls).len() == w0.walls.len());
                assert(rec == wall_pick(k as int));
                lemma_filtered_records_step(k as int, wall_pick);
            }
            match rec {
                Some(rs) => {
                    out.push(rs);
                    proof {
                        assert(out@ =~= floor_part + filtered_records(k + 1, wall_pick));
                    }
                },
                None => {
                    proof {
                        assert(out@ =~= floor_part + filtered_records(k + 1, wall_pick));
                    }
                },
            }
            k = k + 1;
        }
        proof {
            assert(out@ =~= tile_records(w0, self.scale));
        }
        out
    }
}

/// The sum of a run of tick deltas.
pub open spec fn sum_of(dts: Seq<int>) -> int
    decreases dts.len(),
{
    if dts.len() == 0 {
        0
    } else {
        dts[0] + sum_of(dts.subrange(1, dts.len() as int))
    }
}

/// The total whole frames the accumulator yields over a run of ticks,
/// threading the remainder from each tick into the next.
pub open spec fn ticks_whole(p: int, dts: Seq<int>, ft: int) -> int
    decreases dts.len(),
{
    if dts.len() == 0 {
        0
    } else {
        whole_frames(p, dts[0], ft) + ticks_whole(
            progress_after(p, dts[0], ft),
            dts.subrange(1, dts.len() as int),
            ft,
        )
    }
}

/// Frame-time conservation: over any run of ticks, the cumulative whole
/// frames produced by the fractional accumulator equal the whole frames in
/// the summed time. Starting from an empty accumulator this is exactly
/// `floor(sum(dts) / frame_time)`: repeated fractional accumulation never
/// drifts.
pub proof fn lemma_frame_time_conservation(p: int, dts: Seq<int>, ft: int)
    requires
        ft >= 1,
        0 <= p < ft,
        forall|i: int| 0 <= i < dts.len() ==> dts[i] >= 0,
    ensures
        ticks_whole(p, dts, ft) == (p + sum_of(dts)) / ft,
    decreases dts.len(),
{
    if dts.len() == 0 {
        assert(0 <= p < ft);
        assert(p / ft == 0) by {
            lemma_fundamental_div_mod_converse(p, ft, 0, p);
        }
    } else {
        let d0 = dts[0];
        let rest = dts.subrange(1, dts.len() as int);
        let q = whole_frames(p, d0, ft);
        let r = progress_after(p, d0, ft);
        lemma_fundamental_div_mod(p + d0, ft);
        assert(p + d0 == ft * q + r);
        assert(0 <= r < ft);
        assert(q >= 0) by {
            if q < 0 {
                assert(ft * q <= ft * -1) by (nonlinear_arith)
                    requires ft >= 1 && q <= -1;
            }
        }
        lemma_frame_time_conservation(r, rest, ft);
        let s = sum_of(rest);
        assert(s >= 0) by {
            lemma_sum_of_nonneg(rest);
        }
        let q2 = (r + s) / ft;
        let r2 = (r + s) % ft;
        lemma_fundamental_div_mod(r + s, ft);
        assert(r + s == ft * q2 + r2);
        assert(p + d0 + s == ft * (q + q2) + r2) by {
            assert(ft * (q + q2) == ft * q + ft * q2) by (nonlinear_arith);
        }
        assert((p + d0 + s) / ft == q + q2) by {
            lemma_fundamental_div_mod_converse(p + d0 + s, ft, q + q2, r2);
        }
        assert(sum_of(dts) == d0 + s);
    }
}

/// A run of nonnegative deltas sums to a nonnegative total.
pub proof fn lemma_sum_of_nonneg(dts: Seq<int>)
    requires
        forall|i: int| 0 <= i < dts.len() ==> dts[i] >= 0,
    ensures
        sum_of(dts) >= 0,
    decreases dts.len(),
{
    if dts.len() > 0 {
        lemma_sum_of_nonneg(dts.subrange(1, dts.len() as int));
    }
}

} // verus!
