//! The system scheduler: an ordered registry of tagged system descriptors,
//! split into parallel-eligible simulation systems and thread-affine
//! render systems. At build time the scheduler validates that no two
//! concurrently schedulable systems declare overlapping write sets, or a
//! write set overlapping another's read set, unless a declared dependency
//! edge orders them; a violation is a fatal configuration error. At
//! dispatch time the parallel systems run first (here sequentially in
//! registration order, a valid linearization of any conflict-free
//! concurrent execution), then the thread-affine systems run strictly
//! after them, in registration order, preserving the visual layering.

use vstd::prelude::*;
use crate::ecs::system::collision::{CollisionSys, collision_step};
use crate::ecs::system::light::{LightRenderSys, light_records};
use crate::ecs::system::movement::{VelocitySys, velocity_step};
use crate::ecs::system::particle::{ParticleSys, particle_step};
use crate::ecs::system::sprite::{
    AnimSpriteSys, SpriteRenderSys, TileRenderSys, anim_system_step, sprite_records, tile_records,
};
use crate::ecs::system::text::{TextRenderSys, text_records};
use crate::ecs::world::{World, WorldView};
use crate::error::EngineError;
use crate::renderer::{RenderLight, RenderSprite, RenderString};

verus! {

pub const TAG_POSITION: u32 = 1;

pub const TAG_SCALE: u32 = 2;

pub const TAG_COLOR: u32 = 3;

pub const TAG_SPRITE: u32 = 4;

pub const TAG_ANIMATION: u32 = 5;

pub const TAG_VELOCITY: u32 = 6;

pub const TAG_COLLIDER: u32 = 7;

pub const TAG_POINT_LIGHT: u32 = 8;

pub const TAG_TEXT: u32 = 9;

pub const TAG_LIFETIME: u32 = 10;

pub const TAG_SCALING: u32 = 11;

pub const TAG_WANDERING: u32 = 12;

pub const TAG_TILE: u32 = 13;

pub const TAG_FLOOR: u32 = 14;

pub const TAG_WALL: u32 = 15;

pub const TAG_DELTA_TIME: u32 = 16;

pub const TAG_WINDOW_SIZE: u32 = 17;

pub const TAG_VIEW_OFFSET: u32 = 18;

pub const TAG_COLLISION_EVENTS: u32 = 19;

pub const TAG_ENTITIES: u32 = 20;

/// The built-in system routines a descriptor can name.
#[derive(Debug, Clone, Copy, PartialEq, Eq, Structural)]
pub enum SystemKind {
    /// Pairwise collision detection into the event channel.
    Collision,
    /// Particle lifetime and scaling upkeep.
    Particle,
    /// Velocity integration.
    Velocity,
    /// Sprite-animation advancement.
    AnimSprite,
    /// The screen-clear render pass.
    RenderClear,
    /// Sprite draw-record extraction.
    SpriteRender,
    /// Text draw-record extraction.
    TextRender,
    /// Tile draw-record extraction.
    TileRender,
    /// Light draw-record extraction.
    LightRender,
}

impl SystemKind {
    /// Whether the kind is a render pass: it only reads the world.
    pub open spec fn is_render(self) -> bool {
        match self {
            SystemKind::RenderClear
            | SystemKind::SpriteRender
            | SystemKind::TextRender
            | SystemKind::TileRender
            | SystemKind::LightRender => true,
            _ => false,
        }
    }

    /// The component and resource tags the kind's routine reads.
    pub open spec fn spec_reads(self) -> Seq<u32> {
        match self {
            SystemKind::Collision => seq![TAG_POSITION, TAG_COLLIDER],
            SystemKind::Particle => seq![TAG_SCALING, TAG_DELTA_TIME],
            SystemKind::Velocity => seq![TAG_VELOCITY, TAG_DELTA_TIME],
            SystemKind::AnimSprite => seq![TAG_DELTA_TIME],
            SystemKind::RenderClear => seq![],
            SystemKind::SpriteRender => seq![
                TAG_SPRITE,
                TAG_POSITION,
                TAG_SCALE,
                TAG_COLOR,
                TAG_WINDOW_SIZE,
                TAG_VIEW_OFFSET,
            ],
            SystemKind::TextRender => seq![TAG_TEXT, TAG_POSITION, TAG_COLOR, TAG_WINDOW_SIZE],
            SystemKind::TileRender => seq![
                TAG_TILE,
                TAG_FLOOR,
                TAG_WALL,
                TAG_COLOR,
                TAG_WINDOW_SIZE,
                TAG_VIEW_OFFSET,
            ],
            SystemKind::LightRender => seq![
                TAG_POSITION,
                TAG_POINT_LIGHT,
                TAG_SCALE,
                TAG_WINDOW_SIZE,
                TAG_VIEW_OFFSET,
            ],
        }
    }

    /// The component and resource tags the kind's routine writes.
    pub open spec fn spec_writes(self) -> Seq<u32> {
        match self {
            SystemKind::Collision => seq![TAG_COLLISION_EVENTS],
            SystemKind::Particle => seq![TAG_LIFETIME, TAG_SCALE, TAG_ENTITIES],
            SystemKind::Velocity => seq![TAG_POSITION],
            SystemKind::AnimSprite => seq![TAG_SPRITE, TAG_ANIMATION, TAG_ENTITIES],
            _ => seq![],
        }
    }

    /// Executable form of [`Self::spec_reads`].
    pub fn reads(&self) -> (r: Vec<u32>)
        ensures
            r@ == self.spec_reads(),
    {
        let mut v: Vec<u32> = Vec::new();
        match self {
            SystemKind::Collision => {
                v.push(TAG_POSITION);
                v.push(TAG_COLLIDER);
            },
            SystemKind::Particle => {
                v.push(TAG_SCALING);
                v.push(TAG_DELTA_TIME);
            },
            SystemKind::Velocity => {
                v.push(TAG_VELOCITY);
                v.push(TAG_DELTA_TIME);
            },
            SystemKind::AnimSprite => {
                v.push(TAG_DELTA_TIME);
            },
            SystemKind::RenderClear => {},
            SystemKind::SpriteRender => {
                v.push(TAG_SPRITE);
                v.push(TAG_POSITION);
                v.push(TAG_SCALE);
                v.push(TAG_COLOR);
                v.push(TAG_WINDOW_SIZE);
                v.push(TAG_VIEW_OFFSET);
            },
            SystemKind::TextRender => {
                v.push(TAG_TEXT);
                v.push(TAG_POSITION);
                v.push(TAG_COLOR);
                v.push(TAG_WINDOW_SIZE);
            },
            SystemKind::TileRender => {
                v.push(TAG_TILE);
                v.push(TAG_FLOOR);
                v.push(TAG_WALL);
                v.push(TAG_COLOR);
                v.push(TAG_WINDOW_SIZE);
                v.push(TAG_VIEW_OFFSET);
            },
            SystemKind::LightRender => {
                v.push(TAG_POSITION);
                v.push(TAG_POINT_LIGHT);
                v.push(TAG_SCALE);
                v.push(TAG_WINDOW_SIZE);
                v.push(TAG_VIEW_OFFSET);
            },
        }
        proof {
            assert(v@ =~= self.spec_reads());
        }
        v
    }

    /// Executable form of [`Self::spec_writes`].
    pub fn writes(&self) -> (r: Vec<u32>)
        ensures
            r@ == self.spec_writes(),
    {
        let mut v: Vec<u32> = Vec::new();
        match self {
            SystemKind::Collision => {
                v.push(TAG_COLLISION_EVENTS);
            },
            SystemKind::Particle => {
                v.push(TAG_LIFETIME);
                v.push(TAG_SCALE);
                v.push(TAG_ENTITIES);
            },
            SystemKind::Velocity => {
                v.push(TAG_POSITION);
            },
            SystemKind::AnimSprite => {
                v.push(TAG_SPRITE);
                v.push(TAG_ANIMATION);
                v.push(TAG_ENTITIES);
            },
            _ => {},
        }
        proof {
            assert(v@ =~= self.spec_writes());
        }
        v
    }
}

/// One registered system: an identifier, its declared access sets, its
/// thread affinity, the systems it must run after, and the routine it
/// names.
#[derive(Debug)]
pub struct SystemDesc {
    /// A caller-chosen identifier, named in conflict errors.
    pub id: u32,
    /// The component and resource tags the system reads.
    pub reads: Vec<u32>,
    /// The tags the system writes.
    pub writes: Vec<u32>,
    /// Whether the system must run on the graphics-context thread.
    pub thread_affine: bool,
    /// Identifiers of systems this one must run after: a declared edge
    /// orders the pair regardless of overlap.
    pub run_after: Vec<u32>,
    /// Which built-in routine the system runs.
    pub kind: SystemKind,
}

impl SystemDesc {
    /// A descriptor for a built-in routine with its canonical access sets.
    pub fn for_kind(id: u32, kind: SystemKind, thread_affine: bool, run_after: Vec<u32>) -> (r:
        SystemDesc)
        ensures
            r.id == id,
            r.kind == kind,
            r.thread_affine == thread_affine,
            r.run_after == run_after,
            r.reads@ == kind.spec_reads(),
            r.writes@ == kind.spec_writes(),
    {
        SystemDesc { id, reads: kind.reads(), writes: kind.writes(), thread_affine, run_after, kind }
    }
}

/// Whether the two tag sets share an element.
pub open spec fn sets_overlap(a: Seq<u32>, b: Seq<u32>) -> bool {
    exists|v: u32| a.contains(v) && b.contains(v)
}

/// Whether a declared dependency edge orders the two systems.
pub open spec fn has_edge(a: SystemDesc, b: SystemDesc) -> bool {
    a.run_after@.contains(b.id) || b.run_after@.contains(a.id)
}

/// Standard read/write exclusion: the two systems may run concurrently.
pub open spec fn compatible(a: SystemDesc, b: SystemDesc) -> bool {
    &&& !sets_overlap(a.writes@, b.writes@)
    &&& !sets_overlap(a.writes@, b.reads@)
    &&& !sets_overlap(a.reads@, b.writes@)
}

/// A pair of parallel systems is schedulable if an edge orders them or
/// their access sets are compatible.
pub open spec fn pair_ok(a: SystemDesc, b: SystemDesc) -> bool {
    has_edge(a, b) || compatible(a, b)
}

/// A parallel group is valid when every pair of its systems is
/// schedulable.
pub open spec fn schedule_valid(systems: Seq<SystemDesc>) -> bool {
    forall|i: int, j: int|
        0 <= i < j < systems.len() ==> pair_ok(#[trigger] systems[i], #[trigger] systems[j])
}

/// Whether `v` holds `x`.
fn vec_contains_u32(v: &Vec<u32>, x: u32) -> (r: bool)
    ensures
        r == v@.contains(x),
{
    let n = v.len();
    let mut i: usize = 0;
    while i < n
        invariant
            0 <= i <= n,
            n == v@.len(),
            forall|k: int| 0 <= k < i ==> v@[k] != x,
        decreases n - i,
    {
        if v[i] == x {
            return true;
        }
        i = i + 1;
    }
    proof {
        if v@.contains(x) {
            let k = choose|k: int| 0 <= k < v@.len() && v@[k] == x;
            assert(false);
        }
    }
    false
}

/// Whether the two tag sets share an element.
fn sets_overlap_exec(a: &Vec<u32>, b: &Vec<u32>) -> (r: bool)
    ensures
        r == sets_overlap(a@, b@),
{
    let n = a.len();
    let mut i: usize = 0;
    while i < n
        invariant
            0 <= i <= n,
            n == a@.len(),
            forall|k: int| 0 <= k < i ==> !b@.contains(#[trigger] a@[k]),
        decreases n - i,
    {
        if vec_contains_u32(b, a[i]) {
            proof {
                assert(a@.contains(a@[i as int]));
            }
            return true;
        }
        i = i + 1;
    }
    proof {
        if sets_overlap(a@, b@) {
            let v = choose|v: u32| a@.contains(v) && b@.contains(v);
            let k = choose|k: int| 0 <= k < a@.len() && a@[k] == v;
            assert(false);
        }
    }
    false
}

/// Whether a declared edge orders the pair.
fn has_edge_exec(a: &SystemDesc, b: &SystemDesc) -> (r: bool)
    ensures
        r == has_edge(*a, *b),
{
    vec_contains_u32(&a.run_after, b.id) || vec_contains_u32(&b.run_after, a.id)
}

/// Whether the pair may be scheduled concurrently or is ordered.
fn pair_ok_exec(a: &SystemDesc, b: &SystemDesc) -> (r: bool)
    ensures
        r == pair_ok(*a, *b),
{
    if has_edge_exec(a, b) {
        return true;
    }
    !sets_overlap_exec(&a.writes, &b.writes) && !sets_overlap_exec(&a.writes, &b.reads)
        && !sets_overlap_exec(&a.reads, &b.writes)
}

/// Collects the systems as they are registered; `build` validates the
/// parallel group and hands back a dispatcher.
pub struct DispatcherBuilder {
    /// The parallel-eligible systems, in registration order.
    pub parallel: Vec<SystemDesc>,
    /// The thread-affine systems, in registration order.
    pub thread_local_systems: Vec<SystemDesc>,
}

impl DispatcherBuilder {
    /// An empty registry.
    pub fn new() -> (r: DispatcherBuilder)
        ensures
            r.parallel@ == Seq::<SystemDesc>::empty(),
            r.thread_local_systems@ == Seq::<SystemDesc>::empty(),
    {
        DispatcherBuilder { parallel: Vec::new(), thread_local_systems: Vec::new() }
    }

    /// Registers a parallel-eligible system, after all registered so far.
    pub fn with(self, desc: SystemDesc) -> (r: DispatcherBuilder)
        ensures
            r.parallel@ == self.parallel@.push(desc),
            r.thread_local_systems@ == self.thread_local_systems@,
    {
        let mut b = self;
        b.parallel.push(desc);
        b
    }

    /// Registers a thread-affine system: it will run on the one thread
    /// owning the graphics context, after every parallel system, in the
    /// relative order of these registrations.
    pub fn with_thread_local(self, desc: SystemDesc) -> (r: DispatcherBuilder)
        ensures
            r.parallel@ == self.parallel@,
            r.thread_local_systems@ == self.thread_local_systems@.push(desc),
    {
        let mut b = self;
        b.thread_local_systems.push(desc);
        b
    }

    /// Validates the parallel group and builds the dispatcher. Succeeds
    /// exactly when every pair of parallel systems is ordered by an edge
    /// or free of read/write conflicts; a violating pair is a fatal
    /// configuration error naming the two systems.
    pub fn build(self) -> (r: Result<Dispatcher, EngineError>)
        ensures
            r is Ok <==> schedule_valid(self.parallel@),
            match r {
                Ok(d) => {
                    &&& d.parallel@ == self.parallel@
                    &&& d.thread_local_systems@ == self.thread_local_systems@
                },
                Err(EngineError::ScheduleConflict(x, y)) => exists|i: int, j: int|
                    0 <= i < j < self.parallel@.len() && !pair_ok(
                        #[trigger] self.parallel@[i],
                        #[trigger] self.parallel@[j],
                    ) && self.parallel@[i].id == x && self.parallel@[j].id == y,
                Err(_) => false,
            },
    {
        let n = self.parallel.len();
        let mut i: usize = 0;
        while i < n
            invariant
                0 <= i <= n,
                n == self.parallel@.len(),
                forall|x: int, y: int|
                    0 <= x < y < self.parallel@.len() && x < i ==> pair_ok(
                        #[trigger] self.parallel@[x],
                        #[trigger] self.parallel@[y],
                    ),
            decreases n - i,
        {
            let mut j: usize = i + 1;
            while j < n
                invariant
                    0 <= i < j <= n,
                    n == self.parallel@.len(),
                    forall|y: int|
                        i < y < j ==> pair_ok(
                            self.parallel@[i as int],
                            #[trigger] self.parallel@[y],
                        ),
                decreases n - j,
            {
                if !pair_ok_exec(&self.parallel[i], &self.parallel[j]) {
                    return Err(
                        EngineError::ScheduleConflict(self.parallel[i].id, self.parallel[j].id),
                    );
                }
                j = j + 1;
            }
            i = i + 1;
        }
        Ok(
            Dispatcher {
                parallel: self.parallel,
                thread_local_systems: self.thread_local_systems,
            },
        )
    }
}

/// One batch of draw records a thread-affine pass hands to the renderer,
/// in the order the passes were registered.
#[derive(Debug)]
pub enum DrawBatch {
    /// A simulation system ran here; it draws nothing.
    Empty,
    /// Clear the screen.
    Clear,
    /// The sprite pass's records.
    Sprites(Vec<RenderSprite>),
    /// The text pass's records.
    Texts(Vec<RenderString>),
    /// The tile pass's records, floors before walls.
    Tiles(Vec<RenderSprite>),
    /// The light pass's records.
    Lights(Vec<RenderLight>),
}

/// The spec-level image of a draw batch.
pub ghost enum BatchView {
    Empty,
    Clear,
    Sprites(Seq<RenderSprite>),
    Texts(Seq<RenderString>),
    Tiles(Seq<RenderSprite>),
    Lights(Seq<RenderLight>),
}

impl View for DrawBatch {
    type V = BatchView;

    open spec fn view(&self) -> BatchView {
        match self {
            DrawBatch::Empty => BatchView::Empty,
            DrawBatch::Clear => BatchView::Clear,
            DrawBatch::Sprites(v) => BatchView::Sprites(v@),
            DrawBatch::Texts(v) => BatchView::Texts(v@),
            DrawBatch::Tiles(v) => BatchView::Tiles(v@),
            DrawBatch::Lights(v) => BatchView::Lights(v@),
        }
    }
}

/// What one system routine does to the world: render passes change
/// nothing.
pub open spec fn sim_step(w: WorldView, kind: SystemKind) -> WorldView {
    match kind {
        SystemKind::Collision => collision_step(w),
        SystemKind::Particle => particle_step(w),
        SystemKind::Velocity => velocity_step(w),
        SystemKind::AnimSprite => anim_system_step(w),
        _ => w,
    }
}

/// The world after the routines run in order.
pub open spec fn run_kinds(w: WorldView, kinds: Seq<SystemKind>) -> WorldView
    decreases kinds.len(),
{
    if kinds.len() == 0 {
        w
    } else {
        sim_step(run_kinds(w, kinds.drop_last()), kinds.last())
    }
}

/// Running one more routine steps the fold once.
pub proof fn lemma_run_kinds_step(w: WorldView, kinds: Seq<SystemKind>, i: int)
    requires
        0 <= i < kinds.len(),
    ensures
        run_kinds(w, kinds.take(i + 1)) == sim_step(run_kinds(w, kinds.take(i)), kinds[i]),
{
    let pre = kinds.take(i + 1);
    assert(pre.len() == i + 1);
    assert(pre.drop_last() =~= kinds.take(i));
    assert(pre.last() == kinds[i]);
}

/// The batch a thread-affine pass extracts from world state `w`.
pub open spec fn batch_view_of(w: WorldView, kind: SystemKind) -> BatchView {
    match kind {
        SystemKind::RenderClear => BatchView::Clear,
        SystemKind::SpriteRender => BatchView::Sprites(sprite_records(w)),
        SystemKind::TextRender => BatchView::Texts(text_records(w)),
        SystemKind::TileRender => BatchView::Tiles(tile_records(w, (5000i32, 5000i32))),
        SystemKind::LightRender => BatchView::Lights(light_records(w)),
        _ => BatchView::Empty,
    }
}

/// The kinds named by a run of descriptors, in order.
pub open spec fn kinds_of(systems: Seq<SystemDesc>) -> Seq<SystemKind> {
    systems.map_values(|d: SystemDesc| d.kind)
}

/// A validated schedule: the parallel group, then the thread-affine
/// systems in registration order.
pub struct Dispatcher {
    /// The conflict-checked parallel group, run first.
    pub parallel: Vec<SystemDesc>,
    /// The thread-affine systems, run strictly after the parallel group,
    /// in registration order.
    pub thread_local_systems: Vec<SystemDesc>,
}

impl Dispatcher {
    /// Runs one tick's systems: first every parallel system (a valid
    /// linearization of their conflict-free concurrent execution), then
    /// every thread-affine system in registration order, each extracting
    /// its draw batch from the state committed by everything before it.
    /// The returned batches line up with the thread-affine registrations.
    pub fn dispatch(&self, world: &mut World) -> (out: Vec<DrawBatch>)
        ensures
            final(world)@ == run_kinds(
                run_kinds(old(world)@, kinds_of(self.parallel@)),
                kinds_of(self.thread_local_systems@),
            ),
            out@.len() == self.thread_local_systems@.len(),
            forall|t: int|
                0 <= t < out@.len() ==> (#[trigger] out@[t])@ == batch_view_of(
                    run_kinds(
                        run_kinds(old(world)@, kinds_of(self.parallel@)),
                        kinds_of(self.thread_local_systems@).take(t),
                    ),
                    kinds_of(self.thread_local_systems@)[t],
                ),
    {
        let ghost w0 = old(world)@;
        let ghost par_kinds = kinds_of(self.parallel@);
        let n = self.parallel.len();
        let mut i: usize = 0;
        proof {
            assert(par_kinds.take(0) =~= Seq::<SystemKind>::empty());
        }
        while i < n
            invariant
                w0 == old(world)@,
                0 <= i <= n,
                n == self.parallel@.len(),
                par_kinds == kinds_of(self.parallel@),
                world@ == run_kinds(w0, par_kinds.take(i as int)),
            decreases n - i,
        {
            proof {
                lemma_run_kinds_step(w0, par_kinds, i as int);
                assert(par_kinds[i as int] == self.parallel@[i as int].kind);
            }
            match self.parallel[i].kind {
                SystemKind::Collision => CollisionSys::run(world),
                SystemKind::Particle => ParticleSys::run(world),
                SystemKind::Velocity => VelocitySys::run(world),
                SystemKind::AnimSprite => AnimSpriteSys::run(world),
                _ => {},
            }
            i = i + 1;
        }
        proof {
            assert(par_kinds.take(n as int) =~= par_kinds);
        }
        let ghost w_mid = world@;
        let ghost aff_kinds = kinds_of(self.thread_local_systems@);
        let m = self.thread_local_systems.len();
        let mut out: Vec<DrawBatch> = Vec::new();
        let mut t: usize = 0;
        proof {
            assert(aff_kinds.take(0) =~= Seq::<SystemKind>::empty());
        }
        while t < m
            invariant
                w0 == old(world)@,
                0 <= t <= m,
                m == self.thread_local_systems@.len(),
                aff_kinds == kinds_of(self.thread_local_systems@),
                w_mid == run_kinds(w0, kinds_of(self.parallel@)),
                world@ == run_kinds(w_mid, aff_kinds.take(t as int)),
                out@.len() == t,
                forall|k: int|
                    0 <= k < t ==> (#[trigger] out@[k])@ == batch_view_of(
                        run_kinds(w_mid, aff_kinds.take(k)),
                        aff_kinds[k],
                    ),
            decreases m - t,
        {
            proof {
                lemma_run_kinds_step(w_mid, aff_kinds, t as int);
                assert(aff_kinds[t as int] == self.thread_local_systems@[t as int].kind);
            }
            let batch: DrawBatch = match self.thread_local_systems[t].kind {
                SystemKind::Collision => {
                    CollisionSys::run(world);
                    DrawBatch::Empty
                },
                SystemKind::Particle => {
                    ParticleSys::run(world);
                    DrawBatch::Empty
                },
                SystemKind::Velocity => {
                    VelocitySys::run(world);
                    DrawBatch::Empty
                },
                SystemKind::AnimSprite => {
                    AnimSpriteSys::run(world);
                    DrawBatch::Empty
                },
                SystemKind::RenderClear => DrawBatch::Clear,
                SystemKind::SpriteRender => DrawBatch::Sprites(SpriteRenderSys::run(world)),
                SystemKind::TextRender => DrawBatch::Texts(TextRenderSys::run(world)),
                SystemKind::TileRender => {
                    let pass = TileRenderSys::default();
                    DrawBatch::Tiles(pass.run(world))
                },
                SystemKind::LightRender => DrawBatch::Lights(LightRenderSys::run(world)),
            };
            out.push(batch);
            t = t + 1;
        }
        proof {
            assert(aff_kinds.take(m as int) =~= aff_kinds);
        }
        out
    }
}

/// The world a tick's systems start from: deferred deletions applied,
/// then the tick's delta time written.
pub open spec fn ticked_world(w: WorldView, dt: u32) -> WorldView {
    WorldView {
        delta_time: crate::ecs::resource::DeltaTime(dt),
        ..crate::ecs::world::maintained(w)
    }
}

impl Dispatcher {
    /// One whole tick, in the fixed order: apply deferred deletions, write
    /// the tick's delta time, then run the parallel systems followed by
    /// the thread-affine systems, handing back their draw batches.
    pub fn tick(&self, world: &mut World, dt: u32) -> (out: Vec<DrawBatch>)
        ensures
            final(world)@ == run_kinds(
                run_kinds(ticked_world(old(world)@, dt), kinds_of(self.parallel@)),
                kinds_of(self.thread_local_systems@),
            ),
            out@.len() == self.thread_local_systems@.len(),
            forall|t: int|
                0 <= t < out@.len() ==> (#[trigger] out@[t])@ == batch_view_of(
                    run_kinds(
                        run_kinds(ticked_world(old(world)@, dt), kinds_of(self.parallel@)),
                        kinds_of(self.thread_local_systems@).take(t),
                    ),
                    kinds_of(self.thread_local_systems@)[t],
                ),
    {
        world.maintain();
        world.delta_time = crate::ecs::resource::DeltaTime(dt);
        proof {
            assert(world@ =~= ticked_world(old(world)@, dt));
        }
        self.dispatch(world)
    }
}

/// Thread-affine render passes observe the component state exactly as
/// committed by the parallel systems of the same tick: no render pass
/// changes the world, so after any run of render passes the world is the
/// post-parallel world, and every extracted batch is a function of that
/// fully committed state.
pub proof fn lemma_render_observes_committed(w: WorldView, kinds: Seq<SystemKind>, t: int)
    requires
        0 <= t <= kinds.len(),
        forall|k: int| 0 <= k < kinds.len() ==> (#[trigger] kinds[k]).is_render(),
    ensures
        run_kinds(w, kinds.take(t)) == w,
    decreases t,
{
    if t > 0 {
        lemma_render_observes_committed(w, kinds, t - 1);
        lemma_run_kinds_step(w, kinds, t - 1);
        assert(kinds.take(t - 1 + 1) == kinds.take(t));
    }
}

} // verus!
