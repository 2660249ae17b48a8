//! Arena-style entity and component storage. Entities are plain indices;
//! each component kind lives in its own store; deletion is deferred and
//! applied atomically at a maintenance point between scheduler passes.

use vstd::prelude::*;
use crate::ecs::Entity;
use crate::ecs::component::{
    Animation, Collider, Color, DampedMoveTarget, Floor, Lifetime, PointLight, Position, Scale,
    Scaling, Sprite, Text, Tile, Velocity, Wall, Wandering,
};
use crate::ecs::resource::{CollisionEvents, DeltaTime, SpritesheetPath, ViewOffset, WindowSize};
use crate::event::EventChannel;

verus! {

/// A typed per-entity store for one component kind: a mapping from entity
/// index to component value. A store never returns a value for an entity
/// that does not currently hold the component.
pub struct Store<T> {
    slots: Vec<Option<T>>,
}

impl<T> View for Store<T> {
    type V = Seq<Option<T>>;

    closed spec fn view(&self) -> Seq<Option<T>> {
        self.slots@
    }
}

/// Whether `pending` queues the entity index `id` for deletion.
pub open spec fn queued(pending: Seq<Entity>, id: int) -> bool {
    exists|k: int| 0 <= k < pending.len() && pending[k].id == id
}

/// The slots of `s` after every queued entity's component is removed.
pub open spec fn purged<T>(s: Seq<Option<T>>, pending: Seq<Entity>) -> Seq<Option<T>> {
    Seq::new(s.len(), |i: int| if queued(pending, i) { None } else { s[i] })
}

impl<T> Store<T> {
    /// Whether entity `e` currently holds this component.
    pub open spec fn spec_has(self, e: Entity) -> bool {
        e.id < self@.len() && self@[e.id as int] is Some
    }

    /// The component entity `e` holds.
    pub open spec fn spec_at(self, e: Entity) -> T
        recommends
            self.spec_has(e),
    {
        self@[e.id as int]->0
    }

    /// A store never has more slots than `usize` can index.
    pub proof fn lemma_capacity_bound(&self)
        ensures
            self@.len() <= usize::MAX,
    {
        broadcast use vstd::std_specs::vec::axiom_spec_len;

        assert(vstd::std_specs::vec::spec_vec_len(&self.slots) == self.slots@.len());
    }

    /// An empty store.
    pub fn new() -> (r: Self)
        ensures
            r@ == Seq::<Option<T>>::empty(),
    {
        Store { slots: Vec::new() }
    }

    /// One past the largest entity index the store has a slot for; an
    /// iteration bound, not a population count.
    pub fn capacity(&self) -> (r: usize)
        ensures
            r == self@.len(),
    {
        self.slots.len()
    }

    /// Gives `e` the component value `v`, replacing any previous value and
    /// touching no other entity.
    pub fn insert(&mut self, e: Entity, v: T)
        requires
            e.id < usize::MAX,
        ensures
            final(self)@.len() == if e.id + 1 > old(self)@.len() {
                e.id + 1
            } else {
                old(self)@.len() as int
            },
            final(self).spec_has(e),
            final(self).spec_at(e) == v,
            forall|i: int|
                0 <= i < final(self)@.len() && i != e.id ==> final(self)@[i] == (if i < old(
                    self,
                )@.len() {
                    old(self)@[i]
                } else {
                    None
                }),
    {
        while self.slots.len() <= e.id
            invariant
                e.id < usize::MAX,
                old(self)@.len() <= self@.len(),
                self@.len() == old(self)@.len() || self@.len() <= e.id + 1,
                forall|i: int|
                    0 <= i < self@.len() ==> self@[i] == (if i < old(self)@.len() {
                        old(self)@[i]
                    } else {
                        None
                    }),
            decreases e.id + 1 - self@.len(),
        {
            self.slots.push(None);
        }
        self.slots.set(e.id, Some(v));
    }

    /// Removes `e`'s component, if any, touching no other entity.
    pub fn remove(&mut self, e: Entity)
        ensures
            final(self)@.len() == old(self)@.len(),
            !final(self).spec_has(e),
            forall|i: int|
                0 <= i < final(self)@.len() && i != e.id ==> final(self)@[i] == old(self)@[i],
    {
        if e.id < self.slots.len() {
            self.slots.set(e.id, None);
        }
    }

    /// Reads `e`'s component: a value comes back exactly when `e` holds
    /// the component.
    pub fn get(&self, e: Entity) -> (r: Option<&T>)
        ensures
            match r {
                Some(v) => self.spec_has(e) && *v == self.spec_at(e),
                None => !self.spec_has(e),
            },
    {
        if e.id < self.slots.len() {
            match &self.slots[e.id] {
                Some(v) => Some(v),
                None => None,
            }
        } else {
            None
        }
    }

    /// Whether `e` currently holds this component.
    pub fn contains(&self, e: Entity) -> (r: bool)
        ensures
            r == self.spec_has(e),
    {
        e.id < self.slots.len() && self.slots[e.id].is_some()
    }

    /// Removes the component of every entity queued in `pending`.
    fn purge(&mut self, pending: &Vec<Entity>)
        ensures
            final(self)@ == purged(old(self)@, pending@),
    {
        let n = pending.len();
        let mut k: usize = 0;
        while k < n
            invariant
                0 <= k <= n,
                n == pending@.len(),
                self@.len() == old(self)@.len(),
                forall|i: int|
                    0 <= i < self@.len() ==> self@[i] == (if queued(
                        pending@.subrange(0, k as int),
                        i,
                    ) {
                        None
                    } else {
                        old(self)@[i]
                    }),
            decreases n - k,
        {
            let ghost prefix = pending@.subrange(0, k as int);
            let ghost next_prefix = pending@.subrange(0, k + 1 as int);
            self.remove(pending[k]);
            proof {
                assert forall|i: int| 0 <= i < self@.len() implies self@[i] == (if queued(
                    next_prefix,
                    i,
                ) {
                    None
                } else {
                    old(self)@[i]
                }) by {
                    if queued(next_prefix, i) {
                        let w = choose|w: int|
                            0 <= w < next_prefix.len() && next_prefix[w].id == i;
                        if w < k {
                            assert(prefix[w] == next_prefix[w]);
                            assert(queued(prefix, i));
                        }
                    } else {
                        assert(!queued(prefix, i)) by {
                            if queued(prefix, i) {
                                let w = choose|w: int|
                                    0 <= w < prefix.len() && prefix[w].id == i;
                                assert(next_prefix[w] == prefix[w]);
                            }
                        }
                        assert(i != pending@[k as int].id) by {
                            assert(next_prefix[k as int] == pending@[k as int]);
                        }
                    }
                }
            }
            k = k + 1;
        }
        proof {
            assert(pending@.subrange(0, n as int) =~= pending@);
            assert(self@ =~= purged(old(self)@, pending@));
        }
    }
}

/// The spec-level image of a whole world: every store, every resource, the
/// collision log, and the deferred-deletion queue.
#[verifier::ext_equal]
pub ghost struct WorldView {
    pub next_id: int,
    pub pending: Seq<Entity>,
    pub positions: Seq<Option<Position>>,
    pub scales: Seq<Option<Scale>>,
    pub colors: Seq<Option<Color>>,
    pub sprites: Seq<Option<Sprite>>,
    pub animations: Seq<Option<Animation>>,
    pub velocities: Seq<Option<Velocity>>,
    pub colliders: Seq<Option<Collider>>,
    pub lights: Seq<Option<PointLight>>,
    pub texts: Seq<Option<Text>>,
    pub lifetimes: Seq<Option<Lifetime>>,
    pub scalings: Seq<Option<Scaling>>,
    pub wanderings: Seq<Option<Wandering>>,
    pub move_targets: Seq<Option<DampedMoveTarget>>,
    pub tiles: Seq<Option<Tile>>,
    pub floors: Seq<Option<Floor>>,
    pub walls: Seq<Option<Wall>>,
    pub delta_time: DeltaTime,
    pub window_size: WindowSize,
    pub view_offset: ViewOffset,
    pub spritesheet_path: Seq<char>,
    pub collision_events: Seq<crate::ecs::resource::CollisionEvent>,
}

/// The world: owner of every component store, the per-tick resources, the
/// collision event channel, and the entity lifecycle. Destruction is
/// deferred: entities are queued and purged together at [`World::maintain`],
/// so systems mid-tick never observe a half-destroyed entity.
pub struct World {
    /// The next entity identifier to hand out; only ever grows.
    pub next_id: usize,
    /// Entities queued for deletion at the next maintenance point.
    pub pending: Vec<Entity>,
    pub positions: Store<Position>,
    pub scales: Store<Scale>,
    pub colors: Store<Color>,
    pub sprites: Store<Sprite>,
    pub animations: Store<Animation>,
    pub velocities: Store<Velocity>,
    pub colliders: Store<Collider>,
    pub lights: Store<PointLight>,
    pub texts: Store<Text>,
    pub lifetimes: Store<Lifetime>,
    pub scalings: Store<Scaling>,
    pub wanderings: Store<Wandering>,
    pub move_targets: Store<DampedMoveTarget>,
    pub tiles: Store<Tile>,
    pub floors: Store<Floor>,
    pub walls: Store<Wall>,
    pub delta_time: DeltaTime,
    pub window_size: WindowSize,
    pub view_offset: ViewOffset,
    pub spritesheet_path: SpritesheetPath,
    pub collision_events: CollisionEvents,
}

impl View for World {
    type V = WorldView;

    open spec fn view(&self) -> WorldView {
        WorldView {
            next_id: self.next_id as int,
            pending: self.pending@,
            positions: self.positions@,
            scales: self.scales@,
            colors: self.colors@,
            sprites: self.sprites@,
            animations: self.animations@,
            velocities: self.velocities@,
            colliders: self.colliders@,
            lights: self.lights@,
            texts: self.texts@,
            lifetimes: self.lifetimes@,
            scalings: self.scalings@,
            wanderings: self.wanderings@,
            move_targets: self.move_targets@,
            tiles: self.tiles@,
            floors: self.floors@,
            walls: self.walls@,
            delta_time: self.delta_time,
            window_size: self.window_size,
            view_offset: self.view_offset,
            spritesheet_path: self.spritesheet_path.0@,
            collision_events: self.collision_events@,
        }
    }
}

/// The view of a world after its deferred deletions are applied: every
/// queued entity loses all its components and the queue empties.
pub open spec fn maintained(w: WorldView) -> WorldView {
    WorldView {
        pending: Seq::empty(),
        positions: purged(w.positions, w.pending),
        scales: purged(w.scales, w.pending),
        colors: purged(w.colors, w.pending),
        sprites: purged(w.sprites, w.pending),
        animations: purged(w.animations, w.pending),
        velocities: purged(w.velocities, w.pending),
        colliders: purged(w.colliders, w.pending),
        lights: purged(w.lights, w.pending),
        texts: purged(w.texts, w.pending),
        lifetimes: purged(w.lifetimes, w.pending),
        scalings: purged(w.scalings, w.pending),
        wanderings: purged(w.wanderings, w.pending),
        move_targets: purged(w.move_targets, w.pending),
        tiles: purged(w.tiles, w.pending),
        floors: purged(w.floors, w.pending),
        walls: purged(w.walls, w.pending),
        ..w
    }
}

impl World {
    /// A fresh world: no entities, empty stores, zeroed resources.
    pub fn new() -> (r: World)
        ensures
            r@.next_id == 0,
            r@.pending == Seq::<Entity>::empty(),
            r@.positions == Seq::<Option<Position>>::empty(),
            r@.scales == Seq::<Option<Scale>>::empty(),
            r@.colors == Seq::<Option<Color>>::empty(),
            r@.sprites == Seq::<Option<Sprite>>::empty(),
            r@.animations == Seq::<Option<Animation>>::empty(),
            r@.velocities == Seq::<Option<Velocity>>::empty(),
            r@.colliders == Seq::<Option<Collider>>::empty(),
            r@.lights == Seq::<Option<PointLight>>::empty(),
            r@.texts == Seq::<Option<Text>>::empty(),
            r@.lifetimes == Seq::<Option<Lifetime>>::empty(),
            r@.scalings == Seq::<Option<Scaling>>::empty(),
            r@.wanderings == Seq::<Option<Wandering>>::empty(),
            r@.move_targets == Seq::<Option<DampedMoveTarget>>::empty(),
            r@.tiles == Seq::<Option<Tile>>::empty(),
            r@.floors == Seq::<Option<Floor>>::empty(),
            r@.walls == Seq::<Option<Wall>>::empty(),
            r@.delta_time == DeltaTime(0u32),
            r@.window_size == WindowSize(0u32, 0u32),
            r@.view_offset == ViewOffset(0i64, 0i64, 0i64),
            r@.spritesheet_path == Seq::<char>::empty(),
            r@.collision_events == Seq::<crate::ecs::resource::CollisionEvent>::empty(),
    {
        World {
            next_id: 0,
            pending: Vec::new(),
            positions: Store::new(),
            scales: Store::new(),
            colors: Store::new(),
            sprites: Store::new(),
            animations: Store::new(),
            velocities: Store::new(),
            colliders: Store::new(),
            lights: Store::new(),
            texts: Store::new(),
            lifetimes: Store::new(),
            scalings: Store::new(),
            wanderings: Store::new(),
            move_targets: Store::new(),
            tiles: Store::new(),
            floors: Store::new(),
            walls: Store::new(),
            delta_time: DeltaTime(0),
            window_size: WindowSize(0, 0),
            view_offset: ViewOffset(0, 0, 0),
            spritesheet_path: SpritesheetPath(String::new()),
            collision_events: EventChannel::new(),
        }
    }

    /// How many entity identifiers have been handed out.
    pub fn entity_count(&self) -> (r: usize)
        ensures
            r == self@.next_id,
    {
        self.next_id
    }

    /// Creates a fresh entity. Identifiers are never reused within one
    /// world, so the new entity holds no components anywhere.
    pub fn create_entity(&mut self) -> (e: Entity)
        requires
            old(self)@.next_id < usize::MAX,
        ensures
            e.id == old(self)@.next_id,
            final(self)@ == (WorldView { next_id: old(self)@.next_id + 1, ..old(self)@ }),
    {
        let e = Entity { id: self.next_id };
        self.next_id = self.next_id + 1;
        proof {
            assert(self@ =~= (WorldView { next_id: old(self)@.next_id + 1, ..old(self)@ }));
        }
        e
    }

    /// Queues `e` for deletion. The deletion takes effect at the next
    /// maintenance point, never mid-pass.
    pub fn delete_entity(&mut self, e: Entity)
        ensures
            final(self)@ == (WorldView { pending: old(self)@.pending.push(e), ..old(self)@ }),
    {
        self.pending.push(e);
        proof {
            assert(self@ =~= (WorldView { pending: old(self)@.pending.push(e), ..old(self)@ }));
        }
    }

    /// Applies every queued deletion atomically: each queued entity loses
    /// all its components, and the queue empties. Only to be called between
    /// scheduler passes, never during one.
    pub fn maintain(&mut self)
        ensures
            final(self)@ == maintained(old(self)@),
    {
        self.positions.purge(&self.pending);
        self.scales.purge(&self.pending);
        self.colors.purge(&self.pending);
        self.sprites.purge(&self.pending);
        self.animations.purge(&self.pending);
        self.velocities.purge(&self.pending);
        self.colliders.purge(&self.pending);
        self.lights.purge(&self.pending);
        self.texts.purge(&self.pending);
        self.lifetimes.purge(&self.pending);
        self.scalings.purge(&self.pending);
        self.wanderings.purge(&self.pending);
        self.move_targets.purge(&self.pending);
        self.tiles.purge(&self.pending);
        self.floors.purge(&self.pending);
        self.walls.purge(&self.pending);
        self.pending = Vec::new();
        proof {
            assert(self@ =~= maintained(old(self)@));
        }
    }
}

} // verus!
