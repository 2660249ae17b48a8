//! The game-side player controller: maps pressed movement keys to a
//! walking animation by name, flips the sprite to face the movement, and
//! keeps the movement direction vector for the physics step.

use vstd::prelude::*;
use crate::ecs::Entity;
use crate::ecs::component::{Animation, Scale};
use crate::ecs::world::{World, WorldView};
use crate::controller::{MoveKeys, norm_milli};
use crate::ecs::system::sprite::select_animation;

verus! {

/// A movement input direction.
#[derive(Debug, Clone, Copy, PartialEq, Eq, Structural)]
pub enum MoveDir {
    Up,
    Down,
    Left,
    Right,
}

/// A named player animation, mapped directly to a sprite-sheet entry.
#[derive(Debug, Clone, Copy, PartialEq, Eq, Structural)]
pub enum PlayerAnim {
    Idle,
    WalkDown,
    WalkUp,
    WalkSide,
    WalkDiagUp,
    WalkDiagDown,
}

impl PlayerAnim {
    /// The sheet name of the animation.
    pub open spec fn spec_name(self) -> Seq<char> {
        match self {
            PlayerAnim::Idle => "idle"@,
            PlayerAnim::WalkDown => "walk-down"@,
            PlayerAnim::WalkUp => "walk-up"@,
            PlayerAnim::WalkSide => "walk-side"@,
            PlayerAnim::WalkDiagUp => "walk-diag-up"@,
            PlayerAnim::WalkDiagDown => "walk-diag-down"@,
        }
    }

    /// Executable form of [`Self::spec_name`].
    pub fn name(&self) -> (r: &'static str)
        ensures
            r@ == self.spec_name(),
    {
        match self {
            PlayerAnim::Idle => "idle",
            PlayerAnim::WalkDown => "walk-down",
            PlayerAnim::WalkUp => "walk-up",
            PlayerAnim::WalkSide => "walk-side",
            PlayerAnim::WalkDiagUp => "walk-diag-up",
            PlayerAnim::WalkDiagDown => "walk-diag-down",
        }
    }
}

/// Which walking animation a key intent selects: vertical intent picks the
/// row, any horizontal intent makes it diagonal (or sideways), and no
/// intent at all is idle.
pub open spec fn anim_for(x: int, y: int) -> PlayerAnim {
    if y == 1 {
        if x != 0 {
            PlayerAnim::WalkDiagUp
        } else {
            PlayerAnim::WalkUp
        }
    } else if y == 0 {
        if x != 0 {
            PlayerAnim::WalkSide
        } else {
            PlayerAnim::Idle
        }
    } else if y == -1 {
        if x != 0 {
            PlayerAnim::WalkDiagDown
        } else {
            PlayerAnim::WalkDown
        }
    } else {
        PlayerAnim::Idle
    }
}

/// Whether the key `d` is down in `k`.
pub open spec fn key_get(k: MoveKeys, d: MoveDir) -> bool {
    match d {
        MoveDir::Up => k.up,
        MoveDir::Down => k.down,
        MoveDir::Left => k.left,
        MoveDir::Right => k.right,
    }
}

/// The key state with `d` changed to `v`.
pub open spec fn key_set(k: MoveKeys, d: MoveDir, v: bool) -> MoveKeys {
    match d {
        MoveDir::Up => MoveKeys { up: v, ..k },
        MoveDir::Down => MoveKeys { down: v, ..k },
        MoveDir::Left => MoveKeys { left: v, ..k },
        MoveDir::Right => MoveKeys { right: v, ..k },
    }
}

/// The sprite-facing flip: moving left with a right-facing scale, or right
/// with a left-facing one, negates the horizontal scale (saturating at the
/// range edge).
pub open spec fn flip_scale_x(sx: int, xm: int) -> int {
    if (xm == -1 && sx > 0) || (xm == 1 && sx < 0) {
        if -sx > i32::MAX {
            i32::MAX as int
        } else {
            -sx
        }
    } else {
        sx
    }
}

/// What selecting an animation by name does to the world: if the player
/// carries a sprite and an animation, the request goes through
/// [`select_animation`] — a lookup miss and a re-request of the animation
/// already playing change nothing, any other hit restarts playback at
/// frame zero; a player missing either component is left alone.
pub open spec fn select_anim_effect(w: WorldView, player: Entity, name: Seq<char>) -> WorldView {
    if player.id < w.sprites.len() && w.sprites[player.id as int] is Some && player.id
        < w.animations.len() && w.animations[player.id as int] is Some {
        let sprite = w.sprites[player.id as int]->0;
        let cur = w.animations[player.id as int]->0;
        WorldView {
            animations: w.animations.update(
                player.id as int,
                Some(select_animation(cur, sprite, name)),
            ),
            ..w
        }
    } else {
        w
    }
}

/// What a key change does to the player's scale: if the player carries a
/// scale, its horizontal component flips to face the movement.
pub open spec fn flip_effect(w: WorldView, player: Entity, xm: int) -> WorldView {
    if player.id < w.scales.len() && w.scales[player.id as int] is Some {
        let s = w.scales[player.id as int]->0;
        WorldView {
            scales: w.scales.update(
                player.id as int,
                Some(Scale { x: flip_scale_x(s.x as int, xm) as i32, y: s.y }),
            ),
            ..w
        }
    } else {
        w
    }
}

/// State information about a player entity.
#[derive(Debug, Clone, Copy, PartialEq, Eq, Structural)]
pub struct PlayerEntity {
    /// The world entity the player drives.
    pub entity: Entity,
    /// The top speed, in milli-units per second.
    pub max_speed: i32,
    pub accel: i32,
    pub deccel: i32,
}

impl PlayerEntity {
    pub fn new(entity: Entity, max_speed: i32, accel: i32, deccel: i32) -> (r: PlayerEntity)
        ensures
            r == (PlayerEntity { entity, max_speed, accel, deccel }),
    {
        PlayerEntity { entity, max_speed, accel, deccel }
    }
}

/// An interface between input and a player entity's state, usable for
/// user input or automated input alike.
#[derive(Debug, Clone, Copy)]
pub struct PlayerController {
    /// The player being driven.
    pub player: PlayerEntity,
    /// The currently pressed movement keys.
    pub cur_move_input: MoveKeys,
    /// The movement direction in milli-units.
    pub move_vec: (i32, i32),
}

impl PlayerController {
    pub fn new(player: PlayerEntity) -> (r: PlayerController)
        ensures
            r.player == player,
            r.cur_move_input == MoveKeys::spec_none(),
            r.move_vec == (0i32, 0i32),
    {
        PlayerController {
            player,
            cur_move_input: MoveKeys { up: false, down: false, left: false, right: false },
            move_vec: (0, 0),
        }
    }

    /// Requests the named animation for the player. Re-requesting the one
    /// currently playing (same root, frame count and mode) is a no-op, as
    /// is an unknown name; a different hit restarts playback at frame zero
    /// of the new animation. A player without a sprite or an animation
    /// component is left alone.
    pub fn select_anim(&mut self, new_anim: PlayerAnim, world: &mut World)
        ensures
            *final(self) == *old(self),
            final(world)@ == select_anim_effect(
                old(world)@,
                old(self).player.entity,
                new_anim.spec_name(),
            ),
    {
        let e = self.player.entity;
        let sprite = match world.sprites.get(e) {
            Some(s) => s.duplicate(),
            None => {
                return ;
            },
        };
        let cur = match world.animations.get(e) {
            Some(a) => a.duplicate(),
            None => {
                return ;
            },
        };
        let fresh = Animation::from_name(new_anim.name(), &sprite);
        let replace: bool = match (&cur.schema, &fresh.schema) {
            (_, None) => false,
            (Some(c), Some(n)) => !(**c == **n),
            (None, Some(_)) => true,
        };
        if replace {
            proof {
                world.animations.lemma_capacity_bound();
            }
            world.animations.insert(e, fresh);
            proof {
                assert(world@ =~= select_anim_effect(old(world)@, e, new_anim.spec_name()));
            }
        } else {
            proof {
                assert(select_animation(cur, sprite, new_anim.spec_name()) == cur);
                assert(old(world)@.animations.update(e.id as int, Some(cur))
                    =~= old(world)@.animations);
                assert(world@ =~= select_anim_effect(old(world)@, e, new_anim.spec_name()));
            }
        }
    }

    /// Changes the state of one input direction. A repeated report of the
    /// same state is ignored. A real change updates the key state; then,
    /// if the player carries a scale, the sprite is flipped to face the
    /// movement, the walking animation matching the intent is selected,
    /// and the movement vector is recomputed — a player without a scale
    /// keeps its animation and movement vector.
    pub fn set_move_input(&mut self, direction: MoveDir, pressed: bool, world: &mut World)
        ensures
            key_get(old(self).cur_move_input, direction) == pressed ==> (*final(self) == *old(self)
                && final(world)@ == old(world)@),
            key_get(old(self).cur_move_input, direction) != pressed ==> {
                let keys = key_set(old(self).cur_move_input, direction, pressed);
                let xm = keys.x_move();
                let ym = keys.y_move();
                &&& final(self).cur_move_input == keys
                &&& final(self).player == old(self).player
                &&& if old(self).player.entity.id < old(world)@.scales.len() && old(
                    world,
                )@.scales[old(self).player.entity.id as int] is Some {
                    &&& final(world)@ == select_anim_effect(
                        flip_effect(old(world)@, old(self).player.entity, xm),
                        old(self).player.entity,
                        anim_for(xm, ym).spec_name(),
                    )
                    &&& final(self).move_vec == (
                        norm_milli(xm, ym).0 as i32,
                        norm_milli(xm, ym).1 as i32,
                    )
                } else {
                    final(world)@ == old(world)@ && final(self).move_vec == old(self).move_vec
                }
            },
    {
        let current = match direction {
            MoveDir::Up => self.cur_move_input.up,
            MoveDir::Down => self.cur_move_input.down,
            MoveDir::Left => self.cur_move_input.left,
            MoveDir::Right => self.cur_move_input.right,
        };
        if current == pressed {
            return ;
        }
        match direction {
            MoveDir::Up => self.cur_move_input.up = pressed,
            MoveDir::Down => self.cur_move_input.down = pressed,
            MoveDir::Left => self.cur_move_input.left = pressed,
            MoveDir::Right => self.cur_move_input.right = pressed,
        }
        let e = self.player.entity;
        let scale = match world.scales.get(e) {
            Some(s) => *s,
            None => {
                return ;
            },
        };
        let x: i32 = (if self.cur_move_input.right {
            1
        } else {
            0
        }) - (if self.cur_move_input.left {
            1
        } else {
            0
        });
        let y: i32 = (if self.cur_move_input.up {
            1
        } else {
            0
        }) - (if self.cur_move_input.down {
            1
        } else {
            0
        });
        let flipped: i32 = if (x == -1 && scale.x > 0) || (x == 1 && scale.x < 0) {
            if scale.x == i32::MIN {
                i32::MAX
            } else {
                -scale.x
            }
        } else {
            scale.x
        };
        proof {
            world.scales.lemma_capacity_bound();
        }
        world.scales.insert(e, Scale { x: flipped, y: scale.y });
        let ghost w_flipped = world@;
        proof {
            assert(w_flipped =~= flip_effect(old(world)@, e, x as int));
        }
        let anim = if y == 1 {
            if x != 0 {
                PlayerAnim::WalkDiagUp
            } else {
                PlayerAnim::WalkUp
            }
        } else if y == 0 {
            if x != 0 {
                PlayerAnim::WalkSide
            } else {
                PlayerAnim::Idle
            }
        } else {
            if x != 0 {
                PlayerAnim::WalkDiagDown
            } else {
                PlayerAnim::WalkDown
            }
        };
        self.select_anim(anim, world);
        self.move_vec = if x == 0 && y == 0 {
            (0, 0)
        } else if x == 0 {
            (0, y * 1000)
        } else if y == 0 {
            (x * 1000, 0)
        } else {
            (x * 707, y * 707)
        };
    }
}

} // verus!
