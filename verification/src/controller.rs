//! The engine-side player controller: turns raw pressed-key state into a
//! movement direction vector and, on each tick, into the player entity's
//! velocity.

use vstd::prelude::*;
use crate::ecs::Entity;
use crate::ecs::component::Velocity;
use crate::ecs::system::particle::{sat_i32, trunc_div};
use crate::ecs::world::{World, WorldView};

verus! {

/// A movement input direction.
#[derive(Debug, Clone, Copy, PartialEq, Eq, Structural)]
pub enum MovementDirection {
    Up,
    Down,
    Left,
    Right,
}

/// A container for defining player movement under the velocity scheme.
#[derive(Debug, Clone, Copy, PartialEq, Eq, Structural)]
pub struct MovementInfo {
    /// The greatest speed movement input can reach, in milli-units per
    /// second.
    pub max_speed: i32,
    pub accel: i32,
    pub deccel: i32,
}

/// How player input becomes movement.
#[derive(Debug, Clone, Copy, PartialEq, Eq, Structural)]
pub enum MovementType {
    /// Input instantly sets the velocity, up to the given speed in
    /// milli-units per second.
    Instant(i32),
    /// Input accelerates the player under the given parameters.
    Velocity(MovementInfo),
}

/// Which movement keys are currently pressed.
#[derive(Debug, Clone, Copy, PartialEq, Eq, Structural)]
pub struct MoveKeys {
    pub up: bool,
    pub down: bool,
    pub left: bool,
    pub right: bool,
}

impl MoveKeys {
    /// No key pressed.
    pub open spec fn spec_none() -> MoveKeys {
        MoveKeys { up: false, down: false, left: false, right: false }
    }

    /// Whether the given direction's key is down.
    pub open spec fn spec_get(self, d: MovementDirection) -> bool {
        match d {
            MovementDirection::Up => self.up,
            MovementDirection::Down => self.down,
            MovementDirection::Left => self.left,
            MovementDirection::Right => self.right,
        }
    }

    /// The key state with one direction changed.
    pub open spec fn spec_set(self, d: MovementDirection, v: bool) -> MoveKeys {
        match d {
            MovementDirection::Up => MoveKeys { up: v, ..self },
            MovementDirection::Down => MoveKeys { down: v, ..self },
            MovementDirection::Left => MoveKeys { left: v, ..self },
            MovementDirection::Right => MoveKeys { right: v, ..self },
        }
    }

    /// The horizontal intent: right minus left, in -1..=1.
    pub open spec fn x_move(self) -> int {
        (if self.right {
            1int
        } else {
            0int
        }) - (if self.left {
            1int
        } else {
            0int
        })
    }

    /// The vertical intent: up minus down, in -1..=1.
    pub open spec fn y_move(self) -> int {
        (if self.up {
            1int
        } else {
            0int
        }) - (if self.down {
            1int
        } else {
            0int
        })
    }
}

/// The unit-length movement vector for a key intent, in milli-units: axis
/// moves have magnitude 1000, diagonals 707 per axis, no intent is zero.
pub open spec fn norm_milli(x: int, y: int) -> (int, int) {
    if x == 0 && y == 0 {
        (0int, 0int)
    } else if x == 0 {
        (0int, y * 1000)
    } else if y == 0 {
        (x * 1000, 0int)
    } else {
        (x * 707, y * 707)
    }
}

/// The velocity an instant-movement controller sets: the movement vector
/// scaled by the top speed, truncating, clamped to the component range.
pub open spec fn instant_velocity(mv: (int, int), max_speed: int) -> Velocity {
    Velocity {
        x: sat_i32(trunc_div(mv.0 * max_speed, 1000)) as i32,
        y: sat_i32(trunc_div(mv.1 * max_speed, 1000)) as i32,
    }
}

/// Scales one movement-vector axis by the top speed.
fn scale_axis_by_speed(m: i32, max_speed: i32) -> (r: i32)
    ensures
        r as int == sat_i32(trunc_div(m * max_speed, 1000)),
{
    let a: i128 = m as i128;
    let b: i128 = max_speed as i128;
    proof {
        assert(-0x4000_0000_0000_0000 <= a * b <= 0x4000_0000_0000_0000) by (nonlinear_arith)
            requires
                -0x8000_0000 <= a <= 0x7FFF_FFFF,
                -0x8000_0000 <= b <= 0x7FFF_FFFF,
        ;
    }
    let prod: i128 = a * b;
    let q: i128 = if prod >= 0 {
        ((prod as u128) / 1000) as i128
    } else {
        -((((-prod) as u128) / 1000) as i128)
    };
    if q > 0x7FFF_FFFF {
        i32::MAX
    } else if q < -0x8000_0000 {
        i32::MIN
    } else {
        q as i32
    }
}

/// Translates raw input into player actions: key state in, velocity and
/// movement vector out.
pub struct PlayerController {
    /// The movement scheme input drives.
    pub move_type: MovementType,
    /// The currently pressed movement keys; maintained by
    /// [`Self::update_move_input`].
    pub move_input: MoveKeys,
    /// The current movement direction in milli-units; maintained by
    /// [`Self::update_move_input`].
    pub move_vec: (i32, i32),
    /// The entity the controller steers.
    pub player: Entity,
}

impl PlayerController {
    /// The pressed-key state.
    pub open spec fn keys(self) -> MoveKeys {
        self.move_input
    }

    /// The movement vector, in milli-units.
    pub open spec fn spec_move_vec(self) -> (int, int) {
        (self.move_vec.0 as int, self.move_vec.1 as int)
    }

    /// A controller for `player` with no key pressed and no movement.
    pub fn new(player: Entity, move_type: MovementType) -> (r: PlayerController)
        ensures
            r.move_type == move_type,
            r.player == player,
            r.keys() == MoveKeys::spec_none(),
            r.spec_move_vec() == (0int, 0int),
    {
        PlayerController {
            move_type,
            move_input: MoveKeys { up: false, down: false, left: false, right: false },
            move_vec: (0, 0),
            player,
        }
    }

    /// The current movement vector in milli-units.
    pub fn move_vec(&self) -> (r: (i32, i32))
        ensures
            (r.0 as int, r.1 as int) == self.spec_move_vec(),
    {
        self.move_vec
    }

    /// Updates the player's velocity from the movement vector. With
    /// instant movement the velocity becomes the movement vector at top
    /// speed; a player without a velocity component is left alone.
    pub fn tick(&self, _dt: u32, world: &mut World)
        requires
            self.move_type is Instant,
        ensures
            final(world)@ == (if old(world)@.velocities.len() > self.player.id && old(
                world,
            )@.velocities[self.player.id as int] is Some {
                WorldView {
                    velocities: old(world)@.velocities.update(
                        self.player.id as int,
                        Some(
                            instant_velocity(
                                self.spec_move_vec(),
                                self.move_type->Instant_0 as int,
                            ),
                        ),
                    ),
                    ..old(world)@
                }
            } else {
                old(world)@
            }),
    {
        let max_speed: i32 = match self.move_type {
            MovementType::Instant(s) => s,
            MovementType::Velocity(_) => {
                return ;
            },
        };
        if world.velocities.contains(self.player) {
            let vx = scale_axis_by_speed(self.move_vec.0, max_speed);
            let vy = scale_axis_by_speed(self.move_vec.1, max_speed);
            proof {
                world.velocities.lemma_capacity_bound();
            }
            world.velocities.insert(self.player, Velocity { x: vx, y: vy });
            proof {
                assert(world@ =~= (WorldView {
                    velocities: old(world)@.velocities.update(
                        self.player.id as int,
                        Some(
                            instant_velocity(
                                self.spec_move_vec(),
                                self.move_type->Instant_0 as int,
                            ),
                        ),
                    ),
                    ..old(world)@
                }));
            }
        }
    }

    /// Changes the state of one input direction, reflecting player
    /// intention. A repeated report of the same state is ignored; a real
    /// change recomputes the movement direction vector.
    pub fn update_move_input(&mut self, direction: MovementDirection, pressed: bool)
        ensures
            old(self).keys().spec_get(direction) == pressed ==> *final(self) == *old(self),
            old(self).keys().spec_get(direction) != pressed ==> {
                let keys = old(self).keys().spec_set(direction, pressed);
                &&& final(self).keys() == keys
                &&& final(self).spec_move_vec() == norm_milli(keys.x_move(), keys.y_move())
                &&& final(self).move_type == old(self).move_type
                &&& final(self).player == old(self).player
            },
    {
        let current = match direction {
            MovementDirection::Up => self.move_input.up,
            MovementDirection::Down => self.move_input.down,
            MovementDirection::Left => self.move_input.left,
            MovementDirection::Right => self.move_input.right,
        };
        if current == pressed {
            return ;
        }
        match direction {
            MovementDirection::Up => self.move_input.up = pressed,
            MovementDirection::Down => self.move_input.down = pressed,
            MovementDirection::Left => self.move_input.left = pressed,
            MovementDirection::Right => self.move_input.right = pressed,
        }
        let x: i32 = (if self.move_input.right {
            1
        } else {
            0
        }) - (if self.move_input.left {
            1
        } else {
            0
        });
        let y: i32 = (if self.move_input.up {
            1
        } else {
            0
        }) - (if self.move_input.down {
            1
        } else {
            0
        });
        self.move_vec = if x == 0 && y == 0 {
            (0, 0)
        } else if x == 0 {
            (0, y * 1000)
        } else if y == 0 {
            (x * 1000, 0)
        } else {
            (x * 707, y * 707)
        };
    }
}

} // verus!
