//! Player animation naming: classifies an aim direction into a small fixed
//! set of canonical directions by nearest-vector match, and joins it with a
//! moving/idle state to form the animation name looked up in the sprite's
//! schema.

use vstd::prelude::*;
use vstd::string::StringExecFns;

verus! {

/// The animation state of the player.
#[derive(Debug, Clone, Copy, PartialEq, Eq, Structural)]
pub enum PlayerState {
    Idle,
    Walking,
}

impl PlayerState {
    /// The state's name fragment.
    pub open spec fn spec_name(self) -> Seq<char> {
        match self {
            PlayerState::Idle => "idle"@,
            PlayerState::Walking => "walk"@,
        }
    }

    /// Executable form of [`Self::spec_name`].
    pub fn name(&self) -> (r: &'static str)
        ensures
            r@ == self.spec_name(),
    {
        match self {
            PlayerState::Idle => "idle",
            PlayerState::Walking => "walk",
        }
    }

    /// Walking exactly when the speed exceeds the threshold: compared on
    /// squared magnitudes, which is exact in fixed point.
    pub open spec fn spec_from_speed(vx: int, vy: int, threshold: int) -> PlayerState {
        if vx * vx + vy * vy > threshold * threshold {
            PlayerState::Walking
        } else {
            PlayerState::Idle
        }
    }

    /// Executable form of [`Self::spec_from_speed`]: classifies a velocity
    /// in milli-units per second against a speed threshold.
    pub fn from_speed(vx: i32, vy: i32, threshold: i32) -> (r: PlayerState)
        ensures
            r == PlayerState::spec_from_speed(vx as int, vy as int, threshold as int),
    {
        let x: i128 = vx as i128;
        let y: i128 = vy as i128;
        let t: i128 = threshold as i128;
        proof {
            assert(x * x <= 0x8000_0000 * 0x8000_0000 && x * x >= 0) by (nonlinear_arith)
                requires
                    -0x8000_0000 <= x <= 0x8000_0000,
            ;
            assert(y * y <= 0x8000_0000 * 0x8000_0000 && y * y >= 0) by (nonlinear_arith)
                requires
                    -0x8000_0000 <= y <= 0x8000_0000,
            ;
            assert(t * t <= 0x8000_0000 * 0x8000_0000 && t * t >= 0) by (nonlinear_arith)
                requires
                    -0x8000_0000 <= t <= 0x8000_0000,
            ;
        }
        if x * x + y * y > t * t {
            PlayerState::Walking
        } else {
            PlayerState::Idle
        }
    }
}

/// The sprite direction the player is facing. Left and right share `Side`:
/// mirroring is handled by flipping the sprite, so classification takes
/// the horizontal component's absolute value.
#[derive(Debug, Clone, Copy, PartialEq, Eq, Structural)]
pub enum PlayerDirection {
    Up,
    Down,
    Side,
    DiagUp,
    DiagDown,
}

/// Squared Euclidean distance between two vectors.
pub open spec fn dist2(vx: int, vy: int, rx: int, ry: int) -> int {
    (vx - rx) * (vx - rx) + (vy - ry) * (vy - ry)
}

/// The absolute value.
pub open spec fn abs_of(x: int) -> int {
    if x >= 0 {
        x
    } else {
        -x
    }
}

impl PlayerDirection {
    /// The direction's name fragment.
    pub open spec fn spec_name(self) -> Seq<char> {
        match self {
            PlayerDirection::Up => "up"@,
            PlayerDirection::Down => "down"@,
            PlayerDirection::Side => "side"@,
            PlayerDirection::DiagUp => "diag-up"@,
            PlayerDirection::DiagDown => "diag-down"@,
        }
    }

    /// Executable form of [`Self::spec_name`].
    pub fn name(&self) -> (r: &'static str)
        ensures
            r@ == self.spec_name(),
    {
        match self {
            PlayerDirection::Up => "up",
            PlayerDirection::Down => "down",
            PlayerDirection::Side => "side",
            PlayerDirection::DiagUp => "diag-up",
            PlayerDirection::DiagDown => "diag-down",
        }
    }

    /// Nearest-vector classification of a direction given in milli-units,
    /// against the reference set (0,1000) up, (0,-1000) down, (1000,0)
    /// side, (707,707) diagonal up, (707,-707) diagonal down — the unit
    /// vectors at 90, 270, 0, 45 and 315 degrees in fixed point. The
    /// horizontal component is mirrored by absolute value first, and ties
    /// go to the earlier entry in that order: a deterministic, otherwise
    /// arbitrary tie-break kept for reproducibility.
    pub open spec fn classify(x: int, y: int) -> PlayerDirection {
        let ax = abs_of(x);
        let d_up = dist2(ax, y, 0, 1000);
        let d_down = dist2(ax, y, 0, -1000);
        let d_side = dist2(ax, y, 1000, 0);
        let d_diag_up = dist2(ax, y, 707, 707);
        let d_diag_down = dist2(ax, y, 707, -707);
        if d_up <= d_down && d_up <= d_side && d_up <= d_diag_up && d_up <= d_diag_down {
            PlayerDirection::Up
        } else if d_down <= d_side && d_down <= d_diag_up && d_down <= d_diag_down {
            PlayerDirection::Down
        } else if d_side <= d_diag_up && d_side <= d_diag_down {
            PlayerDirection::Side
        } else if d_diag_up <= d_diag_down {
            PlayerDirection::DiagUp
        } else {
            PlayerDirection::DiagDown
        }
    }

    /// Executable form of [`Self::classify`]: the first reference vector
    /// at minimal distance from the mirrored input wins.
    pub fn from_vector(x: i32, y: i32) -> (r: PlayerDirection)
        ensures
            r == PlayerDirection::classify(x as int, y as int),
    {
        let ax: i64 = if x >= 0 {
            x as i64
        } else {
            -(x as i64)
        };
        let y64: i64 = y as i64;
        let d_up = dist2_exec(ax, y64, 0, 1000);
        let d_down = dist2_exec(ax, y64, 0, -1000);
        let d_side = dist2_exec(ax, y64, 1000, 0);
        let d_diag_up = dist2_exec(ax, y64, 707, 707);
        let d_diag_down = dist2_exec(ax, y64, 707, -707);
        if d_up <= d_down && d_up <= d_side && d_up <= d_diag_up && d_up <= d_diag_down {
            PlayerDirection::Up
        } else if d_down <= d_side && d_down <= d_diag_up && d_down <= d_diag_down {
            PlayerDirection::Down
        } else if d_side <= d_diag_up && d_side <= d_diag_down {
            PlayerDirection::Side
        } else if d_diag_up <= d_diag_down {
            PlayerDirection::DiagUp
        } else {
            PlayerDirection::DiagDown
        }
    }
}

/// Executable form of [`dist2`], exact over the fixed-point coordinates.
fn dist2_exec(vx: i64, vy: i64, rx: i64, ry: i64) -> (r: i128)
    requires
        -0x1_0000_0000 <= vx <= 0x1_0000_0000,
        -0x1_0000_0000 <= vy <= 0x1_0000_0000,
        -1000 <= rx <= 1000,
        -1000 <= ry <= 1000,
    ensures
        r == dist2(vx as int, vy as int, rx as int, ry as int),
{
    let dx: i128 = vx as i128 - rx as i128;
    let dy: i128 = vy as i128 - ry as i128;
    proof {
        assert(dx * dx <= 0x2_0000_1000 * 0x2_0000_1000 && dx * dx >= 0) by (nonlinear_arith)
            requires
                -0x2_0000_1000 <= dx <= 0x2_0000_1000,
        ;
        assert(dy * dy <= 0x2_0000_1000 * 0x2_0000_1000 && dy * dy >= 0) by (nonlinear_arith)
            requires
                -0x2_0000_1000 <= dy <= 0x2_0000_1000,
        ;
    }
    dx * dx + dy * dy
}

/// A player animation: state plus facing, mapped directly to the animation
/// name in the sprite sheet.
#[derive(Debug, Clone, Copy, PartialEq, Eq, Structural)]
pub struct PlayerAnim {
    pub state: PlayerState,
    pub direction: PlayerDirection,
}

impl PlayerAnim {
    /// The animation name the sheet indexes: the state fragment, a dash,
    /// the direction fragment — e.g. walking sideways names `"walk-side"`.
    pub fn name(&self) -> (r: String)
        ensures
            r@ == self.state.spec_name() + "-"@ + self.direction.spec_name(),
    {
        let mut s = String::from_str(self.state.name());
        s.append("-");
        s.append(self.direction.name());
        s
    }
}

} // verus!
