//! Integer 2D coordinates, cardinal shift directions and distance helpers.
use vstd::prelude::*;

verus! {

/// One of the four cardinal directions a walker step can take.
#[derive(Clone, Copy, Debug, PartialEq, Eq, Structural)]
pub enum ShiftDirection {
    Up,
    Right,
    Down,
    Left,
}

/// An unsigned grid coordinate. Waypoints and the walker's live position
/// share this type; `x` grows rightwards, `y` grows downwards.
#[derive(Clone, Copy, Debug, PartialEq, Eq, Structural)]
pub struct Position {
    pub x: usize,
    pub y: usize,
}

/// Squared Euclidean distance between two coordinates, as a mathematical integer.
pub open spec fn spec_dist_sqr(a: Position, b: Position) -> int {
    (a.x - b.x) * (a.x - b.x) + (a.y - b.y) * (a.y - b.y)
}

/// Chebyshev distance: the larger of the two absolute coordinate differences.
pub open spec fn spec_chebyshev(a: Position, b: Position) -> int {
    let dx = if a.x >= b.x {
        a.x - b.x
    } else {
        b.x - a.x
    };
    let dy = if a.y >= b.y {
        a.y - b.y
    } else {
        b.y - a.y
    };
    if dx >= dy {
        dx
    } else {
        dy
    }
}

/// Squared distance is symmetric in its two points.
pub proof fn lemma_dist_sqr_symmetric(a: Position, b: Position)
    ensures
        spec_dist_sqr(a, b) == spec_dist_sqr(b, a),
{
    assert((a.x - b.x) * (a.x - b.x) == (b.x - a.x) * (b.x - a.x) && (a.y - b.y) * (a.y - b.y)
        == (b.y - a.y) * (b.y - a.y)) by (nonlinear_arith);
}

/// Horizontal offset of one step in the given direction.
pub open spec fn spec_shift_dx(d: ShiftDirection) -> int {
    match d {
        ShiftDirection::Up => 0,
        ShiftDirection::Right => 1,
        ShiftDirection::Down => 0,
        ShiftDirection::Left => -1,
    }
}

/// Vertical offset of one step in the given direction.
pub open spec fn spec_shift_dy(d: ShiftDirection) -> int {
    match d {
        ShiftDirection::Up => -1,
        ShiftDirection::Right => 0,
        ShiftDirection::Down => 1,
        ShiftDirection::Left => 0,
    }
}

/// Squared distance from `pos` shifted one step in direction `d` to `goal`,
/// over mathematical integers (a shift off the grid edge is representable
/// here even though the walker rejects it).
pub open spec fn spec_shift_key(pos: Position, goal: Position, d: ShiftDirection) -> int {
    (pos.x + spec_shift_dx(d) - goal.x) * (pos.x + spec_shift_dx(d) - goal.x) + (pos.y
        + spec_shift_dy(d) - goal.y) * (pos.y + spec_shift_dy(d) - goal.y)
}

impl Position {
    pub fn new(x: usize, y: usize) -> (p: Position)
        ensures
            p.x == x,
            p.y == y,
    {
        Position { x, y }
    }

    /// Squared Euclidean distance to `other`.
    pub fn dist_sqr(&self, other: &Position) -> (d: u64)
        requires
            self.x < 0x8000_0000,
            self.y < 0x8000_0000,
            other.x < 0x8000_0000,
            other.y < 0x8000_0000,
        ensures
            d == spec_dist_sqr(*self, *other),
    {
        let dx: u64 = if self.x >= other.x {
            (self.x - other.x) as u64
        } else {
            (other.x - self.x) as u64
        };
        let dy: u64 = if self.y >= other.y {
            (self.y - other.y) as u64
        } else {
            (other.y - self.y) as u64
        };
        proof {
            assert(dx * dx <= 0x7fff_ffffu64 * 0x7fff_ffffu64 && dy * dy
                <= 0x7fff_ffffu64 * 0x7fff_ffffu64) by (nonlinear_arith)
                requires
                    dx <= 0x7fff_ffffu64,
                    dy <= 0x7fff_ffffu64,
            ;
            assert(dx * dx + dy * dy == (self.x - other.x) * (self.x - other.x) + (self.y
                - other.y) * (self.y - other.y)) by (nonlinear_arith)
                requires
                    dx == self.x - other.x || dx == other.x - self.x,
                    dy == self.y - other.y || dy == other.y - self.y,
                    dx * dx <= 0x7fff_ffffu64 * 0x7fff_ffffu64,
                    dy * dy <= 0x7fff_ffffu64 * 0x7fff_ffffu64,
            ;
        }
        dx * dx + dy * dy
    }

    /// Chebyshev distance to `other`.
    pub fn chebyshev_dist(&self, other: &Position) -> (d: usize)
        ensures
            d == spec_chebyshev(*self, *other),
    {
        let dx: usize = if self.x >= other.x {
            self.x - other.x
        } else {
            other.x - self.x
        };
        let dy: usize = if self.y >= other.y {
            self.y - other.y
        } else {
            other.y - self.y
        };
        if dx >= dy {
            dx
        } else {
            dy
        }
    }
}

/// The squared distance to `goal` after one step from `pos` in direction `d`.
pub fn shift_key(pos: &Position, goal: &Position, d: ShiftDirection) -> (k: u64)
    requires
        pos.x < 0x2_0000,
        pos.y < 0x2_0000,
        goal.x < 0x2_0000,
        goal.y < 0x2_0000,
    ensures
        k == spec_shift_key(*pos, *goal, d),
{
    let sx: i64 = pos.x as i64 + match d {
        ShiftDirection::Right => 1i64,
        ShiftDirection::Left => -1i64,
        _ => 0i64,
    };
    let sy: i64 = pos.y as i64 + match d {
        ShiftDirection::Down => 1i64,
        ShiftDirection::Up => -1i64,
        _ => 0i64,
    };
    let ddx: i64 = sx - goal.x as i64;
    let ddy: i64 = sy - goal.y as i64;
    proof {
        assert(ddx * ddx <= 0x4_0000i64 * 0x4_0000i64 && ddy * ddy <= 0x4_0000i64 * 0x4_0000i64
            && ddx * ddx >= 0 && ddy * ddy >= 0) by (nonlinear_arith)
            requires
                -0x4_0000i64 <= ddx <= 0x4_0000i64,
                -0x4_0000i64 <= ddy <= 0x4_0000i64,
        ;
    }
    (ddx * ddx + ddy * ddy) as u64
}

} // verus!
