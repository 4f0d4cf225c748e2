//! The circular/elliptical probability "stamp" used to carve terrain.
//!
//! Membership blends a disc and a square through a single inclusion test:
//! an offset `(dx, dy)` with `|dx| <= radius` and `|dy| <= radius` belongs
//! to the stamp when `dx^2 + dy^2 <= radius^2 + circularity * radius^2 / 100`.
//! At circularity 0 that is the disc of the given radius; at circularity 100
//! the bound is `2 * radius^2`, which admits the whole square. The same
//! metric is used everywhere a stamp is applied.
use vstd::prelude::*;

verus! {

/// Largest stamp radius the engine accepts.
pub const MAX_KERNEL_RADIUS: usize = 1024;

/// An immutable stamp value: swapped whole, never mutated, when the walker's
/// size or shape changes.
#[derive(Clone, Copy, Debug, PartialEq, Eq, Structural)]
pub struct Kernel {
    pub radius: usize,
    /// Flattening of the stamp toward a square, in percent: 0 is a disc,
    /// 100 a full square.
    pub circularity: u8,
}

/// The squared-distance bound of the inclusion test.
pub open spec fn spec_kernel_limit_sqr(k: Kernel) -> int {
    k.radius * k.radius + (k.circularity as int) * (k.radius * k.radius) / 100
}

/// Whether the offset `(dx, dy)` from the stamp's center is carved.
pub open spec fn spec_kernel_contains(k: Kernel, dx: int, dy: int) -> bool {
    &&& -(k.radius as int) <= dx <= k.radius as int
    &&& -(k.radius as int) <= dy <= k.radius as int
    &&& dx * dx + dy * dy <= spec_kernel_limit_sqr(k)
}

/// Every stamp contains its own center, whatever its radius and
/// circularity: the cell a walker stands on is always carved.
pub proof fn lemma_kernel_contains_center(k: Kernel)
    ensures
        spec_kernel_contains(k, 0, 0),
{
    assert(k.radius * k.radius >= 0 && (k.circularity as int) * (k.radius * k.radius) >= 0)
        by (nonlinear_arith);
}

/// Stamp membership is symmetric in each axis: only the absolute offsets
/// matter.
pub proof fn lemma_kernel_symmetry(k: Kernel, dx: int, dy: int, adx: int, ady: int)
    requires
        adx == if dx < 0 { -dx } else { dx },
        ady == if dy < 0 { -dy } else { dy },
    ensures
        spec_kernel_contains(k, dx, dy) == spec_kernel_contains(k, adx, ady),
{
    assert(dx * dx == adx * adx && dy * dy == ady * ady) by (nonlinear_arith)
        requires
            adx == dx || adx == -dx,
            ady == dy || ady == -dy,
    ;
}

impl Kernel {
    pub open spec fn wf(self) -> bool {
        self.radius <= MAX_KERNEL_RADIUS && self.circularity <= 100
    }

    pub fn new(radius: usize, circularity: u8) -> (k: Kernel)
        requires
            radius <= MAX_KERNEL_RADIUS,
            circularity <= 100,
        ensures
            k.radius == radius,
            k.circularity == circularity,
            k.wf(),
    {
        Kernel { radius, circularity }
    }

    /// The inclusion test, over absolute offsets from the center.
    pub fn contains_abs(&self, adx: usize, ady: usize) -> (c: bool)
        requires
            self.wf(),
        ensures
            c == spec_kernel_contains(*self, adx as int, ady as int),
    {
        if adx > self.radius || ady > self.radius {
            return false;
        }
        let r: u64 = self.radius as u64;
        let dx: u64 = adx as u64;
        let dy: u64 = ady as u64;
        proof {
            assert(dx * dx <= 1024u64 * 1024u64 && dy * dy <= 1024u64 * 1024u64 && r * r
                <= 1024u64 * 1024u64) by (nonlinear_arith)
                requires
                    dx <= 1024u64,
                    dy <= 1024u64,
                    r <= 1024u64,
            ;
            assert((self.circularity as u64) * (r * r) <= 100u64 * (1024u64 * 1024u64))
                by (nonlinear_arith)
                requires
                    self.circularity as u64 <= 100u64,
                    r * r <= 1024u64 * 1024u64,
            ;
        }
        let limit: u64 = r * r + (self.circularity as u64) * (r * r) / 100;
        dx * dx + dy * dy <= limit
    }
}

} // verus!
