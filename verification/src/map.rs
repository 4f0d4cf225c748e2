//! The level grid: a 2D array of typed cells plus spawn metadata, with
//! rectangular fill and border-fill carving primitives.
//!
//! The cell array itself is stored in an `ndarray::Array2<u8>`; each cell is
//! held as its `u8` code and read back through [`BlockType`].
use vstd::prelude::*;

use crate::kernel::Kernel;
use crate::kernel::lemma_kernel_symmetry;
use crate::kernel::spec_kernel_contains;
use crate::position::Position;

verus! {

/// The closed set of cell types a grid position can hold.
#[derive(Clone, Copy, Debug, PartialEq, Eq, Structural)]
pub enum BlockType {
    Empty,
    Hookable,
    Freeze,
    Spawn,
    Start,
    Finish,
}

/// The `u8` code under which a cell type is stored in the array.
pub open spec fn spec_code_of(b: BlockType) -> u8 {
    match b {
        BlockType::Empty => 0,
        BlockType::Hookable => 1,
        BlockType::Freeze => 2,
        BlockType::Spawn => 3,
        BlockType::Start => 4,
        BlockType::Finish => 5,
    }
}

/// The cell type a stored `u8` code stands for; codes above 5 never occur
/// in a well-formed grid and read back as `Hookable`.
pub open spec fn spec_block_of(c: u8) -> BlockType {
    if c == 0 {
        BlockType::Empty
    } else if c == 2 {
        BlockType::Freeze
    } else if c == 3 {
        BlockType::Spawn
    } else if c == 4 {
        BlockType::Start
    } else if c == 5 {
        BlockType::Finish
    } else {
        BlockType::Hookable
    }
}

pub proof fn lemma_block_code_roundtrip(b: BlockType)
    ensures
        spec_block_of(spec_code_of(b)) == b,
{
}

fn code_of(b: BlockType) -> (c: u8)
    ensures
        c == spec_code_of(b),
{
    match b {
        BlockType::Empty => 0,
        BlockType::Hookable => 1,
        BlockType::Freeze => 2,
        BlockType::Spawn => 3,
        BlockType::Start => 4,
        BlockType::Finish => 5,
    }
}

fn block_of(c: u8) -> (b: BlockType)
    ensures
        b == spec_block_of(c),
{
    if c == 0 {
        BlockType::Empty
    } else if c == 2 {
        BlockType::Freeze
    } else if c == 3 {
        BlockType::Spawn
    } else if c == 4 {
        BlockType::Start
    } else if c == 5 {
        BlockType::Finish
    } else {
        BlockType::Hookable
    }
}

/// Owns the `ndarray::Array2<u8>` that stores the cell codes. The array type
/// itself cannot be named in verified signatures (its generics carry an
/// `ndarray` trait bound), so this struct hides it and the wrappers below
/// carry its contract.
#[verifier::external_body]
pub struct CellArray {
    cells: ndarray::Array2<u8>,
}

/// The cells a [`CellArray`] holds, column by column: `grid_cells(g)[x][y]`
/// is the element at index `[[x, y]]`.
pub uninterp spec fn grid_cells(g: CellArray) -> Seq<Seq<u8>>;

/// Relies on `ndarray::Array2::from_elem`: builds a `width x height` array
/// with every element equal to `fill`.
#[verifier::external_body]
fn array_new(width: usize, height: usize, fill: u8) -> (g: CellArray)
    ensures
        grid_cells(g) == Seq::new(
            width as nat,
            |x: int| Seq::new(height as nat, |y: int| fill),
        ),
{
    CellArray { cells: ndarray::Array2::from_elem((width, height), fill) }
}

/// Relies on `ndarray`'s `Index` impl for `[[x, y]]`: returns the element at
/// that index; the `requires` keeps the index inside the array, where the
/// indexing cannot panic.
#[verifier::external_body]
fn array_get(g: &CellArray, x: usize, y: usize) -> (c: u8)
    requires
        x < grid_cells(*g).len(),
        y < grid_cells(*g)[x as int].len(),
    ensures
        c == grid_cells(*g)[x as int][y as int],
{
    g.cells[[x, y]]
}

/// Relies on `ndarray`'s `IndexMut` impl for `[[x, y]]`: replaces exactly the
/// element at that index; the `requires` keeps the index inside the array.
#[verifier::external_body]
fn array_set(g: &mut CellArray, x: usize, y: usize, c: u8)
    requires
        x < grid_cells(*old(g)).len(),
        y < grid_cells(*old(g))[x as int].len(),
    ensures
        grid_cells(*final(g)) == grid_cells(*old(g)).update(
            x as int,
            grid_cells(*old(g))[x as int].update(y as int, c),
        ),
{
    g.cells[[x, y]] = c;
}

/// Largest grid side length the engine accepts; keeps all coordinate
/// arithmetic far from overflow.
pub const MAX_MAP_SIDE: usize = 0x8000;

/// The level grid: a `width x height` array of cells plus the spawn
/// coordinate.
pub struct Grid {
    pub grid: CellArray,
    pub width: usize,
    pub height: usize,
    pub spawn: Position,
}

/// Whether a cell currently holding `cur` may be overwritten under the given
/// policy: with `overwrite` everything may, without it only untouched solid
/// terrain (`Hookable`) may, so prior carvings and markers are kept.
pub open spec fn spec_writable(cur: BlockType, overwrite: bool) -> bool {
    overwrite || cur == BlockType::Hookable
}

/// Whether `(x, y)` lies in the axis-aligned rectangle spanned by the two
/// corners (inclusive).
pub open spec fn spec_in_rect(tlx: int, tly: int, brx: int, bry: int, x: int, y: int) -> bool {
    tlx <= x <= brx && tly <= y <= bry
}

/// Whether `(x, y)` lies on the 1-cell-thick perimeter ring of the rectangle.
pub open spec fn spec_on_border(tlx: int, tly: int, brx: int, bry: int, x: int, y: int) -> bool {
    spec_in_rect(tlx, tly, brx, bry, x, y) && (x == tlx || x == brx || y == tly || y == bry)
}

impl Grid {
    /// Shape and metadata invariant: the cell array is exactly
    /// `width x height` and the spawn lies inside it.
    pub open spec fn wf(self) -> bool {
        &&& grid_cells(self.grid).len() == self.width as int
        &&& (forall|x: int|
            0 <= x < self.width ==> (#[trigger] grid_cells(self.grid)[x]).len()
                == self.height as int)
        &&& 1 <= self.width <= MAX_MAP_SIDE
        &&& 1 <= self.height <= MAX_MAP_SIDE
        &&& self.spawn.x < self.width
        &&& self.spawn.y < self.height
    }

    /// The cell at `(x, y)`.
    pub open spec fn cell(self, x: int, y: int) -> BlockType {
        spec_block_of(grid_cells(self.grid)[x][y])
    }

    pub open spec fn in_bounds(self, x: int, y: int) -> bool {
        0 <= x < self.width && 0 <= y < self.height
    }

    /// Everything but the cell contents agrees between `self` and `other`.
    pub open spec fn same_shape(self, other: Grid) -> bool {
        self.width == other.width && self.height == other.height && self.spawn == other.spawn
    }

    /// A fresh grid filled entirely with `default`.
    pub fn new(width: usize, height: usize, default: BlockType, spawn: Position) -> (m: Grid)
        requires
            1 <= width <= MAX_MAP_SIDE,
            1 <= height <= MAX_MAP_SIDE,
            spawn.x < width,
            spawn.y < height,
        ensures
            m.wf(),
            m.width == width,
            m.height == height,
            m.spawn == spawn,
            forall|x: int, y: int| m.in_bounds(x, y) ==> m.cell(x, y) == default,
    {
        let grid = array_new(width, height, code_of(default));
        Grid { grid, width, height, spawn }
    }

    /// The cell at `(x, y)`.
    pub fn get(&self, x: usize, y: usize) -> (b: BlockType)
        requires
            self.wf(),
            x < self.width,
            y < self.height,
        ensures
            b == self.cell(x as int, y as int),
    {
        block_of(array_get(&self.grid, x, y))
    }

    /// Replace the cell at `(x, y)`, leaving every other cell unchanged.
    pub fn set(&mut self, x: usize, y: usize, b: BlockType)
        requires
            old(self).wf(),
            x < old(self).width,
            y < old(self).height,
        ensures
            final(self).wf(),
            final(self).same_shape(*old(self)),
            final(self).cell(x as int, y as int) == b,
            forall|i: int, j: int|
                old(self).in_bounds(i, j) && !(i == x as int && j == y as int)
                    ==> final(self).cell(i, j) == old(self).cell(i, j),
    {
        array_set(&mut self.grid, x, y, code_of(b));
        proof {
            lemma_block_code_roundtrip(b);
        }
    }

    /// Fill the rectangle spanned by `tl` and `br` (both inclusive) with `t`,
    /// clamped at the grid edge; a rectangle fully outside the grid is a
    /// no-op. Without `overwrite` only `Hookable` cells are replaced.
    pub fn set_area(&mut self, tl: &Position, br: &Position, t: &BlockType, overwrite: bool)
        requires
            old(self).wf(),
        ensures
            final(self).wf(),
            final(self).same_shape(*old(self)),
            forall|i: int, j: int|
                old(self).in_bounds(i, j) ==> final(self).cell(i, j) == (
                    if spec_in_rect(tl.x as int, tl.y as int, br.x as int, br.y as int, i, j)
                        && spec_writable(old(self).cell(i, j), overwrite) {
                        *t
                    } else {
                        old(self).cell(i, j)
                    }),
    {
        let ghost m0 = *self;
        if tl.x >= self.width || tl.y >= self.height || br.x < tl.x || br.y < tl.y {
            return;
        }
        let x1: usize = if br.x < self.width - 1 { br.x } else { self.width - 1 };
        let y1: usize = if br.y < self.height - 1 { br.y } else { self.height - 1 };
        let mut x: usize = tl.x;
        while x <= x1
            invariant
                self.wf(),
                self.same_shape(m0),
                m0.wf(),
                tl.x <= x <= x1 + 1,
                x1 < self.width,
                y1 < self.height,
                x1 <= br.x,
                y1 <= br.y,
                x1 == if br.x < m0.width - 1 { br.x as int } else { m0.width - 1 },
                y1 == if br.y < m0.height - 1 { br.y as int } else { m0.height - 1 },
                tl.x <= x1,
                tl.y <= y1,
                forall|i: int, j: int|
                    m0.in_bounds(i, j) ==> self.cell(i, j) == (
                        if tl.x <= i < x && tl.y <= j <= y1 as int
                            && spec_writable(m0.cell(i, j), overwrite) {
                            *t
                        } else {
                            m0.cell(i, j)
                        }),
            decreases x1 + 1 - x,
        {
            let mut y: usize = tl.y;
            while y <= y1
                invariant
                    self.wf(),
                    self.same_shape(m0),
                    m0.wf(),
                    tl.x <= x <= x1,
                    tl.y <= y <= y1 + 1,
                    x1 < self.width,
                    y1 < self.height,
                    forall|i: int, j: int|
                        m0.in_bounds(i, j) ==> self.cell(i, j) == (
                            if (tl.x <= i < x && tl.y <= j <= y1 as int || i == x as int
                                && tl.y <= j < y) && spec_writable(m0.cell(i, j), overwrite) {
                                *t
                            } else {
                                m0.cell(i, j)
                            }),
                decreases y1 + 1 - y,
            {
                if overwrite || matches!(self.get(x, y), BlockType::Hookable) {
                    self.set(x, y, *t);
                }
                y += 1;
            }
            x += 1;
        }
    }

    /// Stamp the kernel centered at `center`: every in-bounds cell whose
    /// offset from the center the kernel contains is set to `t`, clipped at
    /// the grid edge. Without `overwrite` only `Hookable` cells are replaced,
    /// so an outer stamp never downgrades cells an inner stamp carved.
    pub fn apply_kernel(&mut self, center: &Position, k: &Kernel, t: &BlockType, overwrite: bool)
        requires
            old(self).wf(),
            k.wf(),
            center.x < old(self).width,
            center.y < old(self).height,
        ensures
            final(self).wf(),
            final(self).same_shape(*old(self)),
            forall|i: int, j: int|
                old(self).in_bounds(i, j) ==> final(self).cell(i, j) == (
                    if spec_kernel_contains(*k, i - center.x as int, j - center.y as int)
                        && spec_writable(old(self).cell(i, j), overwrite) {
                        *t
                    } else {
                        old(self).cell(i, j)
                    }),
    {
        let ghost m0 = *self;
        let r = k.radius;
        let x0: usize = if center.x > r { center.x - r } else { 0 };
        let y0: usize = if center.y > r { center.y - r } else { 0 };
        let x1: usize = if center.x + r < self.width - 1 { center.x + r } else { self.width - 1 };
        let y1: usize = if center.y + r < self.height - 1 { center.y + r } else { self.height - 1 };
        let mut x: usize = x0;
        while x <= x1
            invariant
                self.wf(),
                self.same_shape(m0),
                m0.wf(),
                k.wf(),
                center.x < m0.width,
                center.y < m0.height,
                x0 <= x <= x1 + 1,
                x1 < self.width,
                y1 < self.height,
                x0 == if center.x > k.radius { center.x - k.radius } else { 0 },
                y0 == if center.y > k.radius { center.y - k.radius } else { 0 },
                x1 == if center.x + k.radius < m0.width - 1 { center.x + k.radius } else { m0.width - 1 },
                y1 == if center.y + k.radius < m0.height - 1 { center.y + k.radius } else { m0.height - 1 },
                forall|i: int, j: int|
                    m0.in_bounds(i, j) ==> self.cell(i, j) == (
                        if x0 <= i < x && spec_kernel_contains(*k, i - center.x as int, j
                            - center.y as int) && spec_writable(m0.cell(i, j), overwrite) {
                            *t
                        } else {
                            m0.cell(i, j)
                        }),
            decreases x1 + 1 - x,
        {
            let mut y: usize = y0;
            while y <= y1
                invariant
                    self.wf(),
                    self.same_shape(m0),
                    m0.wf(),
                    k.wf(),
                    center.x < m0.width,
                    center.y < m0.height,
                    x0 <= x <= x1,
                    y0 <= y <= y1 + 1,
                    x1 < self.width,
                    y1 < self.height,
                    x0 == if center.x > k.radius { center.x - k.radius } else { 0 },
                    y0 == if center.y > k.radius { center.y - k.radius } else { 0 },
                    x1 == if center.x + k.radius < m0.width - 1 { center.x + k.radius } else { m0.width - 1 },
                    y1 == if center.y + k.radius < m0.height - 1 { center.y + k.radius } else { m0.height - 1 },
                    forall|i: int, j: int|
                        m0.in_bounds(i, j) ==> self.cell(i, j) == (
                            if (x0 <= i < x || i == x as int && y0 <= j < y)
                                && spec_kernel_contains(*k, i - center.x as int, j
                                - center.y as int) && spec_writable(m0.cell(i, j), overwrite) {
                                *t
                            } else {
                                m0.cell(i, j)
                            }),
                decreases y1 + 1 - y,
            {
                let adx: usize = if x >= center.x { x - center.x } else { center.x - x };
                let ady: usize = if y >= center.y { y - center.y } else { center.y - y };
                proof {
                    lemma_kernel_symmetry(
                        *k,
                        x as int - center.x as int,
                        y as int - center.y as int,
                        adx as int,
                        ady as int,
                    );
                }
                if k.contains_abs(adx, ady) {
                    if overwrite || matches!(self.get(x, y), BlockType::Hookable) {
                        self.set(x, y, *t);
                    }
                }
                y += 1;
            }
            x += 1;
        }
    }

    /// Fill only the 1-cell-thick perimeter ring of the rectangle spanned by
    /// `tl` and `br` with `t`, clamped at the grid edge. Without `overwrite`
    /// only `Hookable` cells are replaced.
    pub fn set_area_border(&mut self, tl: &Position, br: &Position, t: &BlockType, overwrite: bool)
        requires
            old(self).wf(),
        ensures
            final(self).wf(),
            final(self).same_shape(*old(self)),
            forall|i: int, j: int|
                old(self).in_bounds(i, j) ==> final(self).cell(i, j) == (
                    if spec_on_border(tl.x as int, tl.y as int, br.x as int, br.y as int, i, j)
                        && spec_writable(old(self).cell(i, j), overwrite) {
                        *t
                    } else {
                        old(self).cell(i, j)
                    }),
    {
        let ghost m0 = *self;
        if br.x < tl.x || br.y < tl.y {
            return;
        }
        self.set_area(tl, &Position { x: br.x, y: tl.y }, t, overwrite);
        let ghost m1 = *self;
        self.set_area(&Position { x: tl.x, y: br.y }, br, t, overwrite);
        let ghost m2 = *self;
        self.set_area(tl, &Position { x: tl.x, y: br.y }, t, overwrite);
        let ghost m3 = *self;
        self.set_area(&Position { x: br.x, y: tl.y }, br, t, overwrite);
        proof {
            assert forall|i: int, j: int| m0.in_bounds(i, j) implies self.cell(i, j) == (
                if spec_on_border(tl.x as int, tl.y as int, br.x as int, br.y as int, i, j)
                    && spec_writable(m0.cell(i, j), overwrite) {
                    *t
                } else {
                    m0.cell(i, j)
                }) by {
                assert(m1.in_bounds(i, j) && m2.in_bounds(i, j) && m3.in_bounds(i, j));
                assert(m1.cell(i, j) == (
                    if spec_in_rect(tl.x as int, tl.y as int, br.x as int, tl.y as int, i, j)
                        && spec_writable(m0.cell(i, j), overwrite) {
                        *t
                    } else {
                        m0.cell(i, j)
                    }));
                assert(m2.cell(i, j) == (
                    if spec_in_rect(tl.x as int, br.y as int, br.x as int, br.y as int, i, j)
                        && spec_writable(m1.cell(i, j), overwrite) {
                        *t
                    } else {
                        m1.cell(i, j)
                    }));
                assert(m3.cell(i, j) == (
                    if spec_in_rect(tl.x as int, tl.y as int, tl.x as int, br.y as int, i, j)
                        && spec_writable(m2.cell(i, j), overwrite) {
                        *t
                    } else {
                        m2.cell(i, j)
                    }));
                assert(self.cell(i, j) == (
                    if spec_in_rect(br.x as int, tl.y as int, br.x as int, br.y as int, i, j)
                        && spec_writable(m3.cell(i, j), overwrite) {
                        *t
                    } else {
                        m3.cell(i, j)
                    }));
            }
        }
    }
}

} // verus!
