//! Cells, fixed-point positions, and the arithmetic that maps one to the other.

use vstd::prelude::*;

verus! {

/// Sub-cell units in one grid cell. A position or a speed of `UNITS_PER_CELL`
/// is exactly one cell.
pub const UNITS_PER_CELL: i64 = 100_000;

/// Half a cell, the rounding threshold of [`quantize`].
pub const HALF_CELL: i64 = 50_000;

/// One cell of the grid, by column `x` and row `y`. The grid's origin is its
/// top-left cell; `y` grows downwards.
#[derive(Clone, Copy, PartialEq, Eq, Debug, Structural)]
pub struct Cell {
    pub x: i64,
    pub y: i64,
}

/// The cell coordinate nearest to the fixed-point coordinate `v`. A value
/// exactly halfway between two cells goes to the one farther from zero.
pub open spec fn nearest_cell(v: int) -> int {
    if v >= 0 {
        (v + HALF_CELL) / (UNITS_PER_CELL as int)
    } else {
        -((HALF_CELL - v) / (UNITS_PER_CELL as int))
    }
}

/// The cell that holds the fixed-point position `(x, y)`.
pub open spec fn cell_at(x: int, y: int) -> Cell {
    Cell { x: nearest_cell(x) as i64, y: nearest_cell(y) as i64 }
}

/// `v` clamped to the range of `i64`.
pub open spec fn saturate(v: int) -> int {
    if v < i64::MIN {
        i64::MIN as int
    } else if v > i64::MAX {
        i64::MAX as int
    } else {
        v
    }
}

/// Whether `c` lies inside a grid of `size.0` columns and `size.1` rows.
pub open spec fn in_grid(c: Cell, size: (i32, i32)) -> bool {
    0 <= c.x < size.0 && 0 <= c.y < size.1
}

/// The nearest cell coordinate stays within one cell of `v / UNITS_PER_CELL`,
/// so it always fits in an `i64`, and it is off by at most half a cell.
pub proof fn lemma_nearest_cell_is_near(v: int)
    ensures
        -HALF_CELL <= v - nearest_cell(v) * UNITS_PER_CELL <= HALF_CELL,
        i64::MIN <= v <= i64::MAX ==> i64::MIN <= nearest_cell(v) <= i64::MAX,
{
}

/// Rounding to the nearest cell keeps the order of positions.
pub proof fn lemma_nearest_cell_monotonic(a: int, b: int)
    requires
        a <= b,
    ensures
        nearest_cell(a) <= nearest_cell(b),
{
}

/// Rounds a fixed-point coordinate to the nearest cell coordinate.
pub fn quantize(v: i64) -> (q: i64)
    ensures
        q == nearest_cell(v as int),
{
    if v >= 0 {
        let whole: i64 = v / UNITS_PER_CELL;
        let part: i64 = v % UNITS_PER_CELL;
        if part >= HALF_CELL {
            whole + 1
        } else {
            whole
        }
    } else {
        // -(v + 1) is |v| - 1, which cannot overflow even for i64::MIN.
        let below: i64 = -(v + 1);
        let whole: i64 = below / UNITS_PER_CELL;
        let part: i64 = below % UNITS_PER_CELL;
        if part + 1 >= HALF_CELL {
            -(whole + 1)
        } else {
            -whole
        }
    }
}

/// Rounds a fixed-point position to the cell that holds it.
pub fn quantize_position(x: i64, y: i64) -> (c: Cell)
    ensures
        c == cell_at(x as int, y as int),
{
    proof {
        lemma_nearest_cell_is_near(x as int);
        lemma_nearest_cell_is_near(y as int);
    }
    Cell { x: quantize(x), y: quantize(y) }
}

/// `a + b`, held at the ends of the `i64` range instead of overflowing.
pub fn saturating_sum(a: i64, b: i64) -> (r: i64)
    ensures
        r == saturate(a + b),
{
    let wide: i128 = a as i128 + b as i128;
    if wide > i64::MAX as i128 {
        i64::MAX
    } else if wide < i64::MIN as i128 {
        i64::MIN
    } else {
        wide as i64
    }
}

/// `a - b`, held at the ends of the `i64` range instead of overflowing.
pub fn saturating_difference(a: i64, b: i64) -> (r: i64)
    ensures
        r == saturate(a - b),
{
    let wide: i128 = a as i128 - b as i128;
    if wide > i64::MAX as i128 {
        i64::MAX
    } else if wide < i64::MIN as i128 {
        i64::MIN
    } else {
        wide as i64
    }
}

/// Whether `c` lies inside a grid of `size.0` columns and `size.1` rows.
pub fn cell_in_grid(c: Cell, size: (i32, i32)) -> (inside: bool)
    ensures
        inside == in_grid(c, size),
{
    0 <= c.x && c.x < size.0 as i64 && 0 <= c.y && c.y < size.1 as i64
}

} // verus!
