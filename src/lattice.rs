//! The `resolution × resolution` lattice of sample coordinates over
//! `[-1, 1] × [-1, 1]`, walked in row-major order.

use vstd::prelude::*;

verus! {

/// A rational domain coordinate `num / den`.
#[derive(Clone, Copy, Debug, PartialEq, Eq, Structural)]
pub struct Coord {
    pub num: i64,
    pub den: u32,
}

/// The coordinate of lattice index `i`: `(i + 1/2)·(2 / resolution) − 1`,
/// that is `(2i + 1 − resolution) / resolution`.
pub open spec fn coord_of(i: int, resolution: int) -> Coord {
    Coord { num: (2 * i + 1 - resolution) as i64, den: resolution as u32 }
}

/// One sample of the lattice: its column and row, and its domain
/// coordinates `u` (from the column) and `v` (from the row).
#[derive(Clone, Copy, Debug, PartialEq, Eq, Structural)]
pub struct LatticePoint {
    pub column: u32,
    pub row: u32,
    pub u: Coord,
    pub v: Coord,
}

/// The number of samples of a lattice.
pub open spec fn sample_count(resolution: int) -> int {
    resolution * resolution
}

/// Sample `k` in row-major order: the column runs fastest.
pub open spec fn point_of(k: int, resolution: int) -> LatticePoint {
    let column = k % resolution;
    let row = k / resolution;
    LatticePoint {
        column: column as u32,
        row: row as u32,
        u: coord_of(column, resolution),
        v: coord_of(row, resolution),
    }
}

/// The domain coordinate of lattice index `i`.
pub fn lattice_coord(i: u32, resolution: u32) -> (c: Coord)
    requires
        i < resolution,
    ensures
        c == coord_of(i as int, resolution as int),
        c.num == 2 * i + 1 - resolution,
        c.den == resolution,
{
    let num: i64 = 2 * (i as i64) + 1 - (resolution as i64);
    Coord { num, den: resolution }
}

/// The number of samples of a lattice, which always fits in a `u64`.
pub fn lattice_size(resolution: u32) -> (n: u64)
    ensures
        n == sample_count(resolution as int),
{
    let r = resolution as u64;
    assert(r * r < 0x1_0000_0000_0000_0000) by (nonlinear_arith)
        requires
            r < 0x1_0000_0000,
    ;
    r * r
}

/// Sample `k` of the lattice, in row-major order.
pub fn lattice_point(k: u64, resolution: u32) -> (p: LatticePoint)
    requires
        resolution > 0,
        k < sample_count(resolution as int),
    ensures
        p == point_of(k as int, resolution as int),
        p.column < resolution,
        p.row < resolution,
        k == p.row * resolution + p.column,
{
    let r = resolution as u64;
    let column = k % r;
    let row = k / r;
    assert(row < r) by (nonlinear_arith)
        requires
            row == k / r,
            k < r * r,
            r > 0,
    ;
    assert(k == row * r + column) by (nonlinear_arith)
        requires
            row == k / r,
            column == k % r,
            r > 0,
    ;
    let u = lattice_coord(column as u32, resolution);
    let v = lattice_coord(row as u32, resolution);
    LatticePoint { column: column as u32, row: row as u32, u, v }
}

} // verus!
