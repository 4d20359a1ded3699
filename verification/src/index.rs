//! The deterministic 3D <-> linear index mapping used to address chunks
//! within a scene and voxels within a chunk.
//!
//! `flatten_index` lays a 3D grid out in row-major order
//! (`x` fastest, then `y`, then `z`); `expand_index` is its inverse.
//! The two are proved to be exact inverses over the valid coordinate range.

use vstd::prelude::*;

verus! {

use vstd::arithmetic::div_mod::{
    lemma_fundamental_div_mod_converse,
    lemma_div_denominator,
    lemma_fundamental_div_mod,
    lemma_mod_division_less_than_divisor,
    lemma_div_pos_is_pos,
};

/// An unsigned 3D grid coordinate (or a triple of grid dimensions).
#[derive(Clone, Copy, PartialEq, Eq, Structural, Debug)]
pub struct UVec3 {
    pub x: u32,
    pub y: u32,
    pub z: u32,
}

impl UVec3 {
    pub fn new(x: u32, y: u32, z: u32) -> (v: UVec3)
        ensures
            v == (UVec3 { x, y, z }),
    {
        UVec3 { x, y, z }
    }

    /// Every component strictly below the matching component of `dims`.
    pub open spec fn spec_in_bounds(self, dims: UVec3) -> bool {
        self.x < dims.x && self.y < dims.y && self.z < dims.z
    }

    /// Runtime bounds check matching [`UVec3::spec_in_bounds`].
    pub fn in_bounds(self, dims: UVec3) -> (r: bool)
        ensures
            r == self.spec_in_bounds(dims),
    {
        self.x < dims.x && self.y < dims.y && self.z < dims.z
    }
}

/// Number of cells of a grid with the given dimensions.
pub open spec fn spec_cell_count(dims: UVec3) -> int {
    dims.x * dims.y * dims.z
}

/// Row-major linear index of `pos` in a grid with dimensions `dims`.
pub open spec fn spec_flatten(pos: UVec3, dims: UVec3) -> int {
    pos.x + dims.x * (pos.y + pos.z * dims.y)
}

/// Inverse of [`spec_flatten`]: the 3D coordinate whose row-major index
/// is `idx`.
pub open spec fn spec_expand(idx: int, dims: UVec3) -> UVec3 {
    UVec3 {
        x: (idx % (dims.x as int)) as u32,
        y: ((idx / (dims.x as int)) % (dims.y as int)) as u32,
        z: (idx / (dims.x as int * dims.y as int)) as u32,
    }
}

/// An in-bounds coordinate flattens to an index below the cell count.
pub proof fn lemma_flatten_in_range(pos: UVec3, dims: UVec3)
    requires
        pos.spec_in_bounds(dims),
    ensures
        0 <= spec_flatten(pos, dims) < spec_cell_count(dims),
{
    let (x, y, z) = (pos.x as int, pos.y as int, pos.z as int);
    let (dx, dy, dz) = (dims.x as int, dims.y as int, dims.z as int);
    assert(x + dx * (y + z * dy) < dx * dy * dz) by (nonlinear_arith)
        requires
            0 <= x < dx,
            0 <= y < dy,
            0 <= z < dz,
    ;
    assert(0 <= x + dx * (y + z * dy)) by (nonlinear_arith)
        requires
            0 <= x,
            0 <= dx,
            0 <= y,
            0 <= z,
            0 <= dy,
    ;
}

/// Expanding a flattened in-bounds coordinate gives the coordinate back:
/// the mapping is injective over the valid range.
pub proof fn lemma_expand_flatten(pos: UVec3, dims: UVec3)
    requires
        pos.spec_in_bounds(dims),
    ensures
        spec_expand(spec_flatten(pos, dims), dims) == pos,
{
    let (x, y, z) = (pos.x as int, pos.y as int, pos.z as int);
    let (dx, dy) = (dims.x as int, dims.y as int);
    let f = spec_flatten(pos, dims);
    let k = y + z * dy;

    // f == dx * k + x with 0 <= x < dx, so f % dx == x and f / dx == k.
    lemma_fundamental_div_mod_converse(f, dx, k, x);
    // k == dy * z + y with 0 <= y < dy, so k % dy == y.
    lemma_fundamental_div_mod_converse(k, dy, z, y);

    // f == (dx * dy) * z + (x + dx * y) with the remainder below dx * dy.
    assert(f == (dx * dy) * z + (x + dx * y)) by (nonlinear_arith)
        requires
            f == x + dx * (y + z * dy),
    ;
    assert(0 <= x + dx * y < dx * dy) by (nonlinear_arith)
        requires
            0 <= x < dx,
            0 <= y < dy,
    ;
    lemma_fundamental_div_mod_converse(f, dx * dy, z, x + dx * y);
}

/// Flattening an expanded index gives the index back: the mapping is
/// surjective onto the valid index range.
pub proof fn lemma_flatten_expand(idx: int, dims: UVec3)
    requires
        dims.x > 0,
        dims.y > 0,
        dims.z > 0,
        0 <= idx < spec_cell_count(dims),
    ensures
        spec_expand(idx, dims).spec_in_bounds(dims),
        spec_flatten(spec_expand(idx, dims), dims) == idx,
{
    let (dx, dy, dz) = (dims.x as int, dims.y as int, dims.z as int);
    let q1 = idx / dx;
    let r1 = idx % dx;
    let r2 = q1 % dy;
    let q3 = idx / (dx * dy);

    // idx / (dx * dy) == (idx / dx) / dy
    lemma_div_denominator(idx, dx, dy);
    // idx == dx * (idx / dx) + idx % dx
    lemma_fundamental_div_mod(idx, dx);
    // idx / dx == dy * ((idx / dx) / dy) + (idx / dx) % dy
    lemma_fundamental_div_mod(q1, dy);
    lemma_mod_division_less_than_divisor(idx, dx);
    lemma_mod_division_less_than_divisor(q1, dy);
    lemma_div_pos_is_pos(idx, dx);
    lemma_div_pos_is_pos(q1, dy);

    // The z component is in bounds: idx < dx * dy * dz forces
    // idx / (dx * dy) < dz.
    assert(q3 < dz) by (nonlinear_arith)
        requires
            dx > 0,
            dy > 0,
            dz > 0,
            0 <= idx < dx * dy * dz,
            idx == dx * q1 + r1,
            q1 == dy * q3 + r2,
            0 <= r1,
            0 <= r2,
            0 <= q3,
    ;

    // Recombining the three extracted digits gives the index back.
    assert(r1 + dx * (r2 + q3 * dy) == idx) by (nonlinear_arith)
        requires
            idx == dx * q1 + r1,
            q1 == dy * q3 + r2,
    ;
}

/// Row-major linear index of `position` within a grid of the given
/// `dimensions`; the grid-addressing primitive for chunks and voxels.
pub fn flatten_index(position: UVec3, dimensions: UVec3) -> (idx: usize)
    requires
        position.spec_in_bounds(dimensions),
        spec_cell_count(dimensions) <= usize::MAX,
    ensures
        idx == spec_flatten(position, dimensions),
        idx < spec_cell_count(dimensions),
{
    proof {
        lemma_flatten_in_range(position, dimensions);
        assert((position.y + position.z as int * dimensions.y) < dimensions.y as int * dimensions.z)
            by (nonlinear_arith)
            requires
                position.y < dimensions.y,
                position.z < dimensions.z,
        ;
        assert(dimensions.y as int * dimensions.z <= spec_cell_count(dimensions) || dimensions.x == 0)
            by (nonlinear_arith)
            requires
                spec_cell_count(dimensions) == dimensions.x as int * dimensions.y * dimensions.z,
        ;
    }
    let inner: usize = position.y as usize + position.z as usize * dimensions.y as usize;
    position.x as usize + dimensions.x as usize * inner
}

/// Inverse of [`flatten_index`]: recovers the 3D coordinate of a
/// row-major linear index.
pub fn expand_index(idx: usize, dimensions: UVec3) -> (pos: UVec3)
    requires
        dimensions.x > 0,
        dimensions.y > 0,
        dimensions.z > 0,
        0 <= idx < spec_cell_count(dimensions),
    ensures
        pos == spec_expand(idx as int, dimensions),
        pos.spec_in_bounds(dimensions),
{
    proof {
        lemma_flatten_expand(idx as int, dimensions);
        lemma_div_denominator(idx as int, dimensions.x as int, dimensions.y as int);
        assert(idx as int / (dimensions.x as int) <= idx) by (nonlinear_arith)
            requires
                dimensions.x > 0,
                0 <= idx,
        ;
    }
    let x = (idx % dimensions.x as usize) as u32;
    let y = ((idx / dimensions.x as usize) % dimensions.y as usize) as u32;
    let z = ((idx / dimensions.x as usize) / dimensions.y as usize) as u32;
    UVec3 { x, y, z }
}

} // verus!
