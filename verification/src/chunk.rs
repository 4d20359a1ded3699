//! A chunk: a fixed 8x8x8 grid of compressed voxels, its position in
//! scene-grid coordinates, and a derived visibility flag.
//!
//! The visibility flag always equals "at least one voxel holds a
//! non-EMPTY material" immediately after any mutating call; this is
//! part of the chunk's well-formedness invariant.  Shape-filling
//! primitives (`fill_borders`, `fill_sphere`) set whole regions in one
//! pass; `modify_voxel_at` is the primitive for arbitrary single-voxel
//! edits.

use vstd::prelude::*;

verus! {

use crate::index::{UVec3, spec_flatten, spec_expand, spec_cell_count, flatten_index, expand_index,
    lemma_expand_flatten};
use crate::quant::{spec_quantize_dir, spec_scaled_len, quantize_dir, lemma_isqrt_property,
    lemma_quantize_axis_in_range, lemma_scaled_len_dominates};
use crate::voxel::{Voxel, CompressedVoxel, MATERIAL_EMPTY, spec_compress, spec_decompress,
    lemma_pack_unpack};
use crate::{CHUNK_SIZE, VOXELS_PER_CHUNK, CHUNKS_PER_SCENE, spec_chunk_dims, spec_scene_dims,
    chunk_dims, scene_dims};

/// True when any voxel of the sequence holds geometry.
pub open spec fn spec_has_solid(vs: Seq<CompressedVoxel>) -> bool {
    exists|i: int| 0 <= i < vs.len() && vs[i].spec_is_solid()
}

/// A voxel coordinate on the chunk's outer shell: some axis is 0 or
/// `CHUNK_SIZE - 1`.
pub open spec fn spec_is_border(p: UVec3) -> bool {
    ||| p.x == 0
    ||| p.x + 1 == CHUNK_SIZE
    ||| p.y == 0
    ||| p.y + 1 == CHUNK_SIZE
    ||| p.z == 0
    ||| p.z + 1 == CHUNK_SIZE
}

/// The offset of a voxel coordinate from the chunk center on one axis.
pub open spec fn spec_center_offset(c: u32) -> int {
    c - (CHUNK_SIZE as int) / 2
}

/// A voxel coordinate strictly within distance `CHUNK_SIZE / 2` of the
/// chunk center.
pub open spec fn spec_in_sphere(p: UVec3) -> bool {
    let dx = spec_center_offset(p.x);
    let dy = spec_center_offset(p.y);
    let dz = spec_center_offset(p.z);
    dx * dx + dy * dy + dz * dz < ((CHUNK_SIZE as int) / 2) * ((CHUNK_SIZE as int) / 2)
}

/// The voxel a filling primitive writes at local coordinate `p`: the
/// given material and albedo, and a normal pointing outward from the
/// chunk center through `p`.
pub open spec fn spec_filled_voxel(p: UVec3, material: u32, albedo: UVec3) -> Voxel {
    Voxel {
        normal: spec_quantize_dir(
            spec_center_offset(p.x),
            spec_center_offset(p.y),
            spec_center_offset(p.z),
        ),
        albedo,
        material,
    }
}

/// The compressed voxel at linear index `j` after a border fill over
/// the previous contents `vs`.
pub open spec fn spec_fill_borders_at(
    vs: Seq<CompressedVoxel>,
    j: int,
    material: u32,
    albedo: UVec3,
) -> CompressedVoxel {
    let p = spec_expand(j, spec_chunk_dims());
    if spec_is_border(p) {
        spec_compress(spec_filled_voxel(p, material, albedo))
    } else {
        vs[j]
    }
}

/// The compressed voxel at linear index `j` after a sphere fill over
/// the previous contents `vs`.
pub open spec fn spec_fill_sphere_at(
    vs: Seq<CompressedVoxel>,
    j: int,
    material: u32,
    albedo: UVec3,
) -> CompressedVoxel {
    let p = spec_expand(j, spec_chunk_dims());
    if spec_in_sphere(p) {
        spec_compress(spec_filled_voxel(p, material, albedo))
    } else {
        vs[j]
    }
}

/// A voxel any filling primitive writes is well formed, so its
/// compressed form unpacks to it exactly.
pub proof fn lemma_filled_voxel_wf(p: UVec3, material: u32, albedo: UVec3)
    requires
        material < 256,
        albedo.x < 256 && albedo.y < 256 && albedo.z < 256,
    ensures
        spec_filled_voxel(p, material, albedo).wf(),
{
    let dx = spec_center_offset(p.x);
    let dy = spec_center_offset(p.y);
    let dz = spec_center_offset(p.z);
    let s = spec_scaled_len(dx, dy, dz);
    lemma_isqrt_property((0x1_0000 * (dx * dx + dy * dy + dz * dz)) as nat);
    if s > 0 {
        lemma_scaled_len_dominates(dx, dx, dy, dz);
        lemma_scaled_len_dominates(dy, dx, dy, dz);
        lemma_scaled_len_dominates(dz, dx, dy, dz);
        lemma_quantize_axis_in_range(dx, s);
        lemma_quantize_axis_in_range(dy, s);
        lemma_quantize_axis_in_range(dz, s);
    }
}

/// Visibility law: a well-formed chunk — and every mutating call
/// leaves the chunk well formed — is visible exactly when some voxel
/// holds a non-EMPTY material; in particular, a chunk whose voxels
/// are all EMPTY is invisible.
pub proof fn lemma_visibility_flag(c: &Chunk)
    requires
        c.wf(),
    ensures
        c.spec_visible() <==> spec_has_solid(c.spec_voxels()),
        (forall|i: int|
            0 <= i < c.spec_voxels().len() ==> !(#[trigger] c.spec_voxels()[i]).spec_is_solid())
            ==> !c.spec_visible(),
{
}

/// A fixed 8x8x8 grid of compressed voxels at one scene-grid position,
/// with a derived visibility flag.
#[derive(Debug)]
pub struct Chunk {
    /// Position of this chunk in scene-grid coordinates.
    pos: UVec3,
    /// Whether any voxel of this chunk holds geometry.
    visible: bool,
    /// The chunk's voxels, row-major by local coordinate.
    voxels: Vec<CompressedVoxel>,
}

impl Chunk {
    /// The chunk's position in scene-grid coordinates.
    pub closed spec fn spec_pos(&self) -> UVec3 {
        self.pos
    }

    /// The chunk's voxels, row-major by local coordinate.
    pub closed spec fn spec_voxels(&self) -> Seq<CompressedVoxel> {
        self.voxels@
    }

    /// The chunk's derived visibility flag.
    pub closed spec fn spec_visible(&self) -> bool {
        self.visible
    }

    /// Well-formedness: full voxel grid, position within the scene
    /// grid, and the visibility flag equal to "some voxel is solid".
    pub open spec fn wf(&self) -> bool {
        &&& self.spec_voxels().len() == VOXELS_PER_CHUNK
        &&& self.spec_pos().spec_in_bounds(spec_scene_dims())
        &&& self.spec_visible() == spec_has_solid(self.spec_voxels())
    }

    /// The chunk's position in scene-grid coordinates.
    pub fn pos(&self) -> (p: UVec3)
        ensures
            p == self.spec_pos(),
    {
        self.pos
    }

    /// Whether any voxel of this chunk holds geometry.
    pub fn is_visible(&self) -> (r: bool)
        ensures
            r == self.spec_visible(),
    {
        self.visible
    }

    /// Bounds-checked lookup of the compressed voxel at local
    /// coordinate `pos`; out-of-range coordinates return `None`.
    pub fn voxel_at(&self, pos: UVec3) -> (r: Option<CompressedVoxel>)
        requires
            self.wf(),
        ensures
            match r {
                Some(c) => pos.spec_in_bounds(spec_chunk_dims()) && c == self.spec_voxels()[
                    spec_flatten(pos, spec_chunk_dims())],
                None => !pos.spec_in_bounds(spec_chunk_dims()),
            },
    {
        let dims = chunk_dims();
        if pos.in_bounds(dims) {
            let idx = flatten_index(pos, dims);
            Some(self.voxels[idx])
        } else {
            None
        }
    }

    /// The number of voxels the chunk holds.
    pub fn voxel_count(&self) -> (n: usize)
        ensures
            n == self.spec_voxels().len(),
    {
        self.voxels.len()
    }

    /// The compressed voxel at linear index `i`.
    pub fn voxel_by_index(&self, i: usize) -> (c: CompressedVoxel)
        requires
            i < self.spec_voxels().len(),
        ensures
            c == self.spec_voxels()[i as int],
    {
        self.voxels[i]
    }

    /// A fresh chunk for linear scene index `i`: positioned by the
    /// 3D<->linear mapping, every voxel EMPTY, invisible.
    pub fn empty(i: usize) -> (c: Chunk)
        requires
            i < CHUNKS_PER_SCENE,
        ensures
            c.wf(),
            c.spec_pos() == spec_expand(i as int, spec_scene_dims()),
            !c.spec_visible(),
            forall|j: int|
                0 <= j < VOXELS_PER_CHUNK ==> c.spec_voxels()[j] == spec_compress(
                    Voxel::spec_default(),
                ),
    {
        let pos = expand_index(i, scene_dims());
        let empty_voxel = Voxel::default().compress();
        let mut voxels: Vec<CompressedVoxel> = Vec::new();
        let mut k: usize = 0;
        while k < VOXELS_PER_CHUNK
            invariant
                k == voxels@.len(),
                k <= VOXELS_PER_CHUNK,
                empty_voxel == spec_compress(Voxel::spec_default()),
                forall|j: int| 0 <= j < k ==> voxels@[j] == empty_voxel,
            decreases VOXELS_PER_CHUNK - k,
        {
            voxels.push(empty_voxel);
            k = k + 1;
        }
        proof {
            lemma_pack_unpack(MATERIAL_EMPTY, 127, 127, 127);
            assert(!spec_compress(Voxel::spec_default()).spec_is_solid());
        }
        Chunk { pos, visible: false, voxels }
    }

    /// Recomputes the visibility flag with a full scan of the voxels.
    fn recompute_visibility(&mut self)
        ensures
            final(self).spec_pos() == old(self).spec_pos(),
            final(self).spec_voxels() == old(self).spec_voxels(),
            final(self).spec_visible() == spec_has_solid(final(self).spec_voxels()),
    {
        let n = self.voxels.len();
        let mut found = false;
        let mut k: usize = 0;
        while k < n
            invariant
                n == self.voxels@.len(),
                k <= n,
                *self == *old(self),
                found == exists|j: int| 0 <= j < k && self.voxels@[j].spec_is_solid(),
            decreases n - k,
        {
            if self.voxels[k].is_solid() {
                found = true;
            }
            k = k + 1;
        }
        self.visible = found;
    }

    /// Sets every voxel on the chunk's outer shell to the given
    /// material and albedo, with the normal pointing outward from the
    /// chunk center; recomputes visibility once after the full pass.
    pub fn fill_borders(&mut self, material: u32, albedo: UVec3)
        requires
            old(self).wf(),
            material < 256,
            albedo.x < 256 && albedo.y < 256 && albedo.z < 256,
        ensures
            final(self).wf(),
            final(self).spec_pos() == old(self).spec_pos(),
            forall|j: int|
                0 <= j < VOXELS_PER_CHUNK ==> final(self).spec_voxels()[j] == spec_fill_borders_at(
                    old(self).spec_voxels(),
                    j,
                    material,
                    albedo,
                ),
            material != MATERIAL_EMPTY ==> final(self).spec_visible(),
    {
        let dims = chunk_dims();
        proof {
            assert(spec_cell_count(spec_chunk_dims()) == VOXELS_PER_CHUNK);
        }
        let ghost old_vs = self.voxels@;
        let mut idx: usize = 0;
        while idx < VOXELS_PER_CHUNK
            invariant
                dims == spec_chunk_dims(),
                spec_cell_count(spec_chunk_dims()) == VOXELS_PER_CHUNK,
                self.voxels@.len() == VOXELS_PER_CHUNK,
                idx <= VOXELS_PER_CHUNK,
                self.pos == old(self).spec_pos(),
                old_vs == old(self).spec_voxels(),
                old_vs.len() == VOXELS_PER_CHUNK,
                material < 256,
                albedo.x < 256 && albedo.y < 256 && albedo.z < 256,
                forall|j: int|
                    0 <= j < idx ==> self.voxels@[j] == spec_fill_borders_at(
                        old_vs,
                        j,
                        material,
                        albedo,
                    ),
                forall|j: int| idx <= j < VOXELS_PER_CHUNK ==> self.voxels@[j] == old_vs[j],
            decreases VOXELS_PER_CHUNK - idx,
        {
            let p = expand_index(idx, dims);
            let border = p.x == 0 || p.x == CHUNK_SIZE - 1 || p.y == 0 || p.y == CHUNK_SIZE - 1
                || p.z == 0 || p.z == CHUNK_SIZE - 1;
            if border {
                let c = fill_voxel(p, material, albedo);
                self.voxels.set(idx, c);
            }
            idx = idx + 1;
        }
        self.recompute_visibility();
        proof {
            lemma_borders_mark_solid(self.voxels@, old_vs, material, albedo);
        }
    }

    /// Sets every voxel within distance `CHUNK_SIZE / 2` of the chunk
    /// center to the given material and albedo, with a radial normal;
    /// recomputes visibility once after the full pass.
    pub fn fill_sphere(&mut self, material: u32, albedo: UVec3)
        requires
            old(self).wf(),
            material < 256,
            albedo.x < 256 && albedo.y < 256 && albedo.z < 256,
        ensures
            final(self).wf(),
            final(self).spec_pos() == old(self).spec_pos(),
            forall|j: int|
                0 <= j < VOXELS_PER_CHUNK ==> final(self).spec_voxels()[j] == spec_fill_sphere_at(
                    old(self).spec_voxels(),
                    j,
                    material,
                    albedo,
                ),
            material != MATERIAL_EMPTY ==> final(self).spec_visible(),
    {
        let dims = chunk_dims();
        proof {
            assert(spec_cell_count(spec_chunk_dims()) == VOXELS_PER_CHUNK);
        }
        let ghost old_vs = self.voxels@;
        let mut idx: usize = 0;
        while idx < VOXELS_PER_CHUNK
            invariant
                dims == spec_chunk_dims(),
                spec_cell_count(spec_chunk_dims()) == VOXELS_PER_CHUNK,
                self.voxels@.len() == VOXELS_PER_CHUNK,
                idx <= VOXELS_PER_CHUNK,
                self.pos == old(self).spec_pos(),
                old_vs == old(self).spec_voxels(),
                old_vs.len() == VOXELS_PER_CHUNK,
                material < 256,
                albedo.x < 256 && albedo.y < 256 && albedo.z < 256,
                forall|j: int|
                    0 <= j < idx ==> self.voxels@[j] == spec_fill_sphere_at(
                        old_vs,
                        j,
                        material,
                        albedo,
                    ),
                forall|j: int| idx <= j < VOXELS_PER_CHUNK ==> self.voxels@[j] == old_vs[j],
            decreases VOXELS_PER_CHUNK - idx,
        {
            let p = expand_index(idx, dims);
            let dx = p.x as i64 - (CHUNK_SIZE as i64) / 2;
            let dy = p.y as i64 - (CHUNK_SIZE as i64) / 2;
            let dz = p.z as i64 - (CHUNK_SIZE as i64) / 2;
            proof {
                assert(dx * dx <= 64 && dy * dy <= 64 && dz * dz <= 64 && dx * dx >= 0 && dy * dy
                    >= 0 && dz * dz >= 0) by (nonlinear_arith)
                    requires
                        -8 <= dx <= 8,
                        -8 <= dy <= 8,
                        -8 <= dz <= 8,
                ;
            }
            let d2 = dx * dx + dy * dy + dz * dz;
            if d2 < (CHUNK_SIZE as i64 / 2) * (CHUNK_SIZE as i64 / 2) {
                let c = fill_voxel(p, material, albedo);
                self.voxels.set(idx, c);
            }
            idx = idx + 1;
        }
        self.recompute_visibility();
        proof {
            lemma_sphere_marks_solid(self.voxels@, old_vs, material, albedo);
        }
    }

    /// Decompresses the voxel at local coordinate `pos`, applies the
    /// caller-supplied mutation, recompresses and stores the result,
    /// and recomputes visibility; the primitive for arbitrary
    /// single-voxel edits.  Out-of-range coordinates change nothing
    /// and return false.
    pub fn modify_voxel_at<F: Fn(Voxel) -> Voxel>(&mut self, pos: UVec3, f: F) -> (r: bool)
        requires
            old(self).wf(),
            forall|v: Voxel| v.wf() ==> call_requires(f, (v,)),
            forall|v: Voxel, r: Voxel| v.wf() && call_ensures(f, (v,), r) ==> r.wf(),
        ensures
            final(self).wf(),
            final(self).spec_pos() == old(self).spec_pos(),
            r == pos.spec_in_bounds(spec_chunk_dims()),
            !r ==> *final(self) == *old(self),
            r ==> exists|nv: Voxel|
                {
                    &&& call_ensures(
                        f,
                        (
                            spec_decompress(
                                old(self).spec_voxels()[spec_flatten(pos, spec_chunk_dims())],
                            ),
                        ),
                        nv,
                    )
                    &&& final(self).spec_voxels() == old(self).spec_voxels().update(
                        spec_flatten(pos, spec_chunk_dims()),
                        spec_compress(nv),
                    )
                },
    {
        let dims = chunk_dims();
        if !pos.in_bounds(dims) {
            return false;
        }
        let idx = flatten_index(pos, dims);
        let v = self.voxels[idx].decompress();
        let nv = f(v);
        let c = nv.compress();
        self.voxels.set(idx, c);
        self.recompute_visibility();
        proof {
            assert(call_ensures(f, (v,), nv) && self.spec_voxels() == old(
                self,
            ).spec_voxels().update(spec_flatten(pos, spec_chunk_dims()), spec_compress(nv)));
        }
        true
    }
}

/// Builds and compresses the voxel a filling primitive writes at local
/// coordinate `p`.
fn fill_voxel(p: UVec3, material: u32, albedo: UVec3) -> (c: CompressedVoxel)
    requires
        p.spec_in_bounds(spec_chunk_dims()),
        material < 256,
        albedo.x < 256 && albedo.y < 256 && albedo.z < 256,
    ensures
        c == spec_compress(spec_filled_voxel(p, material, albedo)),
{
    let dx = p.x as i64 - (CHUNK_SIZE as i64) / 2;
    let dy = p.y as i64 - (CHUNK_SIZE as i64) / 2;
    let dz = p.z as i64 - (CHUNK_SIZE as i64) / 2;
    let normal = quantize_dir(dx, dy, dz);
    let v = Voxel { normal, albedo, material };
    v.compress()
}

/// After a border fill with a non-EMPTY material, the voxel at the
/// origin corner is solid, so the chunk is visible.
proof fn lemma_borders_mark_solid(
    vs: Seq<CompressedVoxel>,
    old_vs: Seq<CompressedVoxel>,
    material: u32,
    albedo: UVec3,
)
    requires
        vs.len() == VOXELS_PER_CHUNK,
        old_vs.len() == VOXELS_PER_CHUNK,
        material < 256,
        albedo.x < 256 && albedo.y < 256 && albedo.z < 256,
        forall|j: int|
            0 <= j < VOXELS_PER_CHUNK ==> vs[j] == spec_fill_borders_at(
                old_vs,
                j,
                material,
                albedo,
            ),
    ensures
        material != MATERIAL_EMPTY ==> spec_has_solid(vs),
{
    let origin = UVec3 { x: 0, y: 0, z: 0 };
    lemma_expand_flatten(origin, spec_chunk_dims());
    assert(spec_flatten(origin, spec_chunk_dims()) == 0);
    assert(spec_is_border(spec_expand(0, spec_chunk_dims())));
    let filled = spec_filled_voxel(origin, material, albedo);
    lemma_filled_voxel_wf(origin, material, albedo);
    lemma_pack_unpack(filled.material, filled.normal.x, filled.normal.y, filled.normal.z);
    if material != MATERIAL_EMPTY {
        assert(vs[0].spec_is_solid());
    }
}

/// After a sphere fill with a non-EMPTY material, the voxel at the
/// chunk center is solid, so the chunk is visible.
proof fn lemma_sphere_marks_solid(
    vs: Seq<CompressedVoxel>,
    old_vs: Seq<CompressedVoxel>,
    material: u32,
    albedo: UVec3,
)
    requires
        vs.len() == VOXELS_PER_CHUNK,
        old_vs.len() == VOXELS_PER_CHUNK,
        material < 256,
        albedo.x < 256 && albedo.y < 256 && albedo.z < 256,
        forall|j: int|
            0 <= j < VOXELS_PER_CHUNK ==> vs[j] == spec_fill_sphere_at(old_vs, j, material, albedo),
    ensures
        material != MATERIAL_EMPTY ==> spec_has_solid(vs),
{
    let center = UVec3 { x: 4, y: 4, z: 4 };
    lemma_expand_flatten(center, spec_chunk_dims());
    let cidx = spec_flatten(center, spec_chunk_dims());
    assert(0 <= cidx < VOXELS_PER_CHUNK);
    assert(spec_in_sphere(spec_expand(cidx, spec_chunk_dims())));
    let filled = spec_filled_voxel(center, material, albedo);
    lemma_filled_voxel_wf(center, material, albedo);
    lemma_pack_unpack(filled.material, filled.normal.x, filled.normal.y, filled.normal.z);
    if material != MATERIAL_EMPTY {
        assert(vs[cidx].spec_is_solid());
    }
}

} // verus!
