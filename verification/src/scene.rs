//! The scene: a fixed 8x8x8 grid of chunks, a four-entry material
//! table, global lighting parameters, and a millisecond time counter,
//! with whole-scene serialization into the byte-exact buffer the
//! external renderer consumes.
//!
//! Fractional parameters (light colors, material constants) are held
//! as raw IEEE-754 single-precision bit patterns in `u32` fields; the
//! serializer writes them verbatim, so the buffer layout is a pure
//! function of the scene's integer state.

use vstd::prelude::*;

verus! {

use vstd::bytes::spec_u32_to_le_bytes;

use crate::chunk::Chunk;
use crate::index::{UVec3, spec_flatten, flatten_index, spec_expand, spec_cell_count,
    lemma_flatten_in_range};
use crate::ser::{Vec4Bits, F32_ONE, spec_f32_bits_small, f32_bits_small, spec_vec4_bytes,
    spec_chunk_seq_bytes, spec_u32_seq_bytes, write_u32, write_vec4, write_chunk, write_words,
    lemma_vec4_bytes_len, lemma_u32_bytes_len, lemma_u32_seq_bytes_len,
    lemma_chunk_seq_bytes_len};
use crate::voxel::Voxel;
use crate::{SCENE_SIZE, CHUNKS_PER_SCENE, VOXELS_PER_CHUNK, spec_scene_dims, scene_dims};

/// Bit pattern of 0.5.
pub const F32_HALF: u32 = 0x3F00_0000;

/// Bit pattern of -0.5.
pub const F32_NEG_HALF: u32 = 0xBF00_0000;

/// Bit pattern of 0.8, the specular strength of the shiny preset.
pub const F32_SPECULAR_SHINY: u32 = 0x3F4C_CCCD;

/// Bit pattern of 3.0, the shininess exponent of the shiny preset.
pub const F32_SHININESS_SHINY: u32 = 0x4040_0000;

/// Bit pattern of 1.52, the refraction index of the translucent preset.
pub const F32_REFRACTION_GLASS: u32 = 0x3FC2_8F5C;

/// Bit pattern of 0.6, the default sun strength per channel.
pub const F32_SUN_STRENGTH: u32 = 0x3F19_999A;

/// Bit pattern of 0.01, the default ambient light per channel.
pub const F32_AMBIENT: u32 = 0x3C23_D70A;

/// One material table entry: an emissive flag and four optical
/// parameters carried as single-precision bit patterns.  Plain data
/// with no behavior.
#[derive(Clone, Copy, PartialEq, Eq, Structural, Debug)]
pub struct Material {
    /// 1 when the material emits light, else 0.
    pub emissive: u32,
    /// Opacity in [0, 1], as an f32 bit pattern.
    pub opacity: u32,
    /// Refraction index, as an f32 bit pattern.
    pub refraction_index: u32,
    /// Specular strength, as an f32 bit pattern.
    pub specular: u32,
    /// Shininess exponent, as an f32 bit pattern.
    pub shininess: u32,
}

/// A fully opaque, non-emissive, non-specular material.
pub open spec fn spec_default_material() -> Material {
    Material { emissive: 0, opacity: F32_ONE, refraction_index: 0, specular: 0, shininess: 0 }
}

impl Default for Material {
    /// A fully opaque, non-emissive, non-specular material.
    fn default() -> (m: Material)
        ensures
            m == spec_default_material(),
    {
        Material { emissive: 0, opacity: F32_ONE, refraction_index: 0, specular: 0, shininess: 0 }
    }
}

/// The scene's fixed material table: opaque diffuse, shiny specular,
/// translucent refractive, and emissive presets, in that order.
pub open spec fn spec_material_table() -> Seq<Material> {
    seq![
        spec_default_material(),
        Material {
            emissive: 0,
            opacity: F32_ONE,
            refraction_index: 0,
            specular: F32_SPECULAR_SHINY,
            shininess: F32_SHININESS_SHINY,
        },
        Material {
            emissive: 0,
            opacity: F32_HALF,
            refraction_index: F32_REFRACTION_GLASS,
            specular: 0,
            shininess: 0,
        },
        Material { emissive: 1, opacity: F32_ONE, refraction_index: 0, specular: 0, shininess: 0 },
    ]
}

/// The 20 bytes of one material table entry, in field order.
pub open spec fn spec_material_bytes(m: Material) -> Seq<u8> {
    spec_u32_to_le_bytes(m.emissive) + spec_u32_to_le_bytes(m.opacity) + spec_u32_to_le_bytes(
        m.refraction_index,
    ) + spec_u32_to_le_bytes(m.specular) + spec_u32_to_le_bytes(m.shininess)
}

/// The bytes of the first `n` materials of a sequence, in order.
pub open spec fn spec_material_seq_bytes(ms: Seq<Material>, n: int) -> Seq<u8>
    decreases n,
{
    if n <= 0 {
        Seq::empty()
    } else {
        spec_material_seq_bytes(ms, n - 1) + spec_material_bytes(ms[n - 1])
    }
}

/// `n` materials serialize to exactly `20 * n` bytes.
pub proof fn lemma_material_seq_bytes_len(ms: Seq<Material>, n: int)
    requires
        n >= 0,
    ensures
        spec_material_seq_bytes(ms, n).len() == 20 * n,
    decreases n,
{
    if n > 0 {
        lemma_material_seq_bytes_len(ms, n - 1);
        lemma_u32_bytes_len(ms[n - 1].emissive);
        lemma_u32_bytes_len(ms[n - 1].opacity);
        lemma_u32_bytes_len(ms[n - 1].refraction_index);
        lemma_u32_bytes_len(ms[n - 1].specular);
        lemma_u32_bytes_len(ms[n - 1].shininess);
    }
}

/// Appends the 20 bytes of one material table entry.
fn write_material(out: &mut Vec<u8>, m: &Material)
    ensures
        final(out)@ == old(out)@ + spec_material_bytes(*m),
{
    write_u32(out, m.emissive);
    write_u32(out, m.opacity);
    write_u32(out, m.refraction_index);
    write_u32(out, m.specular);
    write_u32(out, m.shininess);
    proof {
        assert(out@ =~= old(out)@ + spec_material_bytes(*m));
    }
}

/// Exact size of the serialized scene buffer: four 16-byte vectors,
/// the 4-byte time, 12 bytes of alignment padding, 512 chunks of
/// 8208 bytes, and four 20-byte materials.
pub const SCENE_BUFFER_LEN: usize = 4202656;

/// The scene: grid dimensions, lighting parameters, a time counter,
/// the chunk grid, and the material table.
#[derive(Debug)]
pub struct Scene {
    /// Number of chunks per axis; always `SCENE_SIZE` on every axis.
    size: UVec3,
    /// Direction of the sun, as f32 bit patterns.
    sun_direction: Vec4Bits,
    /// Sun light strength per channel, as f32 bit patterns.
    sun_strength: Vec4Bits,
    /// Ambient light per channel, as f32 bit patterns.
    ambient_light: Vec4Bits,
    /// Elapsed time in whole milliseconds.
    time: i32,
    /// The scene's chunks, row-major by grid coordinate.
    chunks: Vec<Chunk>,
    /// The fixed material table.
    materials: Vec<Material>,
}

/// The default sun direction, `(-0.5, 1.0, -0.5, 0.0)`.
pub open spec fn spec_default_sun_direction() -> Vec4Bits {
    Vec4Bits { x: F32_NEG_HALF, y: F32_ONE, z: F32_NEG_HALF, w: 0 }
}

/// The default sun strength, 0.6 per channel.
pub open spec fn spec_default_sun_strength() -> Vec4Bits {
    Vec4Bits { x: F32_SUN_STRENGTH, y: F32_SUN_STRENGTH, z: F32_SUN_STRENGTH, w: 0 }
}

/// The default ambient light, 0.01 per channel.
pub open spec fn spec_default_ambient_light() -> Vec4Bits {
    Vec4Bits { x: F32_AMBIENT, y: F32_AMBIENT, z: F32_AMBIENT, w: 0 }
}

impl Scene {
    /// The scene's grid dimensions.
    pub closed spec fn spec_size(&self) -> UVec3 {
        self.size
    }

    /// The sun direction, as f32 bit patterns.
    pub closed spec fn spec_sun_direction(&self) -> Vec4Bits {
        self.sun_direction
    }

    /// The sun strength, as f32 bit patterns.
    pub closed spec fn spec_sun_strength(&self) -> Vec4Bits {
        self.sun_strength
    }

    /// The ambient light, as f32 bit patterns.
    pub closed spec fn spec_ambient_light(&self) -> Vec4Bits {
        self.ambient_light
    }

    /// Elapsed time in whole milliseconds.
    pub closed spec fn spec_time(&self) -> i32 {
        self.time
    }

    /// The scene's chunks, row-major by grid coordinate.
    pub closed spec fn spec_chunks(&self) -> Seq<Chunk> {
        self.chunks@
    }

    /// The material table.
    pub closed spec fn spec_materials(&self) -> Seq<Material> {
        self.materials@
    }

    /// Well-formedness: the documented grid shape, every chunk well
    /// formed and placed by the 3D<->linear mapping, the fixed
    /// lighting defaults and material table, and a nonnegative time.
    pub open spec fn wf(&self) -> bool {
        &&& self.spec_size() == spec_scene_dims()
        &&& self.spec_chunks().len() == CHUNKS_PER_SCENE
        &&& forall|i: int|
            0 <= i < CHUNKS_PER_SCENE ==> (#[trigger] self.spec_chunks()[i]).wf()
                && self.spec_chunks()[i].spec_pos() == spec_expand(i, spec_scene_dims())
        &&& self.spec_sun_direction() == spec_default_sun_direction()
        &&& self.spec_sun_strength() == spec_default_sun_strength()
        &&& self.spec_ambient_light() == spec_default_ambient_light()
        &&& self.spec_materials() == spec_material_table()
        &&& self.spec_time() >= 0
    }

    /// Builds the fixed material table and a full grid of empty
    /// chunks, with default lighting and time zero.
    pub fn new() -> (s: Scene)
        ensures
            s.wf(),
            s.spec_time() == 0,
            forall|i: int|
                0 <= i < CHUNKS_PER_SCENE ==> !(#[trigger] s.spec_chunks()[i]).spec_visible()
                    && forall|j: int|
                    0 <= j < VOXELS_PER_CHUNK ==> s.spec_chunks()[i].spec_voxels()[j]
                        == crate::voxel::spec_compress(Voxel::spec_default()),
    {
        let mut materials: Vec<Material> = Vec::new();
        materials.push(Material::default());
        materials.push(
            Material {
                emissive: 0,
                opacity: F32_ONE,
                refraction_index: 0,
                specular: F32_SPECULAR_SHINY,
                shininess: F32_SHININESS_SHINY,
            },
        );
        materials.push(
            Material {
                emissive: 0,
                opacity: F32_HALF,
                refraction_index: F32_REFRACTION_GLASS,
                specular: 0,
                shininess: 0,
            },
        );
        materials.push(
            Material { emissive: 1, opacity: F32_ONE, refraction_index: 0, specular: 0, shininess: 0 },
        );
        proof {
            assert(materials@ =~= spec_material_table());
        }
        let mut chunks: Vec<Chunk> = Vec::new();
        let mut i: usize = 0;
        while i < CHUNKS_PER_SCENE
            invariant
                i == chunks@.len(),
                i <= CHUNKS_PER_SCENE,
                forall|k: int|
                    0 <= k < i ==> (#[trigger] chunks@[k]).wf() && chunks@[k].spec_pos()
                        == spec_expand(k, spec_scene_dims()) && !chunks@[k].spec_visible()
                        && forall|j: int|
                        0 <= j < VOXELS_PER_CHUNK ==> chunks@[k].spec_voxels()[j]
                            == crate::voxel::spec_compress(Voxel::spec_default()),
            decreases CHUNKS_PER_SCENE - i,
        {
            chunks.push(Chunk::empty(i));
            i = i + 1;
        }
        Scene {
            size: scene_dims(),
            sun_direction: Vec4Bits { x: F32_NEG_HALF, y: F32_ONE, z: F32_NEG_HALF, w: 0 },
            sun_strength: Vec4Bits { x: F32_SUN_STRENGTH, y: F32_SUN_STRENGTH, z: F32_SUN_STRENGTH, w: 0 },
            ambient_light: Vec4Bits { x: F32_AMBIENT, y: F32_AMBIENT, z: F32_AMBIENT, w: 0 },
            time: 0,
            chunks,
            materials,
        }
    }

    /// Bounds-checked lookup of the chunk at grid coordinate `pos`;
    /// out-of-range coordinates return `None` and leave the scene
    /// unchanged.
    pub fn chunk_at(&mut self, pos: UVec3) -> (r: Option<&mut Chunk>)
        requires
            old(self).wf(),
        ensures
            match r {
                Some(c) => {
                    &&& pos.spec_in_bounds(spec_scene_dims())
                    &&& *c == old(self).spec_chunks()[spec_flatten(pos, spec_scene_dims())]
                    &&& final(self).spec_chunks() == old(self).spec_chunks().update(
                        spec_flatten(pos, spec_scene_dims()),
                        *final(c),
                    )
                    &&& final(self).spec_size() == old(self).spec_size()
                    &&& final(self).spec_sun_direction() == old(self).spec_sun_direction()
                    &&& final(self).spec_sun_strength() == old(self).spec_sun_strength()
                    &&& final(self).spec_ambient_light() == old(self).spec_ambient_light()
                    &&& final(self).spec_time() == old(self).spec_time()
                    &&& final(self).spec_materials() == old(self).spec_materials()
                },
                None => {
                    &&& !pos.spec_in_bounds(spec_scene_dims())
                    &&& *final(self) == *old(self)
                },
            },
    {
        let dims = scene_dims();
        if pos.in_bounds(dims) {
            proof {
                lemma_flatten_in_range(pos, spec_scene_dims());
                assert(spec_cell_count(spec_scene_dims()) == CHUNKS_PER_SCENE);
            }
            let idx = flatten_index(pos, dims);
            Some(&mut self.chunks[idx])
        } else {
            None
        }
    }

    /// Advances the time counter by `dt` whole milliseconds; no other
    /// state changes.
    pub fn update(&mut self, dt: u32)
        requires
            old(self).wf(),
            old(self).spec_time() + dt <= i32::MAX,
        ensures
            final(self).wf(),
            final(self).spec_time() == old(self).spec_time() + dt,
            final(self).spec_chunks() == old(self).spec_chunks(),
    {
        self.time = self.time + dt as i32;
    }

    /// The elapsed time in whole milliseconds.
    pub fn time(&self) -> (t: i32)
        ensures
            t == self.spec_time(),
    {
        self.time
    }

    /// Serializes the whole scene into the renderer's byte buffer.
    pub fn into_buffer(&self) -> (out: Vec<u8>)
        requires
            self.wf(),
        ensures
            out@ == spec_scene_buffer_bytes(self),
            out@.len() == SCENE_BUFFER_LEN,
    {
        let mut out: Vec<u8> = Vec::new();
        write_vec4(
            &mut out,
            Vec4Bits {
                x: f32_bits_small(self.size.x),
                y: f32_bits_small(self.size.y),
                z: f32_bits_small(self.size.z),
                w: f32_bits_small(SCENE_SIZE),
            },
        );
        write_vec4(&mut out, self.sun_direction);
        write_vec4(&mut out, self.sun_strength);
        write_vec4(&mut out, self.ambient_light);
        write_u32(&mut out, self.time as u32);
        write_u32(&mut out, 0);
        write_u32(&mut out, 0);
        write_u32(&mut out, 0);
        let ghost header = out@;
        let n = self.chunks.len();
        let mut i: usize = 0;
        while i < n
            invariant
                self.wf(),
                n == self.spec_chunks().len(),
                i <= n,
                out@ == header + spec_chunk_seq_bytes(self.spec_chunks(), i as int),
            decreases n - i,
        {
            write_chunk(&mut out, &self.chunks[i]);
            proof {
                assert(out@ =~= header + spec_chunk_seq_bytes(self.spec_chunks(), i + 1));
            }
            i = i + 1;
        }
        let ghost with_chunks = out@;
        let m = self.materials.len();
        let mut k: usize = 0;
        while k < m
            invariant
                self.wf(),
                m == self.spec_materials().len(),
                k <= m,
                out@ == with_chunks + spec_material_seq_bytes(self.spec_materials(), k as int),
            decreases m - k,
        {
            write_material(&mut out, &self.materials[k]);
            proof {
                assert(out@ =~= with_chunks + spec_material_seq_bytes(self.spec_materials(), k + 1));
            }
            k = k + 1;
        }
        proof {
            assert(out@ =~= spec_scene_buffer_bytes(self));
            lemma_scene_buffer_len(self);
        }
        out
    }
}

/// Exact size of the serialized sample scene: 64 occupancy words,
/// the three-word size vector, and one padding word.
pub const TEMP_SCENE_BUFFER_LEN: usize = 272;

/// A small hard-coded 4x4x4 occupancy sample kept for renderer
/// bring-up: one word per cell (1 = filled), row-major with `x`
/// fastest, then `y`, then `z`.
#[derive(Debug)]
pub struct TempScene {
    /// One occupancy word per cell.
    voxels: Vec<u32>,
}

/// The sample's occupancy pattern, layer by layer.
pub open spec fn spec_temp_scene_pattern() -> Seq<u32> {
    seq![
        0u32, 0, 0, 0, 0, 1, 1, 0, 0, 0, 0, 0, 0, 0, 0, 0,
        0, 1, 1, 0, 1, 0, 0, 1, 1, 0, 0, 1, 0, 1, 1, 0,
        1, 0, 0, 1, 0, 0, 0, 0, 0, 0, 0, 0, 1, 0, 0, 1,
        1, 1, 1, 1, 0, 1, 1, 1, 0, 0, 1, 1, 0, 0, 0, 1,
    ]
}

/// The serialized sample: the occupancy words, the size vector
/// `(4.0, 4.0, 4.0)`, and one zero padding word.
pub open spec fn spec_temp_scene_bytes(t: &TempScene) -> Seq<u8> {
    spec_u32_seq_bytes(t.spec_voxels(), t.spec_voxels().len() as int) + spec_u32_to_le_bytes(
        spec_f32_bits_small(4),
    ) + spec_u32_to_le_bytes(spec_f32_bits_small(4)) + spec_u32_to_le_bytes(
        spec_f32_bits_small(4),
    ) + spec_u32_to_le_bytes(0)
}

impl TempScene {
    /// The sample's occupancy words.
    pub closed spec fn spec_voxels(&self) -> Seq<u32> {
        self.voxels@
    }

    /// Serializes the sample into its renderer buffer.
    pub fn into_buffer(&self) -> (out: Vec<u8>)
        requires
            self.spec_voxels().len() == 64,
        ensures
            out@ == spec_temp_scene_bytes(self),
            out@.len() == TEMP_SCENE_BUFFER_LEN,
    {
        let mut out: Vec<u8> = Vec::new();
        write_words(&mut out, &self.voxels);
        let four = f32_bits_small(4);
        write_u32(&mut out, four);
        write_u32(&mut out, four);
        write_u32(&mut out, four);
        write_u32(&mut out, 0);
        proof {
            assert(out@ =~= spec_temp_scene_bytes(self));
            lemma_u32_seq_bytes_len(self.spec_voxels(), self.spec_voxels().len() as int);
            lemma_u32_bytes_len(spec_f32_bits_small(4));
            lemma_u32_bytes_len(0);
        }
        out
    }
}

/// Pushes one row of four occupancy words.
fn push_row(v: &mut Vec<u32>, a: u32, b: u32, c: u32, d: u32)
    ensures
        final(v)@ == old(v)@ + seq![a, b, c, d],
{
    v.push(a);
    v.push(b);
    v.push(c);
    v.push(d);
    proof {
        assert(v@ =~= old(v)@ + seq![a, b, c, d]);
    }
}

impl Default for TempScene {
    /// The hard-coded sample pattern.
    fn default() -> (t: TempScene)
        ensures
            t.spec_voxels() == spec_temp_scene_pattern(),
            t.spec_voxels().len() == 64,
    {
        let mut voxels: Vec<u32> = Vec::new();
        push_row(&mut voxels, 0, 0, 0, 0);
        push_row(&mut voxels, 0, 1, 1, 0);
        push_row(&mut voxels, 0, 0, 0, 0);
        push_row(&mut voxels, 0, 0, 0, 0);
        push_row(&mut voxels, 0, 1, 1, 0);
        push_row(&mut voxels, 1, 0, 0, 1);
        push_row(&mut voxels, 1, 0, 0, 1);
        push_row(&mut voxels, 0, 1, 1, 0);
        push_row(&mut voxels, 1, 0, 0, 1);
        push_row(&mut voxels, 0, 0, 0, 0);
        push_row(&mut voxels, 0, 0, 0, 0);
        push_row(&mut voxels, 1, 0, 0, 1);
        push_row(&mut voxels, 1, 1, 1, 1);
        push_row(&mut voxels, 0, 1, 1, 1);
        push_row(&mut voxels, 0, 0, 1, 1);
        push_row(&mut voxels, 0, 0, 0, 1);
        proof {
            assert(voxels@ =~= spec_temp_scene_pattern());
        }
        TempScene { voxels }
    }
}

/// The serialized scene: the dimension vector, the three lighting
/// vectors, the time word, three words of alignment padding, every
/// chunk in grid order, then every material in table order.
pub open spec fn spec_scene_buffer_bytes(s: &Scene) -> Seq<u8> {
    spec_vec4_bytes(
        Vec4Bits {
            x: spec_f32_bits_small(s.spec_size().x as int),
            y: spec_f32_bits_small(s.spec_size().y as int),
            z: spec_f32_bits_small(s.spec_size().z as int),
            w: spec_f32_bits_small(SCENE_SIZE as int),
        },
    ) + spec_vec4_bytes(s.spec_sun_direction()) + spec_vec4_bytes(s.spec_sun_strength())
        + spec_vec4_bytes(s.spec_ambient_light()) + spec_u32_to_le_bytes(s.spec_time() as u32)
        + spec_u32_to_le_bytes(0) + spec_u32_to_le_bytes(0) + spec_u32_to_le_bytes(0)
        + spec_chunk_seq_bytes(s.spec_chunks(), s.spec_chunks().len() as int)
        + spec_material_seq_bytes(s.spec_materials(), s.spec_materials().len() as int)
}

/// A well-formed scene serializes to exactly [`SCENE_BUFFER_LEN`]
/// bytes.
pub proof fn lemma_scene_buffer_len(s: &Scene)
    requires
        s.wf(),
    ensures
        spec_scene_buffer_bytes(s).len() == SCENE_BUFFER_LEN,
{
    lemma_vec4_bytes_len(
        Vec4Bits {
            x: spec_f32_bits_small(s.spec_size().x as int),
            y: spec_f32_bits_small(s.spec_size().y as int),
            z: spec_f32_bits_small(s.spec_size().z as int),
            w: spec_f32_bits_small(SCENE_SIZE as int),
        },
    );
    lemma_vec4_bytes_len(s.spec_sun_direction());
    lemma_vec4_bytes_len(s.spec_sun_strength());
    lemma_vec4_bytes_len(s.spec_ambient_light());
    lemma_u32_bytes_len(s.spec_time() as u32);
    lemma_u32_bytes_len(0);
    assert(forall|i: int|
        0 <= i < s.spec_chunks().len() ==> (#[trigger] s.spec_chunks()[i]).spec_voxels().len()
            == VOXELS_PER_CHUNK);
    lemma_chunk_seq_bytes_len(s.spec_chunks(), s.spec_chunks().len() as int);
    lemma_material_seq_bytes_len(s.spec_materials(), s.spec_materials().len() as int);
}

/// Serialization is a pure function of the scene's state: two
/// well-formed scenes with equal chunk grids and equal time counters
/// serialize to byte-identical buffers.  In particular, two scenes
/// built by the same sequence of fill calls, whose contracts pin every
/// chunk exactly, serialize identically.
pub proof fn lemma_serialize_deterministic(a: &Scene, b: &Scene)
    requires
        a.wf(),
        b.wf(),
        a.spec_chunks() == b.spec_chunks(),
        a.spec_time() == b.spec_time(),
    ensures
        spec_scene_buffer_bytes(a) == spec_scene_buffer_bytes(b),
{
}

} // verus!
