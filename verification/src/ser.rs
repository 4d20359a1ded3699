//! The byte-exact wire format shared with the external renderer.
//!
//! Every field of the scene buffer is a little-endian 32-bit word.
//! Fractional values are carried as raw IEEE-754 single-precision bit
//! patterns held in `u32` fields, so serialization never performs any
//! floating-point computation: a vector of four words is written word
//! by word, a chunk is its position-and-visibility vector followed by
//! its 512 compressed voxels, and a voxel is its two payload words
//! followed by its two reserved lighting words.

use vstd::prelude::*;

verus! {

use vstd::bytes::{spec_u32_to_le_bytes, u32_to_le_bytes, lemma_auto_spec_u32_to_from_le_bytes};

use crate::chunk::Chunk;
use crate::voxel::CompressedVoxel;

/// IEEE-754 single-precision bit pattern of 1.0.
pub const F32_ONE: u32 = 0x3F80_0000;

/// Four 32-bit words carrying IEEE-754 single-precision bit patterns:
/// one GPU-side `vec4`.
#[derive(Clone, Copy, PartialEq, Eq, Structural, Debug)]
pub struct Vec4Bits {
    pub x: u32,
    pub y: u32,
    pub z: u32,
    pub w: u32,
}

/// The IEEE-754 single-precision bit pattern of the small nonnegative
/// integer `n`; grid coordinates and dimensions are serialized through
/// this mapping.
pub open spec fn spec_f32_bits_small(n: int) -> u32
    recommends
        0 <= n <= 8,
{
    if n == 1 {
        0x3F80_0000
    } else if n == 2 {
        0x4000_0000
    } else if n == 3 {
        0x4040_0000
    } else if n == 4 {
        0x4080_0000
    } else if n == 5 {
        0x40A0_0000
    } else if n == 6 {
        0x40C0_0000
    } else if n == 7 {
        0x40E0_0000
    } else if n == 8 {
        0x4100_0000
    } else {
        0
    }
}

/// Runtime form of [`spec_f32_bits_small`].
pub fn f32_bits_small(n: u32) -> (r: u32)
    requires
        n <= 8,
    ensures
        r == spec_f32_bits_small(n as int),
{
    if n == 1 {
        0x3F80_0000
    } else if n == 2 {
        0x4000_0000
    } else if n == 3 {
        0x4040_0000
    } else if n == 4 {
        0x4080_0000
    } else if n == 5 {
        0x40A0_0000
    } else if n == 6 {
        0x40C0_0000
    } else if n == 7 {
        0x40E0_0000
    } else if n == 8 {
        0x4100_0000
    } else {
        0
    }
}

/// The 16 bytes of a four-word vector, in field order.
pub open spec fn spec_vec4_bytes(v: Vec4Bits) -> Seq<u8> {
    spec_u32_to_le_bytes(v.x) + spec_u32_to_le_bytes(v.y) + spec_u32_to_le_bytes(v.z)
        + spec_u32_to_le_bytes(v.w)
}

/// The 16 bytes of one compressed voxel: two payload words, two
/// reserved lighting words.
pub open spec fn spec_voxel_bytes(c: CompressedVoxel) -> Seq<u8> {
    spec_u32_to_le_bytes(c.normal) + spec_u32_to_le_bytes(c.albedo) + spec_u32_to_le_bytes(
        c.specular_light,
    ) + spec_u32_to_le_bytes(c.diffuse_light)
}

/// The bytes of the first `n` voxels of a sequence, in order.
pub open spec fn spec_voxel_seq_bytes(vs: Seq<CompressedVoxel>, n: int) -> Seq<u8>
    decreases n,
{
    if n <= 0 {
        Seq::empty()
    } else {
        spec_voxel_seq_bytes(vs, n - 1) + spec_voxel_bytes(vs[n - 1])
    }
}

/// The bytes of the first `n` words of a sequence, in order.
pub open spec fn spec_u32_seq_bytes(ws: Seq<u32>, n: int) -> Seq<u8>
    decreases n,
{
    if n <= 0 {
        Seq::empty()
    } else {
        spec_u32_seq_bytes(ws, n - 1) + spec_u32_to_le_bytes(ws[n - 1])
    }
}

/// `n` words serialize to exactly `4 * n` bytes.
pub proof fn lemma_u32_seq_bytes_len(ws: Seq<u32>, n: int)
    requires
        n >= 0,
    ensures
        spec_u32_seq_bytes(ws, n).len() == 4 * n,
    decreases n,
{
    if n > 0 {
        lemma_u32_seq_bytes_len(ws, n - 1);
        lemma_auto_spec_u32_to_from_le_bytes();
    }
}

/// Appends the little-endian bytes of every word of a vector, in
/// order.
pub fn write_words(out: &mut Vec<u8>, ws: &Vec<u32>)
    ensures
        final(out)@ == old(out)@ + spec_u32_seq_bytes(ws@, ws@.len() as int),
{
    let ghost base = out@;
    let n = ws.len();
    let mut i: usize = 0;
    while i < n
        invariant
            n == ws@.len(),
            i <= n,
            out@ == base + spec_u32_seq_bytes(ws@, i as int),
        decreases n - i,
    {
        write_u32(out, ws[i]);
        proof {
            assert(out@ =~= base + spec_u32_seq_bytes(ws@, i + 1));
        }
        i = i + 1;
    }
}

/// The 16 bytes of a chunk's position-and-visibility vector: the grid
/// coordinates as single-precision bit patterns, then 1.0 when the
/// chunk is visible and 0.0 when it is not.
pub open spec fn spec_chunk_pos_bytes(c: Chunk) -> Seq<u8> {
    spec_vec4_bytes(
        Vec4Bits {
            x: spec_f32_bits_small(c.spec_pos().x as int),
            y: spec_f32_bits_small(c.spec_pos().y as int),
            z: spec_f32_bits_small(c.spec_pos().z as int),
            w: if c.spec_visible() {
                F32_ONE
            } else {
                0
            },
        },
    )
}

/// The bytes of one chunk: its position vector, then all its voxels.
pub open spec fn spec_chunk_bytes(c: Chunk) -> Seq<u8> {
    spec_chunk_pos_bytes(c) + spec_voxel_seq_bytes(c.spec_voxels(), c.spec_voxels().len() as int)
}

/// The bytes of the first `n` chunks of a sequence, in order.
pub open spec fn spec_chunk_seq_bytes(cs: Seq<Chunk>, n: int) -> Seq<u8>
    decreases n,
{
    if n <= 0 {
        Seq::empty()
    } else {
        spec_chunk_seq_bytes(cs, n - 1) + spec_chunk_bytes(cs[n - 1])
    }
}

/// A word serializes to exactly four bytes.
pub proof fn lemma_u32_bytes_len(w: u32)
    ensures
        spec_u32_to_le_bytes(w).len() == 4,
{
    lemma_auto_spec_u32_to_from_le_bytes();
}

/// A four-word vector serializes to exactly 16 bytes.
pub proof fn lemma_vec4_bytes_len(v: Vec4Bits)
    ensures
        spec_vec4_bytes(v).len() == 16,
{
    lemma_auto_spec_u32_to_from_le_bytes();
}

/// A voxel serializes to exactly 16 bytes.
pub proof fn lemma_voxel_bytes_len(c: CompressedVoxel)
    ensures
        spec_voxel_bytes(c).len() == 16,
{
    lemma_auto_spec_u32_to_from_le_bytes();
}

/// `n` voxels serialize to exactly `16 * n` bytes.
pub proof fn lemma_voxel_seq_bytes_len(vs: Seq<CompressedVoxel>, n: int)
    requires
        n >= 0,
    ensures
        spec_voxel_seq_bytes(vs, n).len() == 16 * n,
    decreases n,
{
    if n > 0 {
        lemma_voxel_seq_bytes_len(vs, n - 1);
        lemma_voxel_bytes_len(vs[n - 1]);
    }
}

/// A full chunk serializes to exactly `16 + 16 * 512` bytes.
pub proof fn lemma_chunk_bytes_len(c: Chunk)
    requires
        c.spec_voxels().len() == crate::VOXELS_PER_CHUNK,
    ensures
        spec_chunk_bytes(c).len() == 8208,
{
    lemma_vec4_bytes_len(
        Vec4Bits {
            x: spec_f32_bits_small(c.spec_pos().x as int),
            y: spec_f32_bits_small(c.spec_pos().y as int),
            z: spec_f32_bits_small(c.spec_pos().z as int),
            w: if c.spec_visible() {
                F32_ONE
            } else {
                0
            },
        },
    );
    lemma_voxel_seq_bytes_len(c.spec_voxels(), c.spec_voxels().len() as int);
}

/// `n` full chunks serialize to exactly `8208 * n` bytes.
pub proof fn lemma_chunk_seq_bytes_len(cs: Seq<Chunk>, n: int)
    requires
        n >= 0,
        forall|i: int| 0 <= i < n ==> #[trigger] cs[i].spec_voxels().len()
            == crate::VOXELS_PER_CHUNK,
    ensures
        spec_chunk_seq_bytes(cs, n).len() == 8208 * n,
    decreases n,
{
    if n > 0 {
        lemma_chunk_seq_bytes_len(cs, n - 1);
        lemma_chunk_bytes_len(cs[n - 1]);
    }
}

/// Appends the four little-endian bytes of one word.
pub fn write_u32(out: &mut Vec<u8>, w: u32)
    ensures
        final(out)@ == old(out)@ + spec_u32_to_le_bytes(w),
{
    let mut b = u32_to_le_bytes(w);
    out.append(&mut b);
}

/// Appends the 16 bytes of a four-word vector.
pub fn write_vec4(out: &mut Vec<u8>, v: Vec4Bits)
    ensures
        final(out)@ == old(out)@ + spec_vec4_bytes(v),
{
    write_u32(out, v.x);
    write_u32(out, v.y);
    write_u32(out, v.z);
    write_u32(out, v.w);
    proof {
        assert(out@ =~= old(out)@ + spec_vec4_bytes(v));
    }
}

/// Appends the 16 bytes of one compressed voxel.
pub fn write_voxel(out: &mut Vec<u8>, c: CompressedVoxel)
    ensures
        final(out)@ == old(out)@ + spec_voxel_bytes(c),
{
    write_u32(out, c.normal);
    write_u32(out, c.albedo);
    write_u32(out, c.specular_light);
    write_u32(out, c.diffuse_light);
    proof {
        assert(out@ =~= old(out)@ + spec_voxel_bytes(c));
    }
}

/// Appends the bytes of one chunk: its position-and-visibility vector,
/// then all its voxels in row-major order.
pub fn write_chunk(out: &mut Vec<u8>, c: &Chunk)
    requires
        c.wf(),
    ensures
        final(out)@ == old(out)@ + spec_chunk_bytes(*c),
{
    let p = c.pos();
    let pos_vec = Vec4Bits {
        x: f32_bits_small(p.x),
        y: f32_bits_small(p.y),
        z: f32_bits_small(p.z),
        w: if c.is_visible() {
            F32_ONE
        } else {
            0
        },
    };
    write_vec4(out, pos_vec);
    let ghost base = out@;
    let n = c.voxel_count();
    let mut i: usize = 0;
    while i < n
        invariant
            n == c.spec_voxels().len(),
            i <= n,
            out@ == base + spec_voxel_seq_bytes(c.spec_voxels(), i as int),
        decreases n - i,
    {
        write_voxel(out, c.voxel_by_index(i));
        proof {
            assert(out@ =~= base + spec_voxel_seq_bytes(c.spec_voxels(), i + 1));
        }
        i = i + 1;
    }
    proof {
        assert(out@ =~= old(out)@ + spec_chunk_bytes(*c));
    }
}

} // verus!
