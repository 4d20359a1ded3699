//! The voxel codec: packing and unpacking of one voxel's attributes
//! to and from a fixed-width compressed word pair.
//!
//! A logical voxel holds a material id (0..=254 valid, 255 is the EMPTY
//! sentinel), a quantized surface normal (one byte per axis, where byte
//! `q` stands for the unit-vector component `(2*q - 255) / 255`), and an
//! albedo color (one byte per channel).  The compressed wire form packs
//! these into two 32-bit words; two further words are reserved for
//! transient lighting results written only by the external renderer.
//!
//! Word 0 layout, most significant byte first: material, normal.x,
//! normal.y, normal.z.  Word 1 layout: albedo.r, albedo.g, albedo.b,
//! then 8 reserved zero bits.

use vstd::prelude::*;

verus! {

use vstd::arithmetic::div_mod::lemma_fundamental_div_mod_converse;

use crate::index::UVec3;

/// The material id that marks a voxel as holding no geometry.
pub const MATERIAL_EMPTY: u32 = 255;

/// One voxel's logical, uncompressed attributes.
#[derive(Clone, Copy, PartialEq, Eq, Structural, Debug)]
pub struct Voxel {
    /// Quantized normal, one byte per axis: byte `q` stands for the
    /// unit-vector component `(2*q - 255) / 255`.
    pub normal: UVec3,
    /// Albedo color, one byte per channel, red/green/blue order.
    pub albedo: UVec3,
    /// Index into the scene's material table, or [`MATERIAL_EMPTY`].
    pub material: u32,
}

/// One voxel in wire form: two packed payload words plus two words
/// reserved for the external renderer's transient lighting results.
#[derive(Clone, Copy, PartialEq, Eq, Structural, Debug)]
pub struct CompressedVoxel {
    /// Material id (top 8 bits), then quantized normal x, y, z.
    pub normal: u32,
    /// Albedo r, g, b (top 24 bits); the low 8 bits are reserved as zero.
    pub albedo: u32,
    /// Reserved for the renderer's specular lighting pass; always
    /// written as zero here.
    pub specular_light: u32,
    /// Reserved for the renderer's diffuse lighting pass; always
    /// written as zero here.
    pub diffuse_light: u32,
}

impl Voxel {
    /// Every attribute fits the one byte the wire form gives it.
    pub open spec fn wf(self) -> bool {
        &&& self.material < 256
        &&& self.normal.x < 256 && self.normal.y < 256 && self.normal.z < 256
        &&& self.albedo.x < 256 && self.albedo.y < 256 && self.albedo.z < 256
    }

    /// The attributes of a voxel holding no geometry: EMPTY material,
    /// quantized zero normal, white albedo.
    pub open spec fn spec_default() -> Voxel {
        Voxel {
            normal: UVec3 { x: 127, y: 127, z: 127 },
            albedo: UVec3 { x: 255, y: 255, z: 255 },
            material: MATERIAL_EMPTY,
        }
    }
}

impl Default for Voxel {
    /// An EMPTY voxel: no geometry, quantized zero normal, white albedo.
    fn default() -> (v: Voxel)
        ensures
            v == Voxel::spec_default(),
            v.wf(),
    {
        Voxel {
            normal: UVec3 { x: 127, y: 127, z: 127 },
            albedo: UVec3 { x: 255, y: 255, z: 255 },
            material: MATERIAL_EMPTY,
        }
    }
}

/// Four bytes packed into one 32-bit word, most significant first.
pub open spec fn spec_pack_word(a: u32, b: u32, c: u32, d: u32) -> u32
    recommends
        a < 256,
        b < 256,
        c < 256,
        d < 256,
{
    (a * 0x100_0000 + b * 0x1_0000 + c * 0x100 + d) as u32
}

/// Byte 3 (most significant) of a packed word.
pub open spec fn spec_byte3(w: u32) -> u32 {
    (w / 0x100_0000) as u32
}

/// Byte 2 of a packed word.
pub open spec fn spec_byte2(w: u32) -> u32 {
    ((w / 0x1_0000) % 0x100) as u32
}

/// Byte 1 of a packed word.
pub open spec fn spec_byte1(w: u32) -> u32 {
    ((w / 0x100) % 0x100) as u32
}

/// Byte 0 (least significant) of a packed word.
pub open spec fn spec_byte0(w: u32) -> u32 {
    (w % 0x100) as u32
}

/// The wire form of a voxel: material and quantized normal in word 0,
/// albedo in word 1, reserved lighting words zero.
pub open spec fn spec_compress(v: Voxel) -> CompressedVoxel {
    CompressedVoxel {
        normal: spec_pack_word(v.material, v.normal.x, v.normal.y, v.normal.z),
        albedo: spec_pack_word(v.albedo.x, v.albedo.y, v.albedo.z, 0),
        specular_light: 0,
        diffuse_light: 0,
    }
}

/// The logical attributes stored in a wire-form voxel.
pub open spec fn spec_decompress(c: CompressedVoxel) -> Voxel {
    Voxel {
        normal: UVec3 { x: spec_byte2(c.normal), y: spec_byte1(c.normal), z: spec_byte0(c.normal) },
        albedo: UVec3 { x: spec_byte3(c.albedo), y: spec_byte2(c.albedo), z: spec_byte1(c.albedo) },
        material: spec_byte3(c.normal),
    }
}

/// Unpacking a packed word recovers all four bytes exactly.
pub proof fn lemma_pack_unpack(a: u32, b: u32, c: u32, d: u32)
    requires
        a < 256,
        b < 256,
        c < 256,
        d < 256,
    ensures
        spec_byte3(spec_pack_word(a, b, c, d)) == a,
        spec_byte2(spec_pack_word(a, b, c, d)) == b,
        spec_byte1(spec_pack_word(a, b, c, d)) == c,
        spec_byte0(spec_pack_word(a, b, c, d)) == d,
{
    let w = a * 0x100_0000 + b * 0x1_0000 + c * 0x100 + d;
    lemma_fundamental_div_mod_converse(w as int, 0x100_0000, a as int, (b * 0x1_0000 + c * 0x100 + d) as int);
    lemma_fundamental_div_mod_converse(w as int, 0x1_0000, (a * 0x100 + b) as int, (c * 0x100 + d) as int);
    lemma_fundamental_div_mod_converse((a * 0x100 + b) as int, 0x100, a as int, b as int);
    lemma_fundamental_div_mod_converse(w as int, 0x100, (a * 0x1_0000 + b * 0x100 + c) as int, d as int);
    lemma_fundamental_div_mod_converse((a * 0x1_0000 + b * 0x100 + c) as int, 0x100, (a * 0x100 + b) as int, c as int);
}

/// Round-trip law: decompressing a compressed voxel reproduces the
/// material, quantized normal, and albedo exactly.
pub proof fn lemma_compress_decompress(v: Voxel)
    requires
        v.wf(),
    ensures
        spec_decompress(spec_compress(v)) == v,
{
    lemma_pack_unpack(v.material, v.normal.x, v.normal.y, v.normal.z);
    lemma_pack_unpack(v.albedo.x, v.albedo.y, v.albedo.z, 0);
}

impl Voxel {
    /// Packs the voxel into its wire form.
    pub fn compress(&self) -> (c: CompressedVoxel)
        requires
            self.wf(),
        ensures
            c == spec_compress(*self),
    {
        CompressedVoxel {
            normal: self.material * 0x100_0000 + self.normal.x * 0x1_0000 + self.normal.y * 0x100
                + self.normal.z,
            albedo: self.albedo.x * 0x100_0000 + self.albedo.y * 0x1_0000 + self.albedo.z * 0x100,
            specular_light: 0,
            diffuse_light: 0,
        }
    }
}

impl CompressedVoxel {
    /// Unpacks the wire form back into logical voxel attributes.
    pub fn decompress(&self) -> (v: Voxel)
        ensures
            v == spec_decompress(*self),
            v.wf(),
    {
        Voxel {
            normal: UVec3 {
                x: (self.normal / 0x1_0000) % 0x100,
                y: (self.normal / 0x100) % 0x100,
                z: self.normal % 0x100,
            },
            albedo: UVec3 {
                x: self.albedo / 0x100_0000,
                y: (self.albedo / 0x1_0000) % 0x100,
                z: (self.albedo / 0x100) % 0x100,
            },
            material: self.normal / 0x100_0000,
        }
    }

    /// True when the stored material id is not the EMPTY sentinel, so
    /// the voxel contributes geometry.
    pub open spec fn spec_is_solid(self) -> bool {
        spec_byte3(self.normal) != MATERIAL_EMPTY
    }

    /// Runtime check matching [`CompressedVoxel::spec_is_solid`].
    pub fn is_solid(&self) -> (r: bool)
        ensures
            r == self.spec_is_solid(),
    {
        self.normal / 0x100_0000 != MATERIAL_EMPTY
    }
}

} // verus!
