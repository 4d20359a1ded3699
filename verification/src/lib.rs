//! CPU-side scene and camera model for a real-time voxel raytracing renderer.
//!
//! The crate holds a chunked voxel scene with a byte-exact serialization
//! format consumed by an external rendering stage, and a frame-rate
//! independent first-person camera model.  All state is kept in plain
//! integers: fractional quantities (chunk positions, light parameters,
//! material constants) are stored as raw IEEE-754 single-precision bit
//! patterns, and the camera works in fixed-point units, so that every
//! computation here has exact, verifiable semantics.

pub mod camera;
pub mod chunk;
pub mod index;
pub mod quant;
pub mod scene;
pub mod ser;
pub mod trig;
pub mod voxel;

use vstd::prelude::*;

verus! {

use crate::index::UVec3;

/// Chunks per scene axis: the scene is a cube of `SCENE_SIZE`^3 chunks.
pub const SCENE_SIZE: u32 = 8;

/// Voxels per chunk axis: a chunk is a cube of `CHUNK_SIZE`^3 voxels.
pub const CHUNK_SIZE: u32 = 8;

/// Chunks per scene, `SCENE_SIZE`^3.
pub const CHUNKS_PER_SCENE: usize = 512;

/// Voxels per chunk, `CHUNK_SIZE`^3.
pub const VOXELS_PER_CHUNK: usize = 512;

/// The scene's grid dimensions: `SCENE_SIZE` chunks per axis.
pub open spec fn spec_scene_dims() -> UVec3 {
    UVec3 { x: SCENE_SIZE, y: SCENE_SIZE, z: SCENE_SIZE }
}

/// A chunk's grid dimensions: `CHUNK_SIZE` voxels per axis.
pub open spec fn spec_chunk_dims() -> UVec3 {
    UVec3 { x: CHUNK_SIZE, y: CHUNK_SIZE, z: CHUNK_SIZE }
}

/// The scene dimensions as a runtime value.
pub fn scene_dims() -> (d: UVec3)
    ensures
        d == spec_scene_dims(),
{
    UVec3 { x: SCENE_SIZE, y: SCENE_SIZE, z: SCENE_SIZE }
}

/// The chunk dimensions as a runtime value.
pub fn chunk_dims() -> (d: UVec3)
    ensures
        d == spec_chunk_dims(),
{
    UVec3 { x: CHUNK_SIZE, y: CHUNK_SIZE, z: CHUNK_SIZE }
}

} // verus!
