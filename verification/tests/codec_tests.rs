use voxel_scene::index::{expand_index, flatten_index, UVec3};
use voxel_scene::quant::{isqrt, quantize_dir};
use voxel_scene::ser::f32_bits_small;
use voxel_scene::voxel::{CompressedVoxel, Voxel, MATERIAL_EMPTY};

#[test]
fn material_and_albedo_round_trip_exactly() {
    for material in [0u32, 1, 37, 128, 254] {
        let v = Voxel {
            normal: UVec3 { x: 1, y: 128, z: 255 },
            albedo: UVec3 { x: 12, y: 200, z: 255 },
            material,
        };
        let back = v.compress().decompress();
        assert_eq!(back, v);
    }
}

#[test]
fn empty_sentinel_round_trips() {
    let v = Voxel::default();
    assert_eq!(v.material, MATERIAL_EMPTY);
    let back = v.compress().decompress();
    assert_eq!(back, v);
}

#[test]
fn compressed_word_layout_is_documented_bit_packing() {
    let v = Voxel {
        normal: UVec3 { x: 0xAA, y: 0xBB, z: 0xCC },
        albedo: UVec3 { x: 0x11, y: 0x22, z: 0x33 },
        material: 0x7E,
    };
    let c = v.compress();
    assert_eq!(c.normal, 0x7EAABBCC);
    assert_eq!(c.albedo, 0x11223300);
    assert_eq!(c.specular_light, 0);
    assert_eq!(c.diffuse_light, 0);
}

#[test]
fn decompress_masks_every_field() {
    let c = CompressedVoxel { normal: 0xFFAABBCC, albedo: 0x11223344, specular_light: 9, diffuse_light: 9 };
    let v = c.decompress();
    assert_eq!(v.material, 0xFF);
    assert_eq!(v.normal, UVec3 { x: 0xAA, y: 0xBB, z: 0xCC });
    assert_eq!(v.albedo, UVec3 { x: 0x11, y: 0x22, z: 0x33 });
}

#[test]
fn quantized_normal_reconstructs_within_one_part_in_255() {
    // The byte q stands for the unit-vector component (2q - 255)/255;
    // quantizing any component n in [-1, 1] by (n*255 + 255)/2 and
    // mapping back stays within 1/255 of n.
    for i in 0..=100 {
        let n = -1.0f32 + 2.0 * (i as f32) / 100.0;
        let q = ((n + 1.0) * 127.5).round() as u32;
        let v = Voxel {
            normal: UVec3 { x: q, y: q, z: q },
            albedo: UVec3 { x: 0, y: 0, z: 0 },
            material: 0,
        };
        let back = v.compress().decompress();
        let n2 = (back.normal.x as f32 * 2.0 - 255.0) / 255.0;
        assert!((n - n2).abs() <= 1.0 / 255.0 + 1e-6);
    }
}

#[test]
fn index_mapping_is_a_bijection_on_the_chunk_grid() {
    let dims = UVec3 { x: 8, y: 8, z: 8 };
    for z in 0..8 {
        for y in 0..8 {
            for x in 0..8 {
                let p = UVec3 { x, y, z };
                let idx = flatten_index(p, dims);
                assert_eq!(expand_index(idx, dims), p);
            }
        }
    }
    for idx in 0..512 {
        assert_eq!(flatten_index(expand_index(idx, dims), dims), idx);
    }
}

#[test]
fn index_mapping_handles_uneven_dimensions() {
    let dims = UVec3 { x: 3, y: 5, z: 7 };
    for z in 0..7 {
        for y in 0..5 {
            for x in 0..3 {
                let p = UVec3 { x, y, z };
                let idx = flatten_index(p, dims);
                assert!(idx < 105);
                assert_eq!(expand_index(idx, dims), p);
            }
        }
    }
}

#[test]
fn flatten_is_row_major() {
    let dims = UVec3 { x: 8, y: 8, z: 8 };
    assert_eq!(flatten_index(UVec3 { x: 0, y: 0, z: 0 }, dims), 0);
    assert_eq!(flatten_index(UVec3 { x: 1, y: 0, z: 0 }, dims), 1);
    assert_eq!(flatten_index(UVec3 { x: 0, y: 1, z: 0 }, dims), 8);
    assert_eq!(flatten_index(UVec3 { x: 0, y: 0, z: 1 }, dims), 64);
    assert_eq!(flatten_index(UVec3 { x: 4, y: 4, z: 4 }, dims), 292);
}

#[test]
fn isqrt_exact_values() {
    assert_eq!(isqrt(0), 0);
    assert_eq!(isqrt(1), 1);
    assert_eq!(isqrt(15), 3);
    assert_eq!(isqrt(16), 4);
    assert_eq!(isqrt(3145728), 1773); // 65536 * 48
}

#[test]
fn quantize_zero_direction_gives_centered_byte() {
    assert_eq!(quantize_dir(0, 0, 0), UVec3 { x: 127, y: 127, z: 127 });
}

#[test]
fn quantize_axis_directions_hit_the_extremes() {
    // A pure +x direction quantizes x to 255 and the others to the
    // centered byte 127.
    assert_eq!(quantize_dir(4, 0, 0), UVec3 { x: 255, y: 127, z: 127 });
    assert_eq!(quantize_dir(-4, 0, 0), UVec3 { x: 0, y: 127, z: 127 });
}

#[test]
fn quantize_diagonal_matches_hand_computation() {
    // |(-4,-4,-4)| scaled by 256 is isqrt(65536*48) = 1773, so each
    // axis quantizes to 255*(1773 - 1024) / (2*1773) = 53.
    assert_eq!(quantize_dir(-4, -4, -4), UVec3 { x: 53, y: 53, z: 53 });
}

#[test]
fn small_integer_bit_patterns_match_ieee754() {
    for n in 0..=8u32 {
        assert_eq!(f32_bits_small(n), (n as f32).to_bits());
    }
}
