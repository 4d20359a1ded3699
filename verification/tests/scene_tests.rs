use voxel_scene::chunk::Chunk;
use voxel_scene::index::UVec3;
use voxel_scene::scene::{Scene, TempScene, SCENE_BUFFER_LEN, TEMP_SCENE_BUFFER_LEN};
use voxel_scene::voxel::{Voxel, MATERIAL_EMPTY};

fn word_at(buf: &[u8], offset: usize) -> u32 {
    u32::from_le_bytes([buf[offset], buf[offset + 1], buf[offset + 2], buf[offset + 3]])
}

#[test]
fn fresh_chunk_is_invisible() {
    let c = Chunk::empty(0);
    assert!(!c.is_visible());
    assert_eq!(c.pos(), UVec3 { x: 0, y: 0, z: 0 });
}

#[test]
fn chunk_position_follows_linear_index() {
    let c = Chunk::empty(292);
    assert_eq!(c.pos(), UVec3 { x: 4, y: 4, z: 4 });
    let c = Chunk::empty(511);
    assert_eq!(c.pos(), UVec3 { x: 7, y: 7, z: 7 });
}

#[test]
fn border_fill_scenario_at_origin() {
    // Chunk::empty(0), then fill_borders(material 0, albedo (180,180,180)):
    // the voxel at local (0,0,0) decompresses to material 0 and albedo
    // (180,180,180), and the chunk is visible.
    let mut c = Chunk::empty(0);
    c.fill_borders(0, UVec3 { x: 180, y: 180, z: 180 });
    let v = c.voxel_at(UVec3 { x: 0, y: 0, z: 0 }).unwrap().decompress();
    assert_eq!(v.material, 0);
    assert_eq!(v.albedo, UVec3 { x: 180, y: 180, z: 180 });
    // The outward normal of the (0,0,0) corner quantizes to 53 per axis.
    assert_eq!(v.normal, UVec3 { x: 53, y: 53, z: 53 });
    assert!(c.is_visible());
}

#[test]
fn border_fill_leaves_interior_untouched() {
    let mut c = Chunk::empty(0);
    c.fill_borders(2, UVec3 { x: 10, y: 20, z: 30 });
    let inner = c.voxel_at(UVec3 { x: 3, y: 4, z: 5 }).unwrap().decompress();
    assert_eq!(inner.material, MATERIAL_EMPTY);
    let border = c.voxel_at(UVec3 { x: 7, y: 4, z: 5 }).unwrap().decompress();
    assert_eq!(border.material, 2);
}

#[test]
fn sphere_fill_covers_center_not_corner() {
    let mut c = Chunk::empty(0);
    c.fill_sphere(3, UVec3 { x: 0, y: 190, z: 0 });
    assert!(c.is_visible());
    let center = c.voxel_at(UVec3 { x: 4, y: 4, z: 4 }).unwrap().decompress();
    assert_eq!(center.material, 3);
    // The center has no direction; its normal is the centered byte.
    assert_eq!(center.normal, UVec3 { x: 127, y: 127, z: 127 });
    let corner = c.voxel_at(UVec3 { x: 0, y: 0, z: 0 }).unwrap().decompress();
    assert_eq!(corner.material, MATERIAL_EMPTY);
}

#[test]
fn visibility_returns_to_false_after_emptying_every_voxel() {
    let mut c = Chunk::empty(0);
    c.fill_sphere(1, UVec3 { x: 9, y: 9, z: 9 });
    assert!(c.is_visible());
    for z in 0..8 {
        for y in 0..8 {
            for x in 0..8 {
                c.modify_voxel_at(UVec3 { x, y, z }, |v| Voxel {
                    material: MATERIAL_EMPTY,
                    ..v
                });
            }
        }
    }
    assert!(!c.is_visible());
}

#[test]
fn fill_with_empty_material_keeps_chunk_invisible() {
    let mut c = Chunk::empty(0);
    c.fill_borders(MATERIAL_EMPTY, UVec3 { x: 1, y: 2, z: 3 });
    assert!(!c.is_visible());
}

#[test]
fn modify_voxel_at_stores_the_mutated_voxel() {
    let mut c = Chunk::empty(0);
    let target = UVec3 { x: 1, y: 2, z: 3 };
    c.modify_voxel_at(target, |v| Voxel {
        material: 7,
        albedo: UVec3 { x: 9, y: 8, z: 7 },
        normal: UVec3 { x: 100, y: 110, z: 120 },
        ..v
    });
    let v = c.voxel_at(target).unwrap().decompress();
    assert_eq!(v.material, 7);
    assert_eq!(v.albedo, UVec3 { x: 9, y: 8, z: 7 });
    assert_eq!(v.normal, UVec3 { x: 100, y: 110, z: 120 });
    assert!(c.is_visible());
}

#[test]
fn voxel_lookup_is_bounds_checked() {
    let mut c = Chunk::empty(0);
    assert!(c.voxel_at(UVec3 { x: 8, y: 0, z: 0 }).is_none());
    assert!(c.voxel_at(UVec3 { x: 7, y: 7, z: 7 }).is_some());
    assert!(!c.modify_voxel_at(UVec3 { x: 0, y: 9, z: 0 }, |v| v));
    assert!(!c.is_visible());
    assert!(c.modify_voxel_at(UVec3 { x: 0, y: 0, z: 0 }, |v| Voxel { material: 1, ..v }));
    assert!(c.is_visible());
}

#[test]
fn scene_lookup_is_bounds_checked() {
    let mut s = Scene::new();
    assert!(s.chunk_at(UVec3 { x: 7, y: 7, z: 7 }).is_some());
    assert!(s.chunk_at(UVec3 { x: 8, y: 0, z: 0 }).is_none());
    assert!(s.chunk_at(UVec3 { x: 0, y: 9, z: 0 }).is_none());
    assert!(s.chunk_at(UVec3 { x: 0, y: 0, z: 100 }).is_none());
}

#[test]
fn scene_time_accumulates_in_milliseconds() {
    let mut s = Scene::new();
    assert_eq!(s.time(), 0);
    s.update(16);
    assert_eq!(s.time(), 16);
    s.update(1000);
    assert_eq!(s.time(), 1016);
}

#[test]
fn empty_scene_buffer_has_documented_length() {
    // size + sun_direction + sun_strength + ambient_light vectors,
    // time, padding, 512 chunks of (16 + 512*16) bytes, 4 materials
    // of 20 bytes.
    let expected = 16 + 16 + 16 + 16 + 4 + 12 + 512 * (16 + 512 * 16) + 4 * 20;
    assert_eq!(SCENE_BUFFER_LEN, expected);
    let s = Scene::new();
    assert_eq!(s.into_buffer().len(), expected);
}

#[test]
fn scene_header_bytes_match_documented_defaults() {
    let s = Scene::new();
    let buf = s.into_buffer();
    // Dimension vector: 8.0 in every lane.
    for lane in 0..4 {
        assert_eq!(word_at(&buf, lane * 4), 8.0f32.to_bits());
    }
    // Sun direction (-0.5, 1.0, -0.5, 0.0).
    assert_eq!(word_at(&buf, 16), (-0.5f32).to_bits());
    assert_eq!(word_at(&buf, 20), 1.0f32.to_bits());
    assert_eq!(word_at(&buf, 24), (-0.5f32).to_bits());
    assert_eq!(word_at(&buf, 28), 0);
    // Sun strength 0.6 per channel, ambient light 0.01 per channel.
    for lane in 0..3 {
        assert_eq!(word_at(&buf, 32 + lane * 4), 0.6f32.to_bits());
        assert_eq!(word_at(&buf, 48 + lane * 4), 0.01f32.to_bits());
    }
    assert_eq!(word_at(&buf, 44), 0);
    assert_eq!(word_at(&buf, 60), 0);
    // Time word, then 12 bytes of padding.
    assert_eq!(word_at(&buf, 64), 0);
    for offset in 68..80 {
        assert_eq!(buf[offset], 0);
    }
}

#[test]
fn scene_buffer_time_word_reflects_updates() {
    let mut s = Scene::new();
    s.update(12345);
    let buf = s.into_buffer();
    assert_eq!(word_at(&buf, 64), 12345);
}

#[test]
fn empty_chunk_bytes_in_scene_buffer() {
    let s = Scene::new();
    let buf = s.into_buffer();
    // Chunk 0 starts after the 80-byte header: position (0,0,0) and
    // visibility 0.0 are all zero bytes.
    for offset in 80..96 {
        assert_eq!(buf[offset], 0);
    }
    // Its first voxel: word 0 packs (EMPTY, 127, 127, 127), word 1
    // packs white albedo, and the two lighting words are zero.
    assert_eq!(word_at(&buf, 96), 0xFF7F7F7F);
    assert_eq!(word_at(&buf, 100), 0xFFFFFF00);
    assert_eq!(word_at(&buf, 104), 0);
    assert_eq!(word_at(&buf, 108), 0);
    // Chunk 1 sits 8208 bytes later with position (1.0, 0, 0).
    assert_eq!(word_at(&buf, 80 + 8208), 1.0f32.to_bits());
    assert_eq!(word_at(&buf, 80 + 8208 + 4), 0);
}

#[test]
fn chunk_visibility_flag_serializes_as_one() {
    let mut s = Scene::new();
    if let Some(c) = s.chunk_at(UVec3 { x: 1, y: 0, z: 0 }) {
        c.fill_sphere(0, UVec3 { x: 1, y: 1, z: 1 });
    } else {
        panic!("in-range chunk lookup failed");
    }
    let buf = s.into_buffer();
    // Chunk 1's visibility lane is the fourth word of its position
    // vector.
    assert_eq!(word_at(&buf, 80 + 8208 + 12), 1.0f32.to_bits());
}

#[test]
fn material_table_bytes_match_documented_presets() {
    let s = Scene::new();
    let buf = s.into_buffer();
    let base = 80 + 512 * 8208;
    // Entry 0: opaque diffuse.
    assert_eq!(word_at(&buf, base), 0);
    assert_eq!(word_at(&buf, base + 4), 1.0f32.to_bits());
    assert_eq!(word_at(&buf, base + 8), 0.0f32.to_bits());
    assert_eq!(word_at(&buf, base + 12), 0.0f32.to_bits());
    assert_eq!(word_at(&buf, base + 16), 0.0f32.to_bits());
    // Entry 1: shiny specular.
    assert_eq!(word_at(&buf, base + 20), 0);
    assert_eq!(word_at(&buf, base + 24), 1.0f32.to_bits());
    assert_eq!(word_at(&buf, base + 32), 0.8f32.to_bits());
    assert_eq!(word_at(&buf, base + 36), 3.0f32.to_bits());
    // Entry 2: translucent refractive.
    assert_eq!(word_at(&buf, base + 44), 0.5f32.to_bits());
    assert_eq!(word_at(&buf, base + 48), 1.52f32.to_bits());
    // Entry 3: emissive.
    assert_eq!(word_at(&buf, base + 60), 1);
    assert_eq!(word_at(&buf, base + 64), 1.0f32.to_bits());
}

fn build_demo_scene() -> Scene {
    let mut s = Scene::new();
    s.chunk_at(UVec3 { x: 0, y: 0, z: 0 }).unwrap().fill_borders(0, UVec3 { x: 180, y: 180, z: 180 });
    s.chunk_at(UVec3 { x: 0, y: 1, z: 0 }).unwrap().fill_sphere(0, UVec3 { x: 180, y: 180, z: 180 });
    s.chunk_at(UVec3 { x: 1, y: 1, z: 1 }).unwrap().fill_borders(2, UVec3 { x: 255, y: 255, z: 84 });
    s.chunk_at(UVec3 { x: 2, y: 2, z: 2 }).unwrap().fill_sphere(2, UVec3 { x: 210, y: 115, z: 80 });
    s.chunk_at(UVec3 { x: 3, y: 1, z: 3 }).unwrap().fill_sphere(3, UVec3 { x: 0, y: 190, z: 0 });
    s
}

#[test]
fn identical_fill_sequences_serialize_identically() {
    let a = build_demo_scene();
    let b = build_demo_scene();
    assert_eq!(a.into_buffer(), b.into_buffer());
}

#[test]
fn temp_scene_buffer_layout() {
    let t = TempScene::default();
    let buf = t.into_buffer();
    assert_eq!(buf.len(), TEMP_SCENE_BUFFER_LEN);
    assert_eq!(buf.len(), 64 * 4 + 16);
    // Cell 5 of the hard-coded pattern is filled, cell 4 is not.
    assert_eq!(word_at(&buf, 5 * 4), 1);
    assert_eq!(word_at(&buf, 4 * 4), 0);
    // The size vector is 4.0 per axis, then one zero padding word.
    for lane in 0..3 {
        assert_eq!(word_at(&buf, 256 + lane * 4), 4.0f32.to_bits());
    }
    assert_eq!(word_at(&buf, 268), 0);
}
