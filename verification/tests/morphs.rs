use mmd::morph::{Offsets, OffsetMethod, Panel};
use mmd::{
    BoneReader, Error, HeaderReader, MaterialReader, MorphReader, SurfaceReader, TextureReader,
    VertexReader,
};

fn push_i32(b: &mut Vec<u8>, v: i32) {
    b.extend_from_slice(&v.to_le_bytes());
}

fn push_u32(b: &mut Vec<u8>, v: u32) {
    b.extend_from_slice(&v.to_le_bytes());
}

fn push_u16(b: &mut Vec<u8>, v: u16) {
    b.extend_from_slice(&v.to_le_bytes());
}

fn push_f32(b: &mut Vec<u8>, v: f32) {
    b.extend_from_slice(&v.to_le_bytes());
}

fn push_text(b: &mut Vec<u8>, s: &str) {
    push_i32(b, s.len() as i32);
    b.extend_from_slice(s.as_bytes());
}

fn push_vec3(b: &mut Vec<u8>, x: f32, y: f32, z: f32) {
    push_f32(b, x);
    push_f32(b, y);
    push_f32(b, z);
}

fn push_vec4(b: &mut Vec<u8>, x: f32, y: f32, z: f32, w: f32) {
    push_f32(b, x);
    push_f32(b, y);
    push_f32(b, z);
    push_f32(b, w);
}

/// A UTF-8 header with the given index width for all six kinds, the given
/// additional-UV channel count, and empty model text fields.
fn header(width: u8, additional: u8) -> Vec<u8> {
    let mut b = vec![0x50, 0x4D, 0x58, 0x20];
    push_f32(&mut b, 2.0);
    b.push(8);
    b.push(1);
    b.push(additional);
    for _ in 0..6 {
        b.push(width);
    }
    for _ in 0..4 {
        push_text(&mut b, "");
    }
    b
}

fn to_vertex_reader(bytes: Vec<u8>) -> mmd::VertexReader {
    mmd::VertexReader::new(mmd::HeaderReader::new(bytes).unwrap()).unwrap()
}

fn to_surface_reader(bytes: Vec<u8>) -> mmd::SurfaceReader {
    mmd::SurfaceReader::new(to_vertex_reader(bytes)).unwrap()
}

fn to_texture_reader(bytes: Vec<u8>) -> mmd::TextureReader {
    mmd::TextureReader::new(to_surface_reader(bytes)).unwrap()
}

fn to_material_reader(bytes: Vec<u8>) -> mmd::MaterialReader {
    mmd::MaterialReader::new(to_texture_reader(bytes)).unwrap()
}

fn to_bone_reader(bytes: Vec<u8>) -> mmd::BoneReader {
    mmd::BoneReader::new(to_material_reader(bytes)).unwrap()
}

fn to_morph_reader(bytes: Vec<u8>) -> mmd::MorphReader {
    mmd::MorphReader::new(to_bone_reader(bytes)).unwrap()
}

fn to_display_reader(bytes: Vec<u8>) -> mmd::DisplayReader {
    mmd::DisplayReader::new(to_morph_reader(bytes)).unwrap()
}

fn to_rigid_body_reader(bytes: Vec<u8>) -> mmd::RigidBodyReader {
    mmd::RigidBodyReader::new(to_display_reader(bytes)).unwrap()
}

fn to_joint_reader(bytes: Vec<u8>) -> mmd::JointReader {
    mmd::JointReader::new(to_rigid_body_reader(bytes)).unwrap()
}

fn morph_stream(panel: u8, ty: u8, count: u32, entries: &[u8]) -> Vec<u8> {
    let mut b = header(1, 0);
    for _ in 0..5 {
        push_i32(&mut b, 0);
    }
    push_i32(&mut b, 1);
    push_text(&mut b, "smile");
    push_text(&mut b, "Smile");
    b.push(panel);
    b.push(ty);
    push_u32(&mut b, count);
    b.extend_from_slice(entries);
    b
}

fn group_entries() -> Vec<u8> {
    let mut e = Vec::new();
    for i in 0..2u8 {
        e.push(i);
        push_f32(&mut e, 0.5);
    }
    e
}

fn vertex_entries() -> Vec<u8> {
    let mut e = Vec::new();
    for i in 0..2u8 {
        e.push(i);
        push_vec3(&mut e, 1.0, 0.0, 0.0);
    }
    e
}

fn bone_entries() -> Vec<u8> {
    let mut e = Vec::new();
    for i in 0..2u8 {
        e.push(i);
        push_vec3(&mut e, 1.0, 0.0, 0.0);
        push_vec4(&mut e, 0.0, 0.0, 0.0, 1.0);
    }
    e
}

fn uv_entries() -> Vec<u8> {
    let mut e = Vec::new();
    for i in 0..2u8 {
        e.push(i);
        push_vec4(&mut e, 0.5, 0.5, 0.0, 0.0);
    }
    e
}

fn material_entries(method: u8) -> Vec<u8> {
    let mut e = Vec::new();
    for i in 0..2u8 {
        e.push(i);
        e.push(method);
        push_vec4(&mut e, 1.0, 1.0, 1.0, 1.0);
        push_vec3(&mut e, 1.0, 1.0, 1.0);
        push_f32(&mut e, 1.0);
        push_vec3(&mut e, 1.0, 1.0, 1.0);
        push_vec4(&mut e, 1.0, 1.0, 1.0, 1.0);
        push_f32(&mut e, 1.0);
        push_vec4(&mut e, 1.0, 1.0, 1.0, 1.0);
        push_vec4(&mut e, 1.0, 1.0, 1.0, 1.0);
        push_vec4(&mut e, 1.0, 1.0, 1.0, 1.0);
    }
    e
}

fn impulse_entries() -> Vec<u8> {
    let mut e = Vec::new();
    for i in 0..2u8 {
        e.push(i);
        e.push(1);
        push_vec3(&mut e, 0.0, 1.0, 0.0);
        push_vec3(&mut e, 0.0, 0.0, 1.0);
    }
    e
}

#[test]
fn every_discriminant_yields_the_matching_variant() {
    for ty in 0u8..=10 {
        let entries = match ty {
            0 | 9 => group_entries(),
            1 => vertex_entries(),
            2 => bone_entries(),
            3..=7 => uv_entries(),
            8 => material_entries(0),
            _ => impulse_entries(),
        };
        let mut m = to_morph_reader(morph_stream(4, ty, 2, &entries));
        let morph = m.next().unwrap().unwrap();
        assert_eq!(morph.panel, Panel::Other);
        let (tag, len): (u8, usize) = match &morph.offsets {
            Offsets::Group(v) => (0, v.len()),
            Offsets::Vertex(v) => (1, v.len()),
            Offsets::Bone(v) => (2, v.len()),
            Offsets::UV(v) => (3, v.len()),
            Offsets::AdditionalUV1(v) => (4, v.len()),
            Offsets::AdditionalUV2(v) => (5, v.len()),
            Offsets::AdditionalUV3(v) => (6, v.len()),
            Offsets::AdditionalUV4(v) => (7, v.len()),
            Offsets::Material(v) => (8, v.len()),
            Offsets::Flip(v) => (9, v.len()),
            Offsets::Impulse(v) => (10, v.len()),
        };
        assert_eq!(len, 2, "wrong entry count for type {}", ty);
        assert_eq!(tag, ty, "wrong variant for type {}", ty);
    }
}

#[test]
fn group_offset_values() {
    let mut m = to_morph_reader(morph_stream(1, 0, 2, &group_entries()));
    let morph = m.next().unwrap().unwrap();
    assert_eq!(morph.local_name, "smile");
    assert_eq!(morph.panel, Panel::Eyebrows);
    match morph.offsets {
        Offsets::Group(v) => {
            assert_eq!(v[0].morph, 0);
            assert_eq!(v[1].morph, 1);
            assert_eq!(f32::from_bits(v[1].influence), 0.5);
        },
        other => panic!("expected group offsets, got {:?}", other),
    }
}

#[test]
fn material_offset_method_additive() {
    let mut m = to_morph_reader(morph_stream(0, 8, 2, &material_entries(1)));
    match m.next().unwrap().unwrap().offsets {
        Offsets::Material(v) => {
            assert_eq!(v[0].method, OffsetMethod::Additive);
            assert_eq!(v[1].material, 1);
        },
        other => panic!("expected material offsets, got {:?}", other),
    }
}

#[test]
fn impulse_offset_values() {
    let mut m = to_morph_reader(morph_stream(0, 10, 2, &impulse_entries()));
    match m.next().unwrap().unwrap().offsets {
        Offsets::Impulse(v) => {
            assert_eq!(v[1].rigid_body, 1);
            assert!(v[0].local);
            assert_eq!(f32::from_bits(v[0].velocity.y), 1.0);
            assert_eq!(f32::from_bits(v[0].torque.z), 1.0);
        },
        other => panic!("expected impulse offsets, got {:?}", other),
    }
}

#[test]
fn invalid_morph_type() {
    let mut m = to_morph_reader(morph_stream(0, 11, 0, &[]));
    match m.next() {
        Err(Error::InvalidMorphType(t)) => assert_eq!(t, 11),
        other => panic!("expected InvalidMorphType, got {:?}", other),
    }
    assert!(m.poison);
}

#[test]
fn invalid_material_offset_method() {
    let mut m = to_morph_reader(morph_stream(0, 8, 2, &material_entries(2)));
    match m.next() {
        Err(Error::InvalidMaterialOffsetMethod(t)) => assert_eq!(t, 2),
        other => panic!("expected InvalidMaterialOffsetMethod, got {:?}", other),
    }
}

#[test]
fn unknown_panel_byte_is_kept() {
    let mut m = to_morph_reader(morph_stream(9, 0, 0, &[]));
    assert_eq!(m.next().unwrap().unwrap().panel, Panel::Unknown(9));
}
