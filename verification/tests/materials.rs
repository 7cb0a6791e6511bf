use mmd::material::{DrawingFlags, EnvironmentBlendMode, Toon};
use mmd::{
    BoneReader, Error, HeaderReader, MaterialReader, SurfaceReader, TextureReader, VertexReader,
};

fn push_i32(b: &mut Vec<u8>, v: i32) {
    b.extend_from_slice(&v.to_le_bytes());
}

fn push_u32(b: &mut Vec<u8>, v: u32) {
    b.extend_from_slice(&v.to_le_bytes());
}

fn push_u16(b: &mut Vec<u8>, v: u16) {
    b.extend_from_slice(&v.to_le_bytes());
}

fn push_f32(b: &mut Vec<u8>, v: f32) {
    b.extend_from_slice(&v.to_le_bytes());
}

fn push_text(b: &mut Vec<u8>, s: &str) {
    push_i32(b, s.len() as i32);
    b.extend_from_slice(s.as_bytes());
}

fn push_vec3(b: &mut Vec<u8>, x: f32, y: f32, z: f32) {
    push_f32(b, x);
    push_f32(b, y);
    push_f32(b, z);
}

fn push_vec4(b: &mut Vec<u8>, x: f32, y: f32, z: f32, w: f32) {
    push_f32(b, x);
    push_f32(b, y);
    push_f32(b, z);
    push_f32(b, w);
}

/// A UTF-8 header with the given index width for all six kinds, the given
/// additional-UV channel count, and empty model text fields.
fn header(width: u8, additional: u8) -> Vec<u8> {
    let mut b = vec![0x50, 0x4D, 0x58, 0x20];
    push_f32(&mut b, 2.0);
    b.push(8);
    b.push(1);
    b.push(additional);
    for _ in 0..6 {
        b.push(width);
    }
    for _ in 0..4 {
        push_text(&mut b, "");
    }
    b
}

fn to_vertex_reader(bytes: Vec<u8>) -> mmd::VertexReader {
    mmd::VertexReader::new(mmd::HeaderReader::new(bytes).unwrap()).unwrap()
}

fn to_surface_reader(bytes: Vec<u8>) -> mmd::SurfaceReader {
    mmd::SurfaceReader::new(to_vertex_reader(bytes)).unwrap()
}

fn to_texture_reader(bytes: Vec<u8>) -> mmd::TextureReader {
    mmd::TextureReader::new(to_surface_reader(bytes)).unwrap()
}

fn to_material_reader(bytes: Vec<u8>) -> mmd::MaterialReader {
    mmd::MaterialReader::new(to_texture_reader(bytes)).unwrap()
}

fn to_bone_reader(bytes: Vec<u8>) -> mmd::BoneReader {
    mmd::BoneReader::new(to_material_reader(bytes)).unwrap()
}

fn to_morph_reader(bytes: Vec<u8>) -> mmd::MorphReader {
    mmd::MorphReader::new(to_bone_reader(bytes)).unwrap()
}

fn to_display_reader(bytes: Vec<u8>) -> mmd::DisplayReader {
    mmd::DisplayReader::new(to_morph_reader(bytes)).unwrap()
}

fn to_rigid_body_reader(bytes: Vec<u8>) -> mmd::RigidBodyReader {
    mmd::RigidBodyReader::new(to_display_reader(bytes)).unwrap()
}

fn to_joint_reader(bytes: Vec<u8>) -> mmd::JointReader {
    mmd::JointReader::new(to_rigid_body_reader(bytes)).unwrap()
}

fn material_stream(blend_byte: u8, toon_bytes: &[u8]) -> Vec<u8> {
    let mut b = header(1, 0);
    push_i32(&mut b, 0);
    push_i32(&mut b, 0);
    push_i32(&mut b, 0);
    push_i32(&mut b, 1);
    push_text(&mut b, "skin");
    push_text(&mut b, "Skin");
    push_vec4(&mut b, 1.0, 0.5, 0.25, 1.0);
    push_vec3(&mut b, 0.1, 0.2, 0.3);
    push_f32(&mut b, 5.0);
    push_vec3(&mut b, 0.4, 0.5, 0.6);
    b.push(0x11);
    push_vec4(&mut b, 0.0, 0.0, 0.0, 1.0);
    push_f32(&mut b, 1.5);
    b.push(2);
    b.push(3);
    b.push(blend_byte);
    b.extend_from_slice(toon_bytes);
    push_text(&mut b, "meta");
    push_i32(&mut b, 6);
    b
}

#[test]
fn material_record_decodes_every_field() {
    let mut m = to_material_reader(material_stream(2, &[0, 4]));
    assert_eq!(m.count, 1);
    let mat = m.next().unwrap().unwrap();
    assert_eq!(mat.local_name, "skin");
    assert_eq!(mat.universal_name, "Skin");
    assert_eq!(f32::from_bits(mat.diffuse_color.y), 0.5);
    assert_eq!(f32::from_bits(mat.specular_color.z), 0.3);
    assert_eq!(f32::from_bits(mat.specular_strength), 5.0);
    assert_eq!(f32::from_bits(mat.ambient_color.x), 0.4);
    assert_eq!(mat.draw_flags, 0x11);
    assert!(mat.has_draw_flag(DrawingFlags::NoCull));
    assert!(mat.has_draw_flag(DrawingFlags::HasEdge));
    assert!(!mat.has_draw_flag(DrawingFlags::GroundShadow));
    assert_eq!(f32::from_bits(mat.edge_scale), 1.5);
    assert_eq!(mat.texture_index, 2);
    assert_eq!(mat.environment_index, 3);
    assert_eq!(mat.environment_blend_mode, EnvironmentBlendMode::Additive);
    assert_eq!(mat.toon, Toon::Texture(4));
    assert_eq!(mat.metadata, "meta");
    assert_eq!(mat.surface_count, 6);
    assert_eq!(m.next().unwrap(), None);
}

#[test]
fn internal_toon_reference() {
    let mut m = to_material_reader(material_stream(0, &[1, 200]));
    let mat = m.next().unwrap().unwrap();
    assert_eq!(mat.environment_blend_mode, EnvironmentBlendMode::Disabled);
    assert_eq!(mat.toon, Toon::Internal(200));
}

#[test]
fn invalid_toon_reference() {
    let mut m = to_material_reader(material_stream(0, &[2, 0]));
    match m.next() {
        Err(Error::InvalidToonReference(t)) => assert_eq!(t, 2),
        other => panic!("expected InvalidToonReference, got {:?}", other),
    }
    assert!(m.poison);
}

#[test]
fn invalid_environment_blend_mode() {
    let mut m = to_material_reader(material_stream(4, &[0, 0]));
    match m.next() {
        Err(Error::InvalidEnvironmentBlendMode(t)) => assert_eq!(t, 4),
        other => panic!("expected InvalidEnvironmentBlendMode, got {:?}", other),
    }
}
