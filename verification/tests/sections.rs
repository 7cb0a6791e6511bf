use mmd::{
    BoneReader, DisplayReader, Error, HeaderReader, JointReader, MaterialReader, MorphReader,
    RigidBodyReader, SurfaceReader, TextureReader, VertexReader,
};

fn push_i32(b: &mut Vec<u8>, v: i32) {
    b.extend_from_slice(&v.to_le_bytes());
}

fn push_u32(b: &mut Vec<u8>, v: u32) {
    b.extend_from_slice(&v.to_le_bytes());
}

fn push_u16(b: &mut Vec<u8>, v: u16) {
    b.extend_from_slice(&v.to_le_bytes());
}

fn push_f32(b: &mut Vec<u8>, v: f32) {
    b.extend_from_slice(&v.to_le_bytes());
}

fn push_text(b: &mut Vec<u8>, s: &str) {
    push_i32(b, s.len() as i32);
    b.extend_from_slice(s.as_bytes());
}

fn push_vec3(b: &mut Vec<u8>, x: f32, y: f32, z: f32) {
    push_f32(b, x);
    push_f32(b, y);
    push_f32(b, z);
}

fn push_vec4(b: &mut Vec<u8>, x: f32, y: f32, z: f32, w: f32) {
    push_f32(b, x);
    push_f32(b, y);
    push_f32(b, z);
    push_f32(b, w);
}

/// A UTF-8 header with the given index width for all six kinds, the given
/// additional-UV channel count, and empty model text fields.
fn header(width: u8, additional: u8) -> Vec<u8> {
    let mut b = vec![0x50, 0x4D, 0x58, 0x20];
    push_f32(&mut b, 2.0);
    b.push(8);
    b.push(1);
    b.push(additional);
    for _ in 0..6 {
        b.push(width);
    }
    for _ in 0..4 {
        push_text(&mut b, "");
    }
    b
}

fn to_vertex_reader(bytes: Vec<u8>) -> mmd::VertexReader {
    mmd::VertexReader::new(mmd::HeaderReader::new(bytes).unwrap()).unwrap()
}

fn to_surface_reader(bytes: Vec<u8>) -> mmd::SurfaceReader {
    mmd::SurfaceReader::new(to_vertex_reader(bytes)).unwrap()
}

fn to_texture_reader(bytes: Vec<u8>) -> mmd::TextureReader {
    mmd::TextureReader::new(to_surface_reader(bytes)).unwrap()
}

fn to_material_reader(bytes: Vec<u8>) -> mmd::MaterialReader {
    mmd::MaterialReader::new(to_texture_reader(bytes)).unwrap()
}

fn to_bone_reader(bytes: Vec<u8>) -> mmd::BoneReader {
    mmd::BoneReader::new(to_material_reader(bytes)).unwrap()
}

fn to_morph_reader(bytes: Vec<u8>) -> mmd::MorphReader {
    mmd::MorphReader::new(to_bone_reader(bytes)).unwrap()
}

fn to_display_reader(bytes: Vec<u8>) -> mmd::DisplayReader {
    mmd::DisplayReader::new(to_morph_reader(bytes)).unwrap()
}

fn to_rigid_body_reader(bytes: Vec<u8>) -> mmd::RigidBodyReader {
    mmd::RigidBodyReader::new(to_display_reader(bytes)).unwrap()
}

fn to_joint_reader(bytes: Vec<u8>) -> mmd::JointReader {
    mmd::JointReader::new(to_rigid_body_reader(bytes)).unwrap()
}

fn push_minimal_vertex(b: &mut Vec<u8>, bone: u8) {
    push_vec3(b, 0.0, 0.0, 0.0);
    push_vec3(b, 0.0, 1.0, 0.0);
    push_f32(b, 0.0);
    push_f32(b, 0.0);
    b.push(0);
    b.push(bone);
    push_f32(b, 1.0);
}

fn three_vertices_then_surfaces() -> Vec<u8> {
    let mut b = header(1, 0);
    push_i32(&mut b, 3);
    push_minimal_vertex(&mut b, 0);
    push_minimal_vertex(&mut b, 1);
    push_minimal_vertex(&mut b, 2);
    push_i32(&mut b, 3);
    b.extend_from_slice(&[0, 1, 2]);
    b
}

#[test]
fn partial_read_still_lands_on_the_next_section() {
    let mut v = to_vertex_reader(three_vertices_then_surfaces());
    let first = v.next().unwrap().unwrap();
    assert!(matches!(first.weight_deform, mmd::WeightDeform::Bdef1(_)));
    let mut s = mmd::SurfaceReader::new(v).unwrap();
    assert_eq!(s.count, 3);
    assert_eq!(s.next().unwrap(), Some([0, 1, 2]));
}

#[test]
fn full_read_lands_on_the_same_section_start() {
    let mut v = to_vertex_reader(three_vertices_then_surfaces());
    assert_eq!(v.iter().unwrap().len(), 3);
    let mut s = mmd::SurfaceReader::new(v).unwrap();
    assert_eq!(s.count, 3);
    assert_eq!(s.next().unwrap(), Some([0, 1, 2]));
}

#[test]
fn drain_error_propagates_to_the_next_constructor() {
    let mut b = header(1, 0);
    push_i32(&mut b, 1);
    push_vec3(&mut b, 0.0, 0.0, 0.0);
    push_vec3(&mut b, 0.0, 1.0, 0.0);
    push_f32(&mut b, 0.0);
    push_f32(&mut b, 0.0);
    b.push(9);
    let v = to_vertex_reader(b);
    match mmd::SurfaceReader::new(v) {
        Err(Error::UnknownWeightType(t)) => assert_eq!(t, 9),
        other => panic!("expected UnknownWeightType, got {:?}", other.map(|_| ())),
    }
}

#[test]
fn empty_model_chains_to_the_joint_section() {
    let mut b = header(1, 0);
    for _ in 0..9 {
        push_i32(&mut b, 0);
    }
    let mut j = to_joint_reader(b);
    assert_eq!(j.count, 0);
    assert_eq!(j.next().unwrap(), None);
}

#[test]
fn truncated_count_prefix_is_an_eof_error() {
    let mut b = header(1, 0);
    push_i32(&mut b, 0);
    b.extend_from_slice(&[1, 2]);
    let v = to_vertex_reader(b);
    assert!(matches!(mmd::SurfaceReader::new(v), Err(Error::UnexpectedEof)));
}
