use mmd::bone::{BoneFlags, Connection};
use mmd::{
    BoneReader, HeaderReader, MaterialReader, SurfaceReader, TextureReader, VertexReader,
};

fn push_i32(b: &mut Vec<u8>, v: i32) {
    b.extend_from_slice(&v.to_le_bytes());
}

fn push_u32(b: &mut Vec<u8>, v: u32) {
    b.extend_from_slice(&v.to_le_bytes());
}

fn push_u16(b: &mut Vec<u8>, v: u16) {
    b.extend_from_slice(&v.to_le_bytes());
}

fn push_f32(b: &mut Vec<u8>, v: f32) {
    b.extend_from_slice(&v.to_le_bytes());
}

fn push_text(b: &mut Vec<u8>, s: &str) {
    push_i32(b, s.len() as i32);
    b.extend_from_slice(s.as_bytes());
}

fn push_vec3(b: &mut Vec<u8>, x: f32, y: f32, z: f32) {
    push_f32(b, x);
    push_f32(b, y);
    push_f32(b, z);
}

fn push_vec4(b: &mut Vec<u8>, x: f32, y: f32, z: f32, w: f32) {
    push_f32(b, x);
    push_f32(b, y);
    push_f32(b, z);
    push_f32(b, w);
}

/// A UTF-8 header with the given index width for all six kinds, the given
/// additional-UV channel count, and empty model text fields.
fn header(width: u8, additional: u8) -> Vec<u8> {
    let mut b = vec![0x50, 0x4D, 0x58, 0x20];
    push_f32(&mut b, 2.0);
    b.push(8);
    b.push(1);
    b.push(additional);
    for _ in 0..6 {
        b.push(width);
    }
    for _ in 0..4 {
        push_text(&mut b, "");
    }
    b
}

fn to_vertex_reader(bytes: Vec<u8>) -> mmd::VertexReader {
    mmd::VertexReader::new(mmd::HeaderReader::new(bytes).unwrap()).unwrap()
}

fn to_surface_reader(bytes: Vec<u8>) -> mmd::SurfaceReader {
    mmd::SurfaceReader::new(to_vertex_reader(bytes)).unwrap()
}

fn to_texture_reader(bytes: Vec<u8>) -> mmd::TextureReader {
    mmd::TextureReader::new(to_surface_reader(bytes)).unwrap()
}

fn to_material_reader(bytes: Vec<u8>) -> mmd::MaterialReader {
    mmd::MaterialReader::new(to_texture_reader(bytes)).unwrap()
}

fn to_bone_reader(bytes: Vec<u8>) -> mmd::BoneReader {
    mmd::BoneReader::new(to_material_reader(bytes)).unwrap()
}

fn to_morph_reader(bytes: Vec<u8>) -> mmd::MorphReader {
    mmd::MorphReader::new(to_bone_reader(bytes)).unwrap()
}

fn to_display_reader(bytes: Vec<u8>) -> mmd::DisplayReader {
    mmd::DisplayReader::new(to_morph_reader(bytes)).unwrap()
}

fn to_rigid_body_reader(bytes: Vec<u8>) -> mmd::RigidBodyReader {
    mmd::RigidBodyReader::new(to_display_reader(bytes)).unwrap()
}

fn to_joint_reader(bytes: Vec<u8>) -> mmd::JointReader {
    mmd::JointReader::new(to_rigid_body_reader(bytes)).unwrap()
}

fn bone_stream(flags: u16, gated: &[u8]) -> Vec<u8> {
    let mut b = header(1, 0);
    for _ in 0..4 {
        push_i32(&mut b, 0);
    }
    push_i32(&mut b, 1);
    push_text(&mut b, "arm");
    push_text(&mut b, "Arm");
    push_vec3(&mut b, 1.0, 2.0, 3.0);
    b.push(4);
    push_i32(&mut b, 1);
    push_u16(&mut b, flags);
    b.extend_from_slice(gated);
    b
}

fn vec3_bytes(x: f32, y: f32, z: f32) -> Vec<u8> {
    let mut b = Vec::new();
    push_vec3(&mut b, x, y, z);
    b
}

#[test]
fn no_flags_gives_offset_connection_and_no_optional_fields() {
    let mut br = to_bone_reader(bone_stream(0, &vec3_bytes(0.5, 0.0, 0.0)));
    let bone = br.next().unwrap().unwrap();
    assert_eq!(bone.local_name, "arm");
    assert_eq!(bone.parent, 4);
    assert_eq!(bone.transform_level, 1);
    match bone.connection {
        Connection::Position(v) => assert_eq!(f32::from_bits(v.x), 0.5),
        other => panic!("expected offset connection, got {:?}", other),
    }
    assert!(bone.additional.is_none());
    assert!(bone.fixed_axis.is_none());
    assert!(bone.local_axis.is_none());
    assert!(bone.external_parent_transform.is_none());
    assert!(bone.inverse_kinematics.is_none());
    assert!(!bone.has_flag(BoneFlags::Rotatable));
}

#[test]
fn connection_bit_selects_an_index() {
    let mut br = to_bone_reader(bone_stream(0x0001, &[9]));
    let bone = br.next().unwrap().unwrap();
    assert_eq!(bone.connection, Connection::Index(9));
    assert!(bone.has_flag(BoneFlags::Connection));
}

#[test]
fn add_rotation_bit_alone_gates_the_additional_pair() {
    let mut gated = vec3_bytes(0.0, 0.0, 0.0);
    gated.push(3);
    push_f32(&mut gated, 0.5);
    let mut br = to_bone_reader(bone_stream(0x0100, &gated));
    let bone = br.next().unwrap().unwrap();
    let add = bone.additional.unwrap();
    assert_eq!(add.parent, 3);
    assert_eq!(f32::from_bits(add.rate), 0.5);
    assert!(bone.fixed_axis.is_none());
    assert!(bone.inverse_kinematics.is_none());
}

#[test]
fn add_movement_bit_alone_gates_the_additional_pair() {
    let mut gated = vec3_bytes(0.0, 0.0, 0.0);
    gated.push(7);
    push_f32(&mut gated, 0.25);
    let mut br = to_bone_reader(bone_stream(0x0200, &gated));
    let bone = br.next().unwrap().unwrap();
    assert_eq!(bone.additional.unwrap().parent, 7);
}

#[test]
fn fixed_and_local_axis_bits_gate_their_vectors() {
    let mut gated = vec3_bytes(0.0, 0.0, 0.0);
    gated.extend_from_slice(&vec3_bytes(1.0, 0.0, 0.0));
    gated.extend_from_slice(&vec3_bytes(0.0, 1.0, 0.0));
    gated.extend_from_slice(&vec3_bytes(0.0, 0.0, 1.0));
    let mut br = to_bone_reader(bone_stream(0x0400 | 0x0800, &gated));
    let bone = br.next().unwrap().unwrap();
    assert_eq!(f32::from_bits(bone.fixed_axis.unwrap().x), 1.0);
    let la = bone.local_axis.unwrap();
    assert_eq!(f32::from_bits(la.x.y), 1.0);
    assert_eq!(f32::from_bits(la.z.z), 1.0);
    assert!(bone.additional.is_none());
    assert!(bone.external_parent_transform.is_none());
}

#[test]
fn external_parent_transform_bit_gates_its_field() {
    let mut gated = vec3_bytes(0.0, 0.0, 0.0);
    push_i32(&mut gated, 42);
    let mut br = to_bone_reader(bone_stream(0x2000, &gated));
    let bone = br.next().unwrap().unwrap();
    assert_eq!(bone.external_parent_transform, Some(42));
    assert!(bone.additional.is_none());
}

#[test]
fn inverse_kinematics_bit_gates_the_chain() {
    let mut gated = vec3_bytes(0.0, 0.0, 0.0);
    gated.push(2);
    push_u32(&mut gated, 30);
    push_f32(&mut gated, 1.0);
    push_u32(&mut gated, 2);
    gated.push(5);
    gated.push(1);
    gated.extend_from_slice(&vec3_bytes(-1.0, -1.0, -1.0));
    gated.extend_from_slice(&vec3_bytes(1.0, 1.0, 1.0));
    gated.push(6);
    gated.push(0);
    let mut br = to_bone_reader(bone_stream(0x0020, &gated));
    let bone = br.next().unwrap().unwrap();
    let ik = bone.inverse_kinematics.unwrap();
    assert_eq!(ik.ik_bone, 2);
    assert_eq!(ik.iterations, 30);
    assert_eq!(f32::from_bits(ik.limit_angle), 1.0);
    assert_eq!(ik.links.len(), 2);
    assert_eq!(ik.links[0].ik_bone, 5);
    let (low, high) = ik.links[0].limits.unwrap();
    assert_eq!(f32::from_bits(low.x), -1.0);
    assert_eq!(f32::from_bits(high.z), 1.0);
    assert_eq!(ik.links[1].ik_bone, 6);
    assert!(ik.links[1].limits.is_none());
}

#[test]
fn unrelated_bits_gate_nothing() {
    let mut br = to_bone_reader(bone_stream(0x0002 | 0x0004 | 0x0008 | 0x0010,
        &vec3_bytes(0.0, 0.0, 0.0)));
    let bone = br.next().unwrap().unwrap();
    assert!(bone.has_flag(BoneFlags::Rotatable));
    assert!(bone.has_flag(BoneFlags::Movable));
    assert!(bone.has_flag(BoneFlags::Display));
    assert!(bone.has_flag(BoneFlags::CanOperate));
    assert!(bone.additional.is_none());
    assert!(bone.fixed_axis.is_none());
    assert!(bone.local_axis.is_none());
    assert!(bone.external_parent_transform.is_none());
    assert!(bone.inverse_kinematics.is_none());
}
