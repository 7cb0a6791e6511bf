use mmd::display::Frame;
use mmd::joint::JointType;
use mmd::rigid_body::{PhysicsMode, ShapeType};
use mmd::{
    BoneReader, DisplayReader, Error, HeaderReader, JointReader, MaterialReader, MorphReader,
    RigidBodyReader, SurfaceReader, TextureReader, VertexReader,
};

fn push_i32(b: &mut Vec<u8>, v: i32) {
    b.extend_from_slice(&v.to_le_bytes());
}

fn push_u32(b: &mut Vec<u8>, v: u32) {
    b.extend_from_slice(&v.to_le_bytes());
}

fn push_u16(b: &mut Vec<u8>, v: u16) {
    b.extend_from_slice(&v.to_le_bytes());
}

fn push_f32(b: &mut Vec<u8>, v: f32) {
    b.extend_from_slice(&v.to_le_bytes());
}

fn push_text(b: &mut Vec<u8>, s: &str) {
    push_i32(b, s.len() as i32);
    b.extend_from_slice(s.as_bytes());
}

fn push_vec3(b: &mut Vec<u8>, x: f32, y: f32, z: f32) {
    push_f32(b, x);
    push_f32(b, y);
    push_f32(b, z);
}

fn push_vec4(b: &mut Vec<u8>, x: f32, y: f32, z: f32, w: f32) {
    push_f32(b, x);
    push_f32(b, y);
    push_f32(b, z);
    push_f32(b, w);
}

/// A UTF-8 header with the given index width for all six kinds, the given
/// additional-UV channel count, and empty model text fields.
fn header(width: u8, additional: u8) -> Vec<u8> {
    let mut b = vec![0x50, 0x4D, 0x58, 0x20];
    push_f32(&mut b, 2.0);
    b.push(8);
    b.push(1);
    b.push(additional);
    for _ in 0..6 {
        b.push(width);
    }
    for _ in 0..4 {
        push_text(&mut b, "");
    }
    b
}

fn to_vertex_reader(bytes: Vec<u8>) -> mmd::VertexReader {
    mmd::VertexReader::new(mmd::HeaderReader::new(bytes).unwrap()).unwrap()
}

fn to_surface_reader(bytes: Vec<u8>) -> mmd::SurfaceReader {
    mmd::SurfaceReader::new(to_vertex_reader(bytes)).unwrap()
}

fn to_texture_reader(bytes: Vec<u8>) -> mmd::TextureReader {
    mmd::TextureReader::new(to_surface_reader(bytes)).unwrap()
}

fn to_material_reader(bytes: Vec<u8>) -> mmd::MaterialReader {
    mmd::MaterialReader::new(to_texture_reader(bytes)).unwrap()
}

fn to_bone_reader(bytes: Vec<u8>) -> mmd::BoneReader {
    mmd::BoneReader::new(to_material_reader(bytes)).unwrap()
}

fn to_morph_reader(bytes: Vec<u8>) -> mmd::MorphReader {
    mmd::MorphReader::new(to_bone_reader(bytes)).unwrap()
}

fn to_display_reader(bytes: Vec<u8>) -> mmd::DisplayReader {
    mmd::DisplayReader::new(to_morph_reader(bytes)).unwrap()
}

fn to_rigid_body_reader(bytes: Vec<u8>) -> mmd::RigidBodyReader {
    mmd::RigidBodyReader::new(to_display_reader(bytes)).unwrap()
}

fn to_joint_reader(bytes: Vec<u8>) -> mmd::JointReader {
    mmd::JointReader::new(to_rigid_body_reader(bytes)).unwrap()
}

fn display_stream(frames: &[u8], frame_count: u32) -> Vec<u8> {
    let mut b = header(1, 0);
    for _ in 0..6 {
        push_i32(&mut b, 0);
    }
    push_i32(&mut b, 1);
    push_text(&mut b, "Root");
    push_text(&mut b, "");
    b.push(1);
    push_u32(&mut b, frame_count);
    b.extend_from_slice(frames);
    b
}

#[test]
fn display_frame_references() {
    let mut d = to_display_reader(display_stream(&[0, 3, 1, 7], 2));
    let frame = d.next().unwrap().unwrap();
    assert_eq!(frame.local_name, "Root");
    assert!(frame.special_flag);
    assert_eq!(frame.frames, vec![Frame::Bone(3), Frame::Morph(7)]);
    assert_eq!(d.next().unwrap(), None);
}

#[test]
fn invalid_frame_type() {
    let mut d = to_display_reader(display_stream(&[2, 0], 1));
    match d.next() {
        Err(Error::InvalidFrameType(t)) => assert_eq!(t, 2),
        other => panic!("expected InvalidFrameType, got {:?}", other),
    }
    assert!(d.poison);
}

fn rigid_body_stream(shape: u8, mode: u8) -> Vec<u8> {
    let mut b = header(1, 0);
    for _ in 0..7 {
        push_i32(&mut b, 0);
    }
    push_i32(&mut b, 1);
    push_text(&mut b, "hip");
    push_text(&mut b, "");
    b.push(2);
    b.push(3);
    push_u16(&mut b, 0xFFFE);
    b.push(shape);
    push_vec3(&mut b, 1.0, 2.0, 3.0);
    push_vec3(&mut b, 0.0, 1.0, 0.0);
    push_vec3(&mut b, 0.0, 0.0, 0.5);
    push_f32(&mut b, 10.0);
    push_f32(&mut b, 0.9);
    push_f32(&mut b, 0.8);
    push_f32(&mut b, 0.1);
    push_f32(&mut b, 0.5);
    b.push(mode);
    b
}

#[test]
fn rigid_body_record_decodes_every_field() {
    let mut r = to_rigid_body_reader(rigid_body_stream(2, 1));
    let rb = r.next().unwrap().unwrap();
    assert_eq!(rb.local_name, "hip");
    assert_eq!(rb.bone_index, 2);
    assert_eq!(rb.group_id, 3);
    assert_eq!(rb.non_collision_mask, 0xFFFE);
    assert_eq!(rb.shape, ShapeType::Capsule);
    assert_eq!(f32::from_bits(rb.shape_size.z), 3.0);
    assert_eq!(f32::from_bits(rb.shape_position.y), 1.0);
    assert_eq!(f32::from_bits(rb.shape_rotation.z), 0.5);
    assert_eq!(f32::from_bits(rb.mass), 10.0);
    assert_eq!(f32::from_bits(rb.move_attenuation), 0.9);
    assert_eq!(f32::from_bits(rb.rotation_damping), 0.8);
    assert_eq!(f32::from_bits(rb.repulsion), 0.1);
    assert_eq!(f32::from_bits(rb.fiction), 0.5);
    assert_eq!(rb.physics_mode, PhysicsMode::Dynamic);
}

#[test]
fn invalid_shape_type() {
    let mut r = to_rigid_body_reader(rigid_body_stream(3, 0));
    match r.next() {
        Err(Error::InvalidShapeType(t)) => assert_eq!(t, 3),
        other => panic!("expected InvalidShapeType, got {:?}", other),
    }
}

#[test]
fn invalid_physics_mode() {
    let mut r = to_rigid_body_reader(rigid_body_stream(0, 3));
    match r.next() {
        Err(Error::InvalidPhysicsMode(t)) => assert_eq!(t, 3),
        other => panic!("expected InvalidPhysicsMode, got {:?}", other),
    }
}

fn joint_stream(ty: u8) -> Vec<u8> {
    let mut b = header(1, 0);
    for _ in 0..8 {
        push_i32(&mut b, 0);
    }
    push_i32(&mut b, 1);
    push_text(&mut b, "knee");
    push_text(&mut b, "");
    b.push(ty);
    b.push(0);
    b.push(1);
    for i in 0..8 {
        push_vec3(&mut b, i as f32, 0.0, 0.0);
    }
    b
}

#[test]
fn joint_record_decodes_every_field() {
    let mut j = to_joint_reader(joint_stream(5));
    let joint = j.next().unwrap().unwrap();
    assert_eq!(joint.local_name, "knee");
    assert_eq!(joint.joint_type, JointType::Hinge);
    assert_eq!(joint.rigid_body_a, 0);
    assert_eq!(joint.rigid_body_b, 1);
    assert_eq!(f32::from_bits(joint.position.x), 0.0);
    assert_eq!(f32::from_bits(joint.rotation.x), 1.0);
    assert_eq!(f32::from_bits(joint.position_min.x), 2.0);
    assert_eq!(f32::from_bits(joint.position_max.x), 3.0);
    assert_eq!(f32::from_bits(joint.rotation_min.x), 4.0);
    assert_eq!(f32::from_bits(joint.rotation_max.x), 5.0);
    assert_eq!(f32::from_bits(joint.position_spring.x), 6.0);
    assert_eq!(f32::from_bits(joint.rotation_spring.x), 7.0);
    assert_eq!(j.next().unwrap(), None);
}

#[test]
fn joint_types_decode_in_order() {
    let kinds = [
        JointType::SpringFree,
        JointType::Free,
        JointType::P2P,
        JointType::ConeTwist,
        JointType::Slider,
        JointType::Hinge,
    ];
    for (i, kind) in kinds.iter().enumerate() {
        let mut j = to_joint_reader(joint_stream(i as u8));
        assert_eq!(j.next().unwrap().unwrap().joint_type, *kind);
    }
}

#[test]
fn invalid_joint_type() {
    let mut j = to_joint_reader(joint_stream(6));
    match j.next() {
        Err(Error::InvalidJointType(t)) => assert_eq!(t, 6),
        other => panic!("expected InvalidJointType, got {:?}", other),
    }
    assert!(j.poison);
}
