use mmd::{
    BoneReader, Error, HeaderReader, Index, MaterialReader, SurfaceReader, TextureReader,
    VertexIndex, VertexReader,
};

fn push_i32(b: &mut Vec<u8>, v: i32) {
    b.extend_from_slice(&v.to_le_bytes());
}

fn push_u32(b: &mut Vec<u8>, v: u32) {
    b.extend_from_slice(&v.to_le_bytes());
}

fn push_u16(b: &mut Vec<u8>, v: u16) {
    b.extend_from_slice(&v.to_le_bytes());
}

fn push_f32(b: &mut Vec<u8>, v: f32) {
    b.extend_from_slice(&v.to_le_bytes());
}

fn push_text(b: &mut Vec<u8>, s: &str) {
    push_i32(b, s.len() as i32);
    b.extend_from_slice(s.as_bytes());
}

fn push_vec3(b: &mut Vec<u8>, x: f32, y: f32, z: f32) {
    push_f32(b, x);
    push_f32(b, y);
    push_f32(b, z);
}

/// A UTF-8 header with the given index width for all six kinds, the given
/// additional-UV channel count, and empty model text fields.
fn header(width: u8, additional: u8) -> Vec<u8> {
    let mut b = vec![0x50, 0x4D, 0x58, 0x20];
    push_f32(&mut b, 2.0);
    b.push(8);
    b.push(1);
    b.push(additional);
    for _ in 0..6 {
        b.push(width);
    }
    for _ in 0..4 {
        push_text(&mut b, "");
    }
    b
}

fn to_vertex_reader(bytes: Vec<u8>) -> mmd::VertexReader {
    mmd::VertexReader::new(mmd::HeaderReader::new(bytes).unwrap()).unwrap()
}

fn to_surface_reader(bytes: Vec<u8>) -> mmd::SurfaceReader {
    mmd::SurfaceReader::new(to_vertex_reader(bytes)).unwrap()
}

fn to_texture_reader(bytes: Vec<u8>) -> mmd::TextureReader {
    mmd::TextureReader::new(to_surface_reader(bytes)).unwrap()
}

fn to_material_reader(bytes: Vec<u8>) -> mmd::MaterialReader {
    mmd::MaterialReader::new(to_texture_reader(bytes)).unwrap()
}

fn to_bone_reader(bytes: Vec<u8>) -> mmd::BoneReader {
    mmd::BoneReader::new(to_material_reader(bytes)).unwrap()
}

fn to_morph_reader(bytes: Vec<u8>) -> mmd::MorphReader {
    mmd::MorphReader::new(to_bone_reader(bytes)).unwrap()
}

fn to_display_reader(bytes: Vec<u8>) -> mmd::DisplayReader {
    mmd::DisplayReader::new(to_morph_reader(bytes)).unwrap()
}

fn to_rigid_body_reader(bytes: Vec<u8>) -> mmd::RigidBodyReader {
    mmd::RigidBodyReader::new(to_display_reader(bytes)).unwrap()
}

fn to_joint_reader(bytes: Vec<u8>) -> mmd::JointReader {
    mmd::JointReader::new(to_rigid_body_reader(bytes)).unwrap()
}

#[test]
fn narrow_keeps_in_range_values() {
    assert_eq!(<i8 as Index>::narrow(127), Ok(127i8));
    assert_eq!(<i8 as Index>::narrow(-128), Ok(-128i8));
    assert_eq!(<i16 as Index>::narrow(-32768), Ok(-32768i16));
    assert_eq!(<i32 as Index>::narrow(-1), Ok(-1i32));
    assert_eq!(<u8 as VertexIndex>::narrow(255), Ok(255u8));
    assert_eq!(<u16 as VertexIndex>::narrow(65535), Ok(65535u16));
    assert_eq!(<u32 as VertexIndex>::narrow(7), Ok(7u32));
}

#[test]
fn narrow_reports_overflow_with_the_value() {
    assert_eq!(<i8 as Index>::narrow(128), Err(Error::IndexOverflow(128)));
    assert_eq!(<i8 as Index>::narrow(-129), Err(Error::IndexOverflow(-129)));
    assert_eq!(<i16 as Index>::narrow(32768), Err(Error::IndexOverflow(32768)));
    assert_eq!(<u8 as VertexIndex>::narrow(-1), Err(Error::IndexOverflow(-1)));
    assert_eq!(<u8 as VertexIndex>::narrow(256), Err(Error::IndexOverflow(256)));
    assert_eq!(<u16 as VertexIndex>::narrow(65536), Err(Error::IndexOverflow(65536)));
    assert_eq!(<u32 as VertexIndex>::narrow(-3), Err(Error::IndexOverflow(-3)));
}

#[test]
fn vertex_index_width_one_zero_extends() {
    let mut b = header(1, 0);
    push_i32(&mut b, 0);
    push_i32(&mut b, 3);
    b.extend_from_slice(&[5, 6, 250]);
    let mut s = to_surface_reader(b);
    assert_eq!(s.next().unwrap(), Some([5, 6, 250]));
    assert_eq!(s.next().unwrap(), None);
}

#[test]
fn vertex_index_width_two_zero_extends() {
    let mut b = header(2, 0);
    push_i32(&mut b, 0);
    push_i32(&mut b, 3);
    push_u16(&mut b, 258);
    push_u16(&mut b, 65535);
    push_u16(&mut b, 2);
    let mut s = to_surface_reader(b);
    assert_eq!(s.next().unwrap(), Some([258, 65535, 2]));
}

#[test]
fn vertex_index_width_four_is_signed() {
    let mut b = header(4, 0);
    push_i32(&mut b, 0);
    push_i32(&mut b, 3);
    push_i32(&mut b, -2);
    push_i32(&mut b, 70000);
    push_i32(&mut b, 0);
    let mut s = to_surface_reader(b);
    assert_eq!(s.next().unwrap(), Some([-2, 70000, 0]));
}

#[test]
fn bone_index_width_one_sign_extends() {
    let mut b = header(1, 0);
    push_i32(&mut b, 0);
    push_i32(&mut b, 0);
    push_i32(&mut b, 0);
    push_i32(&mut b, 0);
    push_i32(&mut b, 1);
    push_text(&mut b, "root");
    push_text(&mut b, "");
    push_vec3(&mut b, 0.0, 0.0, 0.0);
    b.push(0xFF);
    push_i32(&mut b, 0);
    push_u16(&mut b, 0);
    push_vec3(&mut b, 0.0, 0.0, 0.0);
    let mut br = to_bone_reader(b);
    let bone = br.next().unwrap().unwrap();
    assert_eq!(bone.parent, -1);
}

#[test]
fn bone_index_width_two_sign_extends() {
    let mut b = header(2, 0);
    push_i32(&mut b, 0);
    push_i32(&mut b, 0);
    push_i32(&mut b, 0);
    push_i32(&mut b, 0);
    push_i32(&mut b, 1);
    push_text(&mut b, "root");
    push_text(&mut b, "");
    push_vec3(&mut b, 0.0, 0.0, 0.0);
    push_u16(&mut b, 0xFFFE);
    push_i32(&mut b, 0);
    push_u16(&mut b, 0);
    push_vec3(&mut b, 0.0, 0.0, 0.0);
    let mut br = to_bone_reader(b);
    let bone = br.next().unwrap().unwrap();
    assert_eq!(bone.parent, -2);
}
