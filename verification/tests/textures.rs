use mmd::{HeaderReader, SurfaceReader, TextureReader, VertexReader};

fn push_i32(b: &mut Vec<u8>, v: i32) {
    b.extend_from_slice(&v.to_le_bytes());
}

fn push_u32(b: &mut Vec<u8>, v: u32) {
    b.extend_from_slice(&v.to_le_bytes());
}

fn push_u16(b: &mut Vec<u8>, v: u16) {
    b.extend_from_slice(&v.to_le_bytes());
}

fn push_f32(b: &mut Vec<u8>, v: f32) {
    b.extend_from_slice(&v.to_le_bytes());
}

fn push_text(b: &mut Vec<u8>, s: &str) {
    push_i32(b, s.len() as i32);
    b.extend_from_slice(s.as_bytes());
}

fn push_vec3(b: &mut Vec<u8>, x: f32, y: f32, z: f32) {
    push_f32(b, x);
    push_f32(b, y);
    push_f32(b, z);
}

fn push_vec4(b: &mut Vec<u8>, x: f32, y: f32, z: f32, w: f32) {
    push_f32(b, x);
    push_f32(b, y);
    push_f32(b, z);
    push_f32(b, w);
}

/// A UTF-8 header with the given index width for all six kinds, the given
/// additional-UV channel count, and empty model text fields.
fn header(width: u8, additional: u8) -> Vec<u8> {
    let mut b = vec![0x50, 0x4D, 0x58, 0x20];
    push_f32(&mut b, 2.0);
    b.push(8);
    b.push(1);
    b.push(additional);
    for _ in 0..6 {
        b.push(width);
    }
    for _ in 0..4 {
        push_text(&mut b, "");
    }
    b
}

fn to_texture_reader(bytes: Vec<u8>) -> mmd::TextureReader {
    mmd::TextureReader::new(
        mmd::SurfaceReader::new(mmd::VertexReader::new(mmd::HeaderReader::new(bytes).unwrap()).unwrap()).unwrap(),
    )
    .unwrap()
}

#[test]
fn texture_paths_decode_in_order() {
    let mut b = header(1, 0);
    push_i32(&mut b, 0);
    push_i32(&mut b, 0);
    push_i32(&mut b, 2);
    push_text(&mut b, "body.png");
    push_text(&mut b, "face.png");
    let mut t = to_texture_reader(b);
    assert_eq!(t.count, 2);
    assert_eq!(t.next().unwrap(), Some("body.png".to_string()));
    assert_eq!(t.next().unwrap(), Some("face.png".to_string()));
    assert_eq!(t.next().unwrap(), None);
}

#[test]
fn texture_iter_collects_the_rest() {
    let mut b = header(1, 0);
    push_i32(&mut b, 0);
    push_i32(&mut b, 0);
    push_i32(&mut b, 3);
    push_text(&mut b, "a");
    push_text(&mut b, "b");
    push_text(&mut b, "c");
    let mut t = to_texture_reader(b);
    assert_eq!(t.next().unwrap(), Some("a".to_string()));
    assert_eq!(t.iter().unwrap(), vec!["b".to_string(), "c".to_string()]);
    assert_eq!(t.remaining, 0);
}
