use mmd::{HeaderReader, SurfaceReader, VertexReader};

fn push_i32(b: &mut Vec<u8>, v: i32) {
    b.extend_from_slice(&v.to_le_bytes());
}

fn push_u32(b: &mut Vec<u8>, v: u32) {
    b.extend_from_slice(&v.to_le_bytes());
}

fn push_u16(b: &mut Vec<u8>, v: u16) {
    b.extend_from_slice(&v.to_le_bytes());
}

fn push_f32(b: &mut Vec<u8>, v: f32) {
    b.extend_from_slice(&v.to_le_bytes());
}

fn push_text(b: &mut Vec<u8>, s: &str) {
    push_i32(b, s.len() as i32);
    b.extend_from_slice(s.as_bytes());
}

fn push_vec3(b: &mut Vec<u8>, x: f32, y: f32, z: f32) {
    push_f32(b, x);
    push_f32(b, y);
    push_f32(b, z);
}

/// A UTF-8 header with the given index width for all six kinds, the given
/// additional-UV channel count, and empty model text fields.
fn header(width: u8, additional: u8) -> Vec<u8> {
    let mut b = vec![0x50, 0x4D, 0x58, 0x20];
    push_f32(&mut b, 2.0);
    b.push(8);
    b.push(1);
    b.push(additional);
    for _ in 0..6 {
        b.push(width);
    }
    for _ in 0..4 {
        push_text(&mut b, "");
    }
    b
}

fn to_surface_reader(bytes: Vec<u8>) -> mmd::SurfaceReader {
    mmd::SurfaceReader::new(mmd::VertexReader::new(mmd::HeaderReader::new(bytes).unwrap()).unwrap()).unwrap()
}

#[test]
fn count_six_decodes_exactly_two_triples() {
    let mut b = header(1, 0);
    push_i32(&mut b, 0);
    push_i32(&mut b, 6);
    b.extend_from_slice(&[0, 1, 2, 2, 1, 3]);
    let mut s = to_surface_reader(b);
    assert_eq!(s.count, 6);
    assert_eq!(s.next().unwrap(), Some([0, 1, 2]));
    assert_eq!(s.next().unwrap(), Some([2, 1, 3]));
    assert_eq!(s.next().unwrap(), None);
    assert_eq!(s.next().unwrap(), None);
}

#[test]
fn surface_iter_collects_remaining_triples() {
    let mut b = header(1, 0);
    push_i32(&mut b, 0);
    push_i32(&mut b, 6);
    b.extend_from_slice(&[0, 1, 2, 2, 1, 3]);
    let mut s = to_surface_reader(b);
    assert_eq!(s.next().unwrap(), Some([0, 1, 2]));
    assert_eq!(s.iter().unwrap(), vec![[2, 1, 3]]);
    assert_eq!(s.remaining, 0);
}
