use mmd::{Error, HeaderReader};

fn push_i32(b: &mut Vec<u8>, v: i32) {
    b.extend_from_slice(&v.to_le_bytes());
}

fn push_u32(b: &mut Vec<u8>, v: u32) {
    b.extend_from_slice(&v.to_le_bytes());
}

fn push_u16(b: &mut Vec<u8>, v: u16) {
    b.extend_from_slice(&v.to_le_bytes());
}

fn push_f32(b: &mut Vec<u8>, v: f32) {
    b.extend_from_slice(&v.to_le_bytes());
}

fn push_text(b: &mut Vec<u8>, s: &str) {
    push_i32(b, s.len() as i32);
    b.extend_from_slice(s.as_bytes());
}

fn push_vec3(b: &mut Vec<u8>, x: f32, y: f32, z: f32) {
    push_f32(b, x);
    push_f32(b, y);
    push_f32(b, z);
}

/// A UTF-8 header with the given index width for all six kinds, the given
/// additional-UV channel count, and empty model text fields.
fn header(width: u8, additional: u8) -> Vec<u8> {
    let mut b = vec![0x50, 0x4D, 0x58, 0x20];
    push_f32(&mut b, 2.0);
    b.push(8);
    b.push(1);
    b.push(additional);
    for _ in 0..6 {
        b.push(width);
    }
    for _ in 0..4 {
        push_text(&mut b, "");
    }
    b
}

fn header_with_name(encoding_byte: u8, name_bytes: &[u8]) -> Vec<u8> {
    let mut b = vec![0x50, 0x4D, 0x58, 0x20];
    push_f32(&mut b, 2.0);
    b.push(8);
    b.push(encoding_byte);
    b.extend_from_slice(&[0, 1, 1, 1, 1, 1, 1]);
    push_i32(&mut b, name_bytes.len() as i32);
    b.extend_from_slice(name_bytes);
    for _ in 0..3 {
        push_text(&mut b, "");
    }
    b
}

#[test]
fn utf8_and_utf16le_decode_to_same_string() {
    let content = "Mödel 模型";
    let utf8 = header_with_name(1, content.as_bytes());
    let utf16: Vec<u8> = content.encode_utf16().flat_map(|u| u.to_le_bytes()).collect();
    let utf16 = header_with_name(0, &utf16);
    let h8 = mmd::HeaderReader::new(utf8).unwrap();
    let h16 = mmd::HeaderReader::new(utf16).unwrap();
    assert_eq!(h8.model_local_name, content);
    assert_eq!(h16.model_local_name, content);
    assert_eq!(h8.model_local_name, h16.model_local_name);
}

#[test]
fn invalid_utf8_is_rejected() {
    let b = header_with_name(1, &[0xFF, 0xFE, 0x41]);
    assert!(matches!(mmd::HeaderReader::new(b), Err(Error::DecodeText(_))));
}

#[test]
fn lone_utf16_surrogate_is_rejected() {
    let b = header_with_name(0, &[0x00, 0xD8]);
    assert!(matches!(mmd::HeaderReader::new(b), Err(Error::DecodeText(_))));
}

#[test]
fn negative_text_length_is_rejected() {
    let mut b = vec![0x50, 0x4D, 0x58, 0x20];
    push_f32(&mut b, 2.0);
    b.push(8);
    b.extend_from_slice(&[1, 0, 1, 1, 1, 1, 1, 1]);
    push_i32(&mut b, -5);
    assert!(matches!(mmd::HeaderReader::new(b), Err(Error::UnexpectedEof)));
}
