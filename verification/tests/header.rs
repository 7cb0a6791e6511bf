use mmd::{Error, HeaderReader, IndexSize, TextEncoding};

fn push_i32(b: &mut Vec<u8>, v: i32) {
    b.extend_from_slice(&v.to_le_bytes());
}

fn push_u32(b: &mut Vec<u8>, v: u32) {
    b.extend_from_slice(&v.to_le_bytes());
}

fn push_u16(b: &mut Vec<u8>, v: u16) {
    b.extend_from_slice(&v.to_le_bytes());
}

fn push_f32(b: &mut Vec<u8>, v: f32) {
    b.extend_from_slice(&v.to_le_bytes());
}

fn push_text(b: &mut Vec<u8>, s: &str) {
    push_i32(b, s.len() as i32);
    b.extend_from_slice(s.as_bytes());
}

fn push_vec3(b: &mut Vec<u8>, x: f32, y: f32, z: f32) {
    push_f32(b, x);
    push_f32(b, y);
    push_f32(b, z);
}

/// A UTF-8 header with the given index width for all six kinds, the given
/// additional-UV channel count, and empty model text fields.
fn header(width: u8, additional: u8) -> Vec<u8> {
    let mut b = vec![0x50, 0x4D, 0x58, 0x20];
    push_f32(&mut b, 2.0);
    b.push(8);
    b.push(1);
    b.push(additional);
    for _ in 0..6 {
        b.push(width);
    }
    for _ in 0..4 {
        push_text(&mut b, "");
    }
    b
}

#[test]
fn header_model_info() {
    let mut b = vec![0x50, 0x4D, 0x58, 0x20];
    push_f32(&mut b, 2.1);
    b.push(8);
    b.extend_from_slice(&[1, 0, 4, 4, 4, 4, 4, 4]);
    push_text(&mut b, "M");
    push_text(&mut b, "Model");
    push_text(&mut b, "");
    push_text(&mut b, "");
    let h = mmd::HeaderReader::new(b).unwrap();
    assert_eq!(f32::from_bits(h.version), 2.1);
    assert_eq!(h.settings.text_encoding, TextEncoding::UTF8);
    assert_eq!(h.settings.additional_vec4_count, 0);
    assert_eq!(h.settings.vertex_index_size, IndexSize::I32);
    assert_eq!(h.settings.texture_index_size, IndexSize::I32);
    assert_eq!(h.settings.material_index_size, IndexSize::I32);
    assert_eq!(h.settings.bone_index_size, IndexSize::I32);
    assert_eq!(h.settings.morph_index_size, IndexSize::I32);
    assert_eq!(h.settings.rigidbody_index_size, IndexSize::I32);
    assert_eq!(h.model_local_name, "M");
    assert_eq!(h.model_universal_name, "Model");
    assert_eq!(h.local_comments, "");
    assert_eq!(h.universal_comments, "");
}

#[test]
fn wrong_signature() {
    let mut b = vec![0x50, 0x4D, 0x44, 0x20];
    push_f32(&mut b, 2.0);
    b.push(8);
    b.extend_from_slice(&[1, 0, 1, 1, 1, 1, 1, 1]);
    match mmd::HeaderReader::new(b) {
        Err(Error::WrongSignature(m)) => assert_eq!(m, [0x50, 0x4D, 0x44, 0x20]),
        other => panic!("expected WrongSignature, got {:?}", other.map(|_| ())),
    }
}

#[test]
fn globals_count_less_than_8() {
    let mut b = vec![0x50, 0x4D, 0x58, 0x20];
    push_f32(&mut b, 2.0);
    b.push(7);
    b.extend_from_slice(&[1, 0, 1, 1, 1, 1, 1]);
    match mmd::HeaderReader::new(b) {
        Err(Error::GlobalsCountLessThan8(n)) => assert_eq!(n, 7),
        other => panic!("expected GlobalsCountLessThan8, got {:?}", other.map(|_| ())),
    }
}

#[test]
fn unknown_text_encoding() {
    let mut b = vec![0x50, 0x4D, 0x58, 0x20];
    push_f32(&mut b, 2.0);
    b.push(8);
    b.extend_from_slice(&[2, 0, 1, 1, 1, 1, 1, 1]);
    match mmd::HeaderReader::new(b) {
        Err(Error::UnknownTextEncoding(n)) => assert_eq!(n, 2),
        other => panic!("expected UnknownTextEncoding, got {:?}", other.map(|_| ())),
    }
}

#[test]
fn unknown_index_size() {
    let mut b = vec![0x50, 0x4D, 0x58, 0x20];
    push_f32(&mut b, 2.0);
    b.push(8);
    b.extend_from_slice(&[1, 0, 3, 1, 1, 1, 1, 1]);
    match mmd::HeaderReader::new(b) {
        Err(Error::UnknownIndexSize(n)) => assert_eq!(n, 3),
        other => panic!("expected UnknownIndexSize, got {:?}", other.map(|_| ())),
    }
}

#[test]
fn truncated_header() {
    let b = vec![0x50, 0x4D, 0x58];
    assert!(matches!(mmd::HeaderReader::new(b), Err(Error::UnexpectedEof)));
}

#[test]
fn extra_globals_are_skipped() {
    let mut b = vec![0x50, 0x4D, 0x58, 0x20];
    push_f32(&mut b, 2.0);
    b.push(10);
    b.extend_from_slice(&[1, 2, 1, 2, 4, 1, 2, 4, 99, 98]);
    push_text(&mut b, "name");
    push_text(&mut b, "");
    push_text(&mut b, "");
    push_text(&mut b, "");
    let h = mmd::HeaderReader::new(b).unwrap();
    assert_eq!(h.settings.additional_vec4_count, 2);
    assert_eq!(h.settings.vertex_index_size, IndexSize::I8);
    assert_eq!(h.settings.texture_index_size, IndexSize::I16);
    assert_eq!(h.settings.material_index_size, IndexSize::I32);
    assert_eq!(h.settings.bone_index_size, IndexSize::I8);
    assert_eq!(h.settings.morph_index_size, IndexSize::I16);
    assert_eq!(h.settings.rigidbody_index_size, IndexSize::I32);
    assert_eq!(h.model_local_name, "name");
}
