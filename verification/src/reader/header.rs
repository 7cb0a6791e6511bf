//! The header reader: magic signature, version, globals and the four
//! model text fields.

use vstd::prelude::*;

use crate::cursor::ByteCursor;
use crate::error::{Error, ErrorView};
use crate::parse::{spec_bytes, spec_u32, spec_u8};
use crate::settings::{spec_settings, Settings};
use crate::text::spec_text;
use crate::types::{IndexSize, TextEncoding};

verus! {

/// The four magic bytes every stream must start with.
pub open spec fn spec_magic() -> Seq<u8> {
    seq![0x50u8, 0x4Du8, 0x58u8, 0x20u8]
}

/// The decoded header: version bit pattern, settings, and the four model
/// text fields, with the position after them.
pub struct HeaderView {
    pub version: u32,
    pub settings: Settings,
    pub model_local_name: Seq<char>,
    pub model_universal_name: Seq<char>,
    pub local_comments: Seq<char>,
    pub universal_comments: Seq<char>,
}

/// The whole header at the start of the stream: the magic, the four-byte
/// float version (kept as its bit pattern), the globals count (at least
/// 8; trailing unknown globals are consumed and ignored), the settings
/// from globals 0 to 7, then the four text fields in the declared
/// encoding.
pub open spec fn spec_header(d: Seq<u8>) -> Result<(HeaderView, int), ErrorView> {
    match spec_bytes(d, 0, 4) {
        Err(e) => Err(e),
        Ok((magic, p1)) => if magic != spec_magic() {
            Err(ErrorView::WrongSignature(magic))
        } else {
            match spec_u32(d, p1) {
                Err(e) => Err(e),
                Ok((version, p2)) => match spec_u8(d, p2) {
                    Err(e) => Err(e),
                    Ok((globals_count, p3)) => if globals_count < 8 {
                        Err(ErrorView::GlobalsCountLessThan8(globals_count))
                    } else {
                        match spec_bytes(d, p3, globals_count as int) {
                            Err(e) => Err(e),
                            Ok((globals, p4)) => match spec_settings(globals) {
                                Err(e) => Err(e),
                                Ok(settings) => match spec_text(d, p4, settings.text_encoding) {
                                    Err(e) => Err(e),
                                    Ok((model_local_name, p5)) => match spec_text(
                                        d,
                                        p5,
                                        settings.text_encoding,
                                    ) {
                                        Err(e) => Err(e),
                                        Ok((model_universal_name, p6)) => match spec_text(
                                            d,
                                            p6,
                                            settings.text_encoding,
                                        ) {
                                            Err(e) => Err(e),
                                            Ok((local_comments, p7)) => match spec_text(
                                                d,
                                                p7,
                                                settings.text_encoding,
                                            ) {
                                                Err(e) => Err(e),
                                                Ok((universal_comments, p8)) => Ok(
                                                    (
                                                        HeaderView {
                                                            version,
                                                            settings,
                                                            model_local_name,
                                                            model_universal_name,
                                                            local_comments,
                                                            universal_comments,
                                                        },
                                                        p8,
                                                    ),
                                                ),
                                            },
                                        },
                                    },
                                },
                            },
                        }
                    },
                },
            }
        },
    }
}

/// Validates the magic signature and global settings, decodes the version
/// and the four model text fields, and retains the still-open byte buffer
/// for the vertex reader.
pub struct HeaderReader {
    /// The format version's four-byte float, as its raw bit pattern.
    pub version: u32,
    pub settings: Settings,
    pub model_local_name: String,
    pub model_universal_name: String,
    pub local_comments: String,
    pub universal_comments: String,
    pub cursor: ByteCursor,
}

impl HeaderReader {
    /// Decode the header at the start of `data`.
    pub fn new(data: Vec<u8>) -> (r: Result<HeaderReader, Error>)
        ensures
            match spec_header(data@) {
                Ok((h, p)) => r matches Ok(hr) && hr.version == h.version && hr.settings
                    == h.settings && hr.model_local_name@ == h.model_local_name
                    && hr.model_universal_name@ == h.model_universal_name && hr.local_comments@
                    == h.local_comments && hr.universal_comments@ == h.universal_comments
                    && hr.cursor.data == data && hr.cursor.pos as int == p,
                Err(e) => r matches Err(er) && er@ == e,
            },
    {
        let mut cursor = ByteCursor::new(data);
        let magic = match cursor.read_bytes(4) {
            Ok(m) => m,
            Err(e) => return Err(e),
        };
        if !(magic[0] == 0x50 && magic[1] == 0x4D && magic[2] == 0x58 && magic[3] == 0x20) {
            let found: [u8; 4] = [magic[0], magic[1], magic[2], magic[3]];
            proof {
                assert(found@ =~= magic@);
            }
            return Err(Error::WrongSignature(found));
        }
        proof {
            assert(magic@ =~= spec_magic());
        }
        let version = match cursor.read_u32() {
            Ok(v) => v,
            Err(e) => return Err(e),
        };
        let globals_count = match cursor.read_u8() {
            Ok(v) => v,
            Err(e) => return Err(e),
        };
        if globals_count < 8 {
            return Err(Error::GlobalsCountLessThan8(globals_count));
        }
        let globals = match cursor.read_bytes(globals_count as usize) {
            Ok(g) => g,
            Err(e) => return Err(e),
        };
        let text_encoding = match TextEncoding::from_byte(globals[0]) {
            Ok(t) => t,
            Err(e) => return Err(e),
        };
        let additional_vec4_count = globals[1];
        let vertex_index_size = match IndexSize::from_byte(globals[2]) {
            Ok(t) => t,
            Err(e) => return Err(e),
        };
        let texture_index_size = match IndexSize::from_byte(globals[3]) {
            Ok(t) => t,
            Err(e) => return Err(e),
        };
        let material_index_size = match IndexSize::from_byte(globals[4]) {
            Ok(t) => t,
            Err(e) => return Err(e),
        };
        let bone_index_size = match IndexSize::from_byte(globals[5]) {
            Ok(t) => t,
            Err(e) => return Err(e),
        };
        let morph_index_size = match IndexSize::from_byte(globals[6]) {
            Ok(t) => t,
            Err(e) => return Err(e),
        };
        let rigidbody_index_size = match IndexSize::from_byte(globals[7]) {
            Ok(t) => t,
            Err(e) => return Err(e),
        };
        let settings = Settings {
            text_encoding,
            additional_vec4_count,
            vertex_index_size,
            texture_index_size,
            material_index_size,
            bone_index_size,
            morph_index_size,
            rigidbody_index_size,
        };
        let model_local_name = match cursor.read_text(settings.text_encoding) {
            Ok(t) => t,
            Err(e) => return Err(e),
        };
        let model_universal_name = match cursor.read_text(settings.text_encoding) {
            Ok(t) => t,
            Err(e) => return Err(e),
        };
        let local_comments = match cursor.read_text(settings.text_encoding) {
            Ok(t) => t,
            Err(e) => return Err(e),
        };
        let universal_comments = match cursor.read_text(settings.text_encoding) {
            Ok(t) => t,
            Err(e) => return Err(e),
        };
        Ok(
            HeaderReader {
                version,
                settings,
                model_local_name,
                model_universal_name,
                local_comments,
                universal_comments,
                cursor,
            },
        )
    }
}

} // verus!
