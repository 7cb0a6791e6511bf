//! The global decode settings, parsed once from the header globals and
//! copied into every downstream section reader.

use vstd::prelude::*;

use crate::error::ErrorView;
use crate::types::{spec_index_size, spec_text_encoding, IndexSize, TextEncoding};

verus! {

/// Global header-level settings: the text encoding, the number of
/// additional per-vertex four-float channels, and the six index
/// byte-widths. Immutable after the header parse.
#[derive(Copy, Clone, Debug, PartialEq, Eq)]
pub struct Settings {
    pub text_encoding: TextEncoding,
    pub additional_vec4_count: u8,
    pub vertex_index_size: IndexSize,
    pub texture_index_size: IndexSize,
    pub material_index_size: IndexSize,
    pub bone_index_size: IndexSize,
    pub morph_index_size: IndexSize,
    pub rigidbody_index_size: IndexSize,
}

/// The settings carried by the first eight global bytes, checked in the
/// order the header parser interprets them: the text encoding first, then
/// the six index widths in the fixed order vertex, texture, material,
/// bone, morph, rigid body. The first bad byte decides the error.
pub open spec fn spec_settings(g: Seq<u8>) -> Result<Settings, ErrorView>
    recommends
        g.len() >= 8,
{
    match spec_text_encoding(g[0]) {
        Err(e) => Err(e),
        Ok(text_encoding) => match spec_index_size(g[2]) {
            Err(e) => Err(e),
            Ok(vertex_index_size) => match spec_index_size(g[3]) {
                Err(e) => Err(e),
                Ok(texture_index_size) => match spec_index_size(g[4]) {
                    Err(e) => Err(e),
                    Ok(material_index_size) => match spec_index_size(g[5]) {
                        Err(e) => Err(e),
                        Ok(bone_index_size) => match spec_index_size(g[6]) {
                            Err(e) => Err(e),
                            Ok(morph_index_size) => match spec_index_size(g[7]) {
                                Err(e) => Err(e),
                                Ok(rigidbody_index_size) => Ok(
                                    Settings {
                                        text_encoding,
                                        additional_vec4_count: g[1],
                                        vertex_index_size,
                                        texture_index_size,
                                        material_index_size,
                                        bone_index_size,
                                        morph_index_size,
                                        rigidbody_index_size,
                                    },
                                ),
                            },
                        },
                    },
                },
            },
        },
    }
}

} // verus!
