//! Global header-level types: text encoding, index byte-widths, the float
//! vector records, and the integer types that decoded indices narrow into.

use vstd::prelude::*;

use crate::error::{Error, ErrorView};
use crate::parse::{spec_i32, spec_u16, spec_u32, spec_u8};

verus! {

/// The character encoding of every string of the stream, fixed by the
/// header's first global byte.
#[derive(Copy, Clone, Debug, PartialEq, Eq, Hash)]
pub enum TextEncoding {
    UTF16LE,
    UTF8,
}

/// The meaning of the header's text-encoding global byte: 0 is UTF-16LE,
/// 1 is UTF-8, anything else is rejected.
pub open spec fn spec_text_encoding(value: u8) -> Result<TextEncoding, ErrorView> {
    if value == 0 {
        Ok(TextEncoding::UTF16LE)
    } else if value == 1 {
        Ok(TextEncoding::UTF8)
    } else {
        Err(ErrorView::UnknownTextEncoding(value))
    }
}

impl TextEncoding {
    /// Decode the header's text-encoding global byte.
    pub fn from_byte(value: u8) -> (r: Result<TextEncoding, Error>)
        ensures
            match spec_text_encoding(value) {
                Ok(t) => r == Ok::<TextEncoding, Error>(t),
                Err(e) => r matches Err(er) && er@ == e,
            },
    {
        match value {
            0 => Ok(TextEncoding::UTF16LE),
            1 => Ok(TextEncoding::UTF8),
            e => Err(Error::UnknownTextEncoding(e)),
        }
    }
}

/// The number of on-disk bytes of one index field, fixed per index kind by
/// the header globals.
#[derive(Copy, Clone, Debug, PartialEq, Eq, Hash)]
pub enum IndexSize {
    I8,
    I16,
    I32,
}

/// The meaning of an index byte-width global: the byte is the width itself
/// and must be 1, 2 or 4.
pub open spec fn spec_index_size(value: u8) -> Result<IndexSize, ErrorView> {
    if value == 1 {
        Ok(IndexSize::I8)
    } else if value == 2 {
        Ok(IndexSize::I16)
    } else if value == 4 {
        Ok(IndexSize::I32)
    } else {
        Err(ErrorView::UnknownIndexSize(value))
    }
}

impl IndexSize {
    /// The number of bytes one index of this width occupies on disk.
    pub open spec fn width(self) -> int {
        match self {
            IndexSize::I8 => 1,
            IndexSize::I16 => 2,
            IndexSize::I32 => 4,
        }
    }

    /// Decode one of the header's index byte-width global bytes.
    pub fn from_byte(value: u8) -> (r: Result<IndexSize, Error>)
        ensures
            match spec_index_size(value) {
                Ok(t) => r == Ok::<IndexSize, Error>(t),
                Err(e) => r matches Err(er) && er@ == e,
            },
    {
        match value {
            1 => Ok(IndexSize::I8),
            2 => Ok(IndexSize::I16),
            4 => Ok(IndexSize::I32),
            e => Err(Error::UnknownIndexSize(e)),
        }
    }
}

/// Two float fields, as raw little-endian IEEE-754 bit patterns.
#[derive(Copy, Clone, Debug, PartialEq, Eq)]
pub struct Vec2 {
    pub x: u32,
    pub y: u32,
}

/// Three float fields, as raw little-endian IEEE-754 bit patterns.
#[derive(Copy, Clone, Debug, PartialEq, Eq)]
pub struct Vec3 {
    pub x: u32,
    pub y: u32,
    pub z: u32,
}

/// Four float fields, as raw little-endian IEEE-754 bit patterns.
#[derive(Copy, Clone, Debug, PartialEq, Eq)]
pub struct Vec4 {
    pub x: u32,
    pub y: u32,
    pub z: u32,
    pub w: u32,
}

/// Two consecutive 32-bit float fields at `pos`.
pub open spec fn spec_vec2(d: Seq<u8>, pos: int) -> Result<(Vec2, int), ErrorView> {
    match spec_u32(d, pos) {
        Ok((x, p)) => match spec_u32(d, p) {
            Ok((y, p2)) => Ok((Vec2 { x, y }, p2)),
            Err(e) => Err(e),
        },
        Err(e) => Err(e),
    }
}

/// Three consecutive 32-bit float fields at `pos`.
pub open spec fn spec_vec3(d: Seq<u8>, pos: int) -> Result<(Vec3, int), ErrorView> {
    match spec_u32(d, pos) {
        Ok((x, p)) => match spec_u32(d, p) {
            Ok((y, p2)) => match spec_u32(d, p2) {
                Ok((z, p3)) => Ok((Vec3 { x, y, z }, p3)),
                Err(e) => Err(e),
            },
            Err(e) => Err(e),
        },
        Err(e) => Err(e),
    }
}

/// Four consecutive 32-bit float fields at `pos`.
pub open spec fn spec_vec4(d: Seq<u8>, pos: int) -> Result<(Vec4, int), ErrorView> {
    match spec_u32(d, pos) {
        Ok((x, p)) => match spec_u32(d, p) {
            Ok((y, p2)) => match spec_u32(d, p2) {
                Ok((z, p3)) => match spec_u32(d, p3) {
                    Ok((w, p4)) => Ok((Vec4 { x, y, z, w }, p4)),
                    Err(e) => Err(e),
                },
                Err(e) => Err(e),
            },
            Err(e) => Err(e),
        },
        Err(e) => Err(e),
    }
}

/// An integer type that a signed-sourced index (texture, material, bone,
/// morph, rigid-body) narrows into after decoding.
pub trait Index: Sized {
    /// Smallest value the type can hold.
    spec fn min_spec() -> int;

    /// Largest value the type can hold.
    spec fn max_spec() -> int;

    /// The mathematical value held.
    spec fn as_int(&self) -> int;

    /// Narrow a fully decoded index value into this type; a value outside
    /// the type's range is an overflow error carrying that value.
    fn narrow(v: i32) -> (r: Result<Self, Error>)
        ensures
            match r {
                Ok(x) => Self::min_spec() <= v as int && v as int <= Self::max_spec()
                    && x.as_int() == v as int,
                Err(e) => !(Self::min_spec() <= v as int && v as int <= Self::max_spec()) && e
                    == Error::IndexOverflow(v as i64),
            },
    ;
}

/// An integer type that the unsigned-sourced vertex index narrows into
/// after decoding.
pub trait VertexIndex: Sized {
    /// Smallest value the type can hold.
    spec fn min_spec() -> int;

    /// Largest value the type can hold.
    spec fn max_spec() -> int;

    /// The mathematical value held.
    spec fn as_int(&self) -> int;

    /// Narrow a fully decoded vertex-index value into this type; a value
    /// outside the type's range is an overflow error carrying that value.
    fn narrow(v: i32) -> (r: Result<Self, Error>)
        ensures
            match r {
                Ok(x) => Self::min_spec() <= v as int && v as int <= Self::max_spec()
                    && x.as_int() == v as int,
                Err(e) => !(Self::min_spec() <= v as int && v as int <= Self::max_spec()) && e
                    == Error::IndexOverflow(v as i64),
            },
    ;
}

impl Index for i32 {
    open spec fn min_spec() -> int {
        -0x8000_0000
    }

    open spec fn max_spec() -> int {
        0x7FFF_FFFF
    }

    open spec fn as_int(&self) -> int {
        *self as int
    }

    fn narrow(v: i32) -> (r: Result<i32, Error>) {
        Ok(v)
    }
}

impl Index for i16 {
    open spec fn min_spec() -> int {
        -0x8000
    }

    open spec fn max_spec() -> int {
        0x7FFF
    }

    open spec fn as_int(&self) -> int {
        *self as int
    }

    fn narrow(v: i32) -> (r: Result<i16, Error>) {
        if -0x8000 <= v && v <= 0x7FFF {
            Ok(v as i16)
        } else {
            Err(Error::IndexOverflow(v as i64))
        }
    }
}

impl Index for i8 {
    open spec fn min_spec() -> int {
        -0x80
    }

    open spec fn max_spec() -> int {
        0x7F
    }

    open spec fn as_int(&self) -> int {
        *self as int
    }

    fn narrow(v: i32) -> (r: Result<i8, Error>) {
        if -0x80 <= v && v <= 0x7F {
            Ok(v as i8)
        } else {
            Err(Error::IndexOverflow(v as i64))
        }
    }
}

impl VertexIndex for i32 {
    open spec fn min_spec() -> int {
        -0x8000_0000
    }

    open spec fn max_spec() -> int {
        0x7FFF_FFFF
    }

    open spec fn as_int(&self) -> int {
        *self as int
    }

    fn narrow(v: i32) -> (r: Result<i32, Error>) {
        Ok(v)
    }
}

impl VertexIndex for u32 {
    open spec fn min_spec() -> int {
        0
    }

    open spec fn max_spec() -> int {
        0xFFFF_FFFF
    }

    open spec fn as_int(&self) -> int {
        *self as int
    }

    fn narrow(v: i32) -> (r: Result<u32, Error>) {
        if 0 <= v {
            Ok(v as u32)
        } else {
            Err(Error::IndexOverflow(v as i64))
        }
    }
}

impl VertexIndex for u16 {
    open spec fn min_spec() -> int {
        0
    }

    open spec fn max_spec() -> int {
        0xFFFF
    }

    open spec fn as_int(&self) -> int {
        *self as int
    }

    fn narrow(v: i32) -> (r: Result<u16, Error>) {
        if 0 <= v && v <= 0xFFFF {
            Ok(v as u16)
        } else {
            Err(Error::IndexOverflow(v as i64))
        }
    }
}

impl VertexIndex for u8 {
    open spec fn min_spec() -> int {
        0
    }

    open spec fn max_spec() -> int {
        0xFF
    }

    open spec fn as_int(&self) -> int {
        *self as int
    }

    fn narrow(v: i32) -> (r: Result<u8, Error>) {
        if 0 <= v && v <= 0xFF {
            Ok(v as u8)
        } else {
            Err(Error::IndexOverflow(v as i64))
        }
    }
}

/// A signed-sourced index field at `pos`: 1 and 2 byte widths are read and
/// sign-extended, the 4 byte width is read as a signed 32-bit value.
pub open spec fn spec_index(d: Seq<u8>, pos: int, size: IndexSize) -> Result<
    (i32, int),
    ErrorView,
> {
    match size {
        IndexSize::I8 => match spec_u8(d, pos) {
            Ok((b, p)) => Ok((((b as i8) as i32), p)),
            Err(e) => Err(e),
        },
        IndexSize::I16 => match spec_u16(d, pos) {
            Ok((u, p)) => Ok((((u as i16) as i32), p)),
            Err(e) => Err(e),
        },
        IndexSize::I32 => spec_i32(d, pos),
    }
}

/// The vertex-index field at `pos`: 1 and 2 byte widths are read and
/// zero-extended, the 4 byte width is read as a signed 32-bit value.
pub open spec fn spec_vertex_index(d: Seq<u8>, pos: int, size: IndexSize) -> Result<
    (i32, int),
    ErrorView,
> {
    match size {
        IndexSize::I8 => match spec_u8(d, pos) {
            Ok((b, p)) => Ok(((b as i32), p)),
            Err(e) => Err(e),
        },
        IndexSize::I16 => match spec_u16(d, pos) {
            Ok((u, p)) => Ok(((u as i32), p)),
            Err(e) => Err(e),
        },
        IndexSize::I32 => spec_i32(d, pos),
    }
}

/// Whether a signed-sourced index value fits the given on-disk width.
pub open spec fn index_in_range(v: i32, size: IndexSize) -> bool {
    match size {
        IndexSize::I8 => -0x80 <= v as int && v as int <= 0x7F,
        IndexSize::I16 => -0x8000 <= v as int && v as int <= 0x7FFF,
        IndexSize::I32 => true,
    }
}

/// Whether a vertex-index value fits the given on-disk width.
pub open spec fn vertex_index_in_range(v: i32, size: IndexSize) -> bool {
    match size {
        IndexSize::I8 => 0 <= v as int && v as int <= 0xFF,
        IndexSize::I16 => 0 <= v as int && v as int <= 0xFFFF,
        IndexSize::I32 => true,
    }
}

/// The on-disk little-endian encoding of an index value at the given
/// width (the value's low `width` bytes).
pub open spec fn index_bytes(v: i32, size: IndexSize) -> Seq<u8> {
    match size {
        IndexSize::I8 => seq![v as u8],
        IndexSize::I16 => seq![v as u8, (((v as u32) / 0x100) as u8)],
        IndexSize::I32 => seq![
            v as u8,
            (((v as u32) / 0x100) as u8),
            (((v as u32) / 0x10000) as u8),
            (((v as u32) / 0x1000000) as u8),
        ],
    }
}

/// Decoding a signed-sourced index written with width `size` and in-range
/// value `v` yields exactly `v` again.
pub proof fn lemma_index_round_trip(d: Seq<u8>, pos: int, v: i32, size: IndexSize)
    requires
        index_in_range(v, size),
        0 <= pos,
        pos + size.width() <= d.len(),
        d.subrange(pos, pos + size.width()) == index_bytes(v, size),
    ensures
        spec_index(d, pos, size) == Ok::<(i32, int), ErrorView>((v, pos + size.width())),
{
    match size {
        IndexSize::I8 => {
            let b = d[pos];
            assert(b == index_bytes(v, size)[0]);
            assert((b as i8) as i32 == v) by (bit_vector)
                requires
                    b == v as u8,
                    -0x80 <= v && v <= 0x7F,
            ;
        },
        IndexSize::I16 => {
            let b0 = d[pos];
            let b1 = d[pos + 1];
            assert(b0 == index_bytes(v, size)[0] && b1 == index_bytes(v, size)[1]);
            let u = crate::parse::le_u16(b0, b1);
            assert(u == (b0 as u16) + (b1 as u16) * 0x100);
            assert((u as i16) as i32 == v) by (bit_vector)
                requires
                    u == (b0 as u16) + (b1 as u16) * 0x100,
                    b0 == v as u8,
                    b1 == ((v as u32) / 0x100) as u8,
                    -0x8000 <= v && v <= 0x7FFF,
            ;
        },
        IndexSize::I32 => {
            let b0 = d[pos];
            let b1 = d[pos + 1];
            let b2 = d[pos + 2];
            let b3 = d[pos + 3];
            assert(b0 == index_bytes(v, size)[0] && b1 == index_bytes(v, size)[1] && b2
                == index_bytes(v, size)[2] && b3 == index_bytes(v, size)[3]);
            let u = crate::parse::le_u32(b0, b1, b2, b3);
            assert(u == (b0 as u32) + (b1 as u32) * 0x100 + (b2 as u32) * 0x10000 + (b3 as u32)
                * 0x1000000);
            assert(u as i32 == v) by (bit_vector)
                requires
                    u == (b0 as u32) + (b1 as u32) * 0x100 + (b2 as u32) * 0x10000 + (b3 as u32)
                        * 0x1000000,
                    b0 == v as u8,
                    b1 == ((v as u32) / 0x100) as u8,
                    b2 == ((v as u32) / 0x10000) as u8,
                    b3 == ((v as u32) / 0x1000000) as u8,
            ;
        },
    }
}

/// Decoding a vertex index written with width `size` and in-range value
/// `v` yields exactly `v` again.
pub proof fn lemma_vertex_index_round_trip(d: Seq<u8>, pos: int, v: i32, size: IndexSize)
    requires
        vertex_index_in_range(v, size),
        0 <= pos,
        pos + size.width() <= d.len(),
        d.subrange(pos, pos + size.width()) == index_bytes(v, size),
    ensures
        spec_vertex_index(d, pos, size) == Ok::<(i32, int), ErrorView>((v, pos + size.width())),
{
    match size {
        IndexSize::I8 => {
            let b = d[pos];
            assert(b == index_bytes(v, size)[0]);
            assert(b as i32 == v) by (bit_vector)
                requires
                    b == v as u8,
                    0 <= v && v <= 0xFF,
            ;
        },
        IndexSize::I16 => {
            let b0 = d[pos];
            let b1 = d[pos + 1];
            assert(b0 == index_bytes(v, size)[0] && b1 == index_bytes(v, size)[1]);
            let u = crate::parse::le_u16(b0, b1);
            assert(u == (b0 as u16) + (b1 as u16) * 0x100);
            assert(u as i32 == v) by (bit_vector)
                requires
                    u == (b0 as u16) + (b1 as u16) * 0x100,
                    b0 == v as u8,
                    b1 == ((v as u32) / 0x100) as u8,
                    0 <= v && v <= 0xFFFF,
            ;
        },
        IndexSize::I32 => {
            let b0 = d[pos];
            let b1 = d[pos + 1];
            let b2 = d[pos + 2];
            let b3 = d[pos + 3];
            assert(b0 == index_bytes(v, size)[0] && b1 == index_bytes(v, size)[1] && b2
                == index_bytes(v, size)[2] && b3 == index_bytes(v, size)[3]);
            let u = crate::parse::le_u32(b0, b1, b2, b3);
            assert(u == (b0 as u32) + (b1 as u32) * 0x100 + (b2 as u32) * 0x10000 + (b3 as u32)
                * 0x1000000);
            assert(u as i32 == v) by (bit_vector)
                requires
                    u == (b0 as u32) + (b1 as u32) * 0x100 + (b2 as u32) * 0x10000 + (b3 as u32)
                        * 0x1000000,
                    b0 == v as u8,
                    b1 == ((v as u32) / 0x100) as u8,
                    b2 == ((v as u32) / 0x10000) as u8,
                    b3 == ((v as u32) / 0x1000000) as u8,
            ;
        },
    }
}

} // verus!
