//! The forward-only byte cursor that all section readers share.
//!
//! Every read either yields exactly what the corresponding spec parser
//! yields at the cursor's position and advances past it, or reports the
//! same error the spec parser reports and (for primitive reads) leaves the
//! cursor unchanged.

use vstd::prelude::*;

use crate::error::{Error, ErrorView};
use crate::parse::{spec_bytes, spec_i32, spec_u16, spec_u32, spec_u8};
use crate::text::{decode_utf16le, decode_utf8, spec_text};
use crate::types::{
    spec_index, spec_vec2, spec_vec3, spec_vec4, spec_vertex_index, Index, IndexSize, TextEncoding,
    Vec2, Vec3, Vec4, VertexIndex,
};

verus! {

/// A position in an in-memory byte buffer. Reads only ever move the
/// position forward; they never change the buffer.
pub struct ByteCursor {
    pub data: Vec<u8>,
    pub pos: usize,
}

impl ByteCursor {
    /// A cursor at the start of the given buffer.
    pub fn new(data: Vec<u8>) -> (c: ByteCursor)
        ensures
            c.data == data,
            c.pos == 0,
    {
        ByteCursor { data, pos: 0 }
    }

    /// Read one byte.
    pub fn read_u8(&mut self) -> (r: Result<u8, Error>)
        ensures
            final(self).data == old(self).data,
            match spec_u8(old(self).data@, old(self).pos as int) {
                Ok((v, p)) => r == Ok::<u8, Error>(v) && final(self).pos as int == p,
                Err(e) => r matches Err(er) && er@ == e && *final(self) == *old(self),
            },
    {
        if self.pos < self.data.len() {
            let b = self.data[self.pos];
            self.pos = self.pos + 1;
            Ok(b)
        } else {
            Err(Error::UnexpectedEof)
        }
    }

    /// Read a little-endian unsigned 16-bit field.
    pub fn read_u16(&mut self) -> (r: Result<u16, Error>)
        ensures
            final(self).data == old(self).data,
            match spec_u16(old(self).data@, old(self).pos as int) {
                Ok((v, p)) => r == Ok::<u16, Error>(v) && final(self).pos as int == p,
                Err(e) => r matches Err(er) && er@ == e && *final(self) == *old(self),
            },
    {
        if self.data.len() >= 2 && self.pos <= self.data.len() - 2 {
            let b0 = self.data[self.pos] as u16;
            let b1 = self.data[self.pos + 1] as u16;
            self.pos = self.pos + 2;
            Ok(b0 + b1 * 0x100)
        } else {
            Err(Error::UnexpectedEof)
        }
    }

    /// Read a little-endian unsigned 32-bit field (also used for the raw
    /// bit pattern of a 32-bit float field).
    pub fn read_u32(&mut self) -> (r: Result<u32, Error>)
        ensures
            final(self).data == old(self).data,
            match spec_u32(old(self).data@, old(self).pos as int) {
                Ok((v, p)) => r == Ok::<u32, Error>(v) && final(self).pos as int == p,
                Err(e) => r matches Err(er) && er@ == e && *final(self) == *old(self),
            },
    {
        if self.data.len() >= 4 && self.pos <= self.data.len() - 4 {
            let b0 = self.data[self.pos] as u32;
            let b1 = self.data[self.pos + 1] as u32;
            let b2 = self.data[self.pos + 2] as u32;
            let b3 = self.data[self.pos + 3] as u32;
            self.pos = self.pos + 4;
            Ok(b0 + b1 * 0x100 + b2 * 0x10000 + b3 * 0x1000000)
        } else {
            Err(Error::UnexpectedEof)
        }
    }

    /// Read a little-endian signed 32-bit field.
    pub fn read_i32(&mut self) -> (r: Result<i32, Error>)
        ensures
            final(self).data == old(self).data,
            match spec_i32(old(self).data@, old(self).pos as int) {
                Ok((v, p)) => r == Ok::<i32, Error>(v) && final(self).pos as int == p,
                Err(e) => r matches Err(er) && er@ == e && *final(self) == *old(self),
            },
    {
        match self.read_u32() {
            Ok(u) => Ok(u as i32),
            Err(e) => Err(e),
        }
    }

    /// Read `n` raw bytes.
    pub fn read_bytes(&mut self, n: usize) -> (r: Result<Vec<u8>, Error>)
        ensures
            final(self).data == old(self).data,
            match spec_bytes(old(self).data@, old(self).pos as int, n as int) {
                Ok((bs, p)) => r matches Ok(v) && v@ == bs && final(self).pos as int == p,
                Err(e) => r matches Err(er) && er@ == e && *final(self) == *old(self),
            },
    {
        if n <= self.data.len() && self.pos <= self.data.len() - n {
            let start = self.pos;
            let mut out: Vec<u8> = Vec::new();
            let mut i: usize = 0;
            while i < n
                invariant
                    i <= n,
                    start + n <= self.data.len(),
                    out@ =~= self.data@.subrange(start as int, start + i as int),
                decreases n - i,
            {
                out.push(self.data[start + i]);
                i = i + 1;
                assert(out@ =~= self.data@.subrange(start as int, start + i as int));
            }
            self.pos = start + n;
            Ok(out)
        } else {
            Err(Error::UnexpectedEof)
        }
    }

    /// Read one length-prefixed text field in the given encoding.
    pub fn read_text(&mut self, encoding: TextEncoding) -> (r: Result<String, Error>)
        ensures
            final(self).data == old(self).data,
            match spec_text(old(self).data@, old(self).pos as int, encoding) {
                Ok((cs, p)) => r matches Ok(s) && s@ == cs && final(self).pos as int == p,
                Err(e) => r matches Err(er) && er@ == e,
            },
    {
        let len = match self.read_i32() {
            Ok(v) => v,
            Err(e) => return Err(e),
        };
        if len < 0 {
            return Err(Error::UnexpectedEof);
        }
        let bytes = match self.read_bytes(len as usize) {
            Ok(b) => b,
            Err(e) => return Err(e),
        };
        let decoded = match encoding {
            TextEncoding::UTF8 => decode_utf8(bytes.as_slice()),
            TextEncoding::UTF16LE => decode_utf16le(bytes.as_slice()),
        };
        match decoded {
            Ok(s) => Ok(s),
            Err(m) => Err(Error::DecodeText(m)),
        }
    }

    /// Read a signed-sourced index field of the given width and narrow it
    /// into `I`.
    pub fn read_index<I: Index>(&mut self, size: IndexSize) -> (r: Result<I, Error>)
        ensures
            final(self).data == old(self).data,
            match spec_index(old(self).data@, old(self).pos as int, size) {
                Ok((v, p)) => final(self).pos as int == p && (match r {
                    Ok(x) => I::min_spec() <= v as int && v as int <= I::max_spec() && x.as_int()
                        == v as int,
                    Err(e) => !(I::min_spec() <= v as int && v as int <= I::max_spec()) && e@
                        == ErrorView::IndexOverflow(v as int),
                }),
                Err(e) => r matches Err(er) && er@ == e && *final(self) == *old(self),
            },
    {
        let v: i32 = match size {
            IndexSize::I8 => match self.read_u8() {
                Ok(b) => (b as i8) as i32,
                Err(e) => return Err(e),
            },
            IndexSize::I16 => match self.read_u16() {
                Ok(u) => (u as i16) as i32,
                Err(e) => return Err(e),
            },
            IndexSize::I32 => match self.read_i32() {
                Ok(v) => v,
                Err(e) => return Err(e),
            },
        };
        I::narrow(v)
    }

    /// Read the vertex-index field of the given width and narrow it into
    /// `I`.
    pub fn read_vertex_index<I: VertexIndex>(&mut self, size: IndexSize) -> (r: Result<I, Error>)
        ensures
            final(self).data == old(self).data,
            match spec_vertex_index(old(self).data@, old(self).pos as int, size) {
                Ok((v, p)) => final(self).pos as int == p && (match r {
                    Ok(x) => I::min_spec() <= v as int && v as int <= I::max_spec() && x.as_int()
                        == v as int,
                    Err(e) => !(I::min_spec() <= v as int && v as int <= I::max_spec()) && e@
                        == ErrorView::IndexOverflow(v as int),
                }),
                Err(e) => r matches Err(er) && er@ == e && *final(self) == *old(self),
            },
    {
        let v: i32 = match size {
            IndexSize::I8 => match self.read_u8() {
                Ok(b) => b as i32,
                Err(e) => return Err(e),
            },
            IndexSize::I16 => match self.read_u16() {
                Ok(u) => u as i32,
                Err(e) => return Err(e),
            },
            IndexSize::I32 => match self.read_i32() {
                Ok(v) => v,
                Err(e) => return Err(e),
            },
        };
        I::narrow(v)
    }

    /// Read a signed-sourced index field as `i32`, the widest target; the
    /// decoded value always fits, so this never reports an overflow.
    pub fn read_index_i32(&mut self, size: IndexSize) -> (r: Result<i32, Error>)
        ensures
            final(self).data == old(self).data,
            match spec_index(old(self).data@, old(self).pos as int, size) {
                Ok((v, p)) => r == Ok::<i32, Error>(v) && final(self).pos as int == p,
                Err(e) => r matches Err(er) && er@ == e && *final(self) == *old(self),
            },
    {
        match self.read_index::<i32>(size) {
            Ok(x) => Ok(x),
            Err(e) => Err(e),
        }
    }

    /// Read the vertex-index field as `i32`, the widest target; the
    /// decoded value always fits, so this never reports an overflow.
    pub fn read_vertex_index_i32(&mut self, size: IndexSize) -> (r: Result<i32, Error>)
        ensures
            final(self).data == old(self).data,
            match spec_vertex_index(old(self).data@, old(self).pos as int, size) {
                Ok((v, p)) => r == Ok::<i32, Error>(v) && final(self).pos as int == p,
                Err(e) => r matches Err(er) && er@ == e && *final(self) == *old(self),
            },
    {
        match self.read_vertex_index::<i32>(size) {
            Ok(x) => Ok(x),
            Err(e) => Err(e),
        }
    }

    /// Read two consecutive float fields as raw bit patterns.
    pub fn read_vec2(&mut self) -> (r: Result<Vec2, Error>)
        ensures
            final(self).data == old(self).data,
            match spec_vec2(old(self).data@, old(self).pos as int) {
                Ok((v, p)) => r == Ok::<Vec2, Error>(v) && final(self).pos as int == p,
                Err(e) => r matches Err(er) && er@ == e,
            },
    {
        let x = match self.read_u32() {
            Ok(v) => v,
            Err(e) => return Err(e),
        };
        let y = match self.read_u32() {
            Ok(v) => v,
            Err(e) => return Err(e),
        };
        Ok(Vec2 { x, y })
    }

    /// Read three consecutive float fields as raw bit patterns.
    pub fn read_vec3(&mut self) -> (r: Result<Vec3, Error>)
        ensures
            final(self).data == old(self).data,
            match spec_vec3(old(self).data@, old(self).pos as int) {
                Ok((v, p)) => r == Ok::<Vec3, Error>(v) && final(self).pos as int == p,
                Err(e) => r matches Err(er) && er@ == e,
            },
    {
        let x = match self.read_u32() {
            Ok(v) => v,
            Err(e) => return Err(e),
        };
        let y = match self.read_u32() {
            Ok(v) => v,
            Err(e) => return Err(e),
        };
        let z = match self.read_u32() {
            Ok(v) => v,
            Err(e) => return Err(e),
        };
        Ok(Vec3 { x, y, z })
    }

    /// Read four consecutive float fields as raw bit patterns.
    pub fn read_vec4(&mut self) -> (r: Result<Vec4, Error>)
        ensures
            final(self).data == old(self).data,
            match spec_vec4(old(self).data@, old(self).pos as int) {
                Ok((v, p)) => r == Ok::<Vec4, Error>(v) && final(self).pos as int == p,
                Err(e) => r matches Err(er) && er@ == e,
            },
    {
        let x = match self.read_u32() {
            Ok(v) => v,
            Err(e) => return Err(e),
        };
        let y = match self.read_u32() {
            Ok(v) => v,
            Err(e) => return Err(e),
        };
        let z = match self.read_u32() {
            Ok(v) => v,
            Err(e) => return Err(e),
        };
        let w = match self.read_u32() {
            Ok(v) => v,
            Err(e) => return Err(e),
        };
        Ok(Vec4 { x, y, z, w })
    }
}

} // verus!
