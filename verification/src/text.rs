//! Strict text decoding.
//!
//! All strings of the format are length-prefixed byte runs in one of two
//! encodings fixed by the header. Decoding is strict: invalid code units
//! fail the decode, nothing is replaced.

use vstd::prelude::*;

use crate::error::ErrorView;
use crate::parse::spec_i32;
use crate::types::TextEncoding;

verus! {

/// What the strict UTF-8 decoder yields on `bytes`: the decoded characters,
/// or the decoder's diagnostic message. A function of the bytes alone.
pub uninterp spec fn utf8_decoded(bytes: Seq<u8>) -> Result<Seq<char>, Seq<char>>;

/// What the strict UTF-16LE decoder yields on `bytes`: the decoded
/// characters, or the decoder's diagnostic message. A function of the bytes
/// alone.
pub uninterp spec fn utf16le_decoded(bytes: Seq<u8>) -> Result<Seq<char>, Seq<char>>;

/// Relies on `encoding::all::UTF_8`'s `decode` with `DecoderTrap::Strict`:
/// a whole-slice strict decode whose result depends on the bytes alone.
#[verifier::external_body]
pub(crate) fn decode_utf8(bytes: &[u8]) -> (r: Result<String, String>)
    ensures
        match r {
            Ok(s) => utf8_decoded(bytes@) == Ok::<Seq<char>, Seq<char>>(s@),
            Err(m) => utf8_decoded(bytes@) == Err::<Seq<char>, Seq<char>>(m@),
        },
{
    encoding::Encoding::decode(encoding::all::UTF_8, bytes, encoding::DecoderTrap::Strict).map_err(
        |e| e.into_owned(),
    )
}

/// Relies on `encoding::all::UTF_16LE`'s `decode` with
/// `DecoderTrap::Strict`: a whole-slice strict decode whose result depends
/// on the bytes alone.
#[verifier::external_body]
pub(crate) fn decode_utf16le(bytes: &[u8]) -> (r: Result<String, String>)
    ensures
        match r {
            Ok(s) => utf16le_decoded(bytes@) == Ok::<Seq<char>, Seq<char>>(s@),
            Err(m) => utf16le_decoded(bytes@) == Err::<Seq<char>, Seq<char>>(m@),
        },
{
    encoding::Encoding::decode(encoding::all::UTF_16LE, bytes, encoding::DecoderTrap::Strict)
        .map_err(|e| e.into_owned())
}

/// A length-prefixed text field at `pos`: a four-byte signed length, that
/// many raw bytes, then a strict decode in the given encoding. A negative
/// length fails like a truncated stream; a failed decode carries the
/// decoder's diagnostic.
pub open spec fn spec_text(d: Seq<u8>, pos: int, enc: TextEncoding) -> Result<
    (Seq<char>, int),
    ErrorView,
> {
    match spec_i32(d, pos) {
        Err(e) => Err(e),
        Ok((len, p1)) => if len < 0 || p1 + len > d.len() {
            Err(ErrorView::UnexpectedEof)
        } else {
            let bytes = d.subrange(p1, p1 + len);
            match (match enc {
                TextEncoding::UTF8 => utf8_decoded(bytes),
                TextEncoding::UTF16LE => utf16le_decoded(bytes),
            }) {
                Ok(cs) => Ok((cs, p1 + len)),
                Err(m) => Err(ErrorView::DecodeText(m)),
            }
        },
    }
}

} // verus!
