use vstd::prelude::*;

verus! {

/// A decode failure. All errors are terminal for the current decode chain:
/// the reader that produced one becomes poisoned and must not be used again.
#[derive(Debug, Clone, PartialEq)]
pub enum Error {
    /// The byte source ended before the current field was complete, or a
    /// length prefix was negative.
    UnexpectedEof,
    /// The four magic bytes at the start of the stream were wrong; carries
    /// the bytes actually found.
    WrongSignature([u8; 4]),
    /// The header declared fewer than the eight understood global bytes.
    GlobalsCountLessThan8(u8),
    /// An index byte-width global was not one of 1, 2 or 4.
    UnknownIndexSize(u8),
    /// The text-encoding global was not 0 (UTF-16LE) or 1 (UTF-8).
    UnknownTextEncoding(u8),
    /// Strict text decoding failed; carries the decoder's diagnostic.
    DecodeText(String),
    /// A weight-deform discriminant byte was 5 or more.
    UnknownWeightType(u8),
    /// A decoded index did not fit the requested output type; carries the
    /// out-of-range value.
    IndexOverflow(i64),
    /// An environment-blend-mode byte was 4 or more.
    InvalidEnvironmentBlendMode(u8),
    /// A toon-reference discriminant byte was 2 or more.
    InvalidToonReference(u8),
    /// A morph-offset discriminant byte was 11 or more.
    InvalidMorphType(u8),
    /// A material-offset method byte was 2 or more.
    InvalidMaterialOffsetMethod(u8),
    /// A display-frame discriminant byte was 2 or more.
    InvalidFrameType(u8),
    /// A rigid-body shape byte was 3 or more.
    InvalidShapeType(u8),
    /// A rigid-body physics-mode byte was 3 or more.
    InvalidPhysicsMode(u8),
    /// A joint-type byte was 6 or more.
    InvalidJointType(u8),
}

/// The mathematical shape of an `Error`: byte arrays and strings become
/// sequences, bounded integers become unbounded ones. The specification
/// parsers below describe failures in terms of this type.
pub enum ErrorView {
    UnexpectedEof,
    WrongSignature(Seq<u8>),
    GlobalsCountLessThan8(u8),
    UnknownIndexSize(u8),
    UnknownTextEncoding(u8),
    DecodeText(Seq<char>),
    UnknownWeightType(u8),
    IndexOverflow(int),
    InvalidEnvironmentBlendMode(u8),
    InvalidToonReference(u8),
    InvalidMorphType(u8),
    InvalidMaterialOffsetMethod(u8),
    InvalidFrameType(u8),
    InvalidShapeType(u8),
    InvalidPhysicsMode(u8),
    InvalidJointType(u8),
}

impl View for Error {
    type V = ErrorView;

    open spec fn view(&self) -> ErrorView {
        match self {
            Error::UnexpectedEof => ErrorView::UnexpectedEof,
            Error::WrongSignature(m) => ErrorView::WrongSignature(m@),
            Error::GlobalsCountLessThan8(n) => ErrorView::GlobalsCountLessThan8(*n),
            Error::UnknownIndexSize(n) => ErrorView::UnknownIndexSize(*n),
            Error::UnknownTextEncoding(n) => ErrorView::UnknownTextEncoding(*n),
            Error::DecodeText(s) => ErrorView::DecodeText(s@),
            Error::UnknownWeightType(n) => ErrorView::UnknownWeightType(*n),
            Error::IndexOverflow(v) => ErrorView::IndexOverflow(*v as int),
            Error::InvalidEnvironmentBlendMode(n) => ErrorView::InvalidEnvironmentBlendMode(*n),
            Error::InvalidToonReference(n) => ErrorView::InvalidToonReference(*n),
            Error::InvalidMorphType(n) => ErrorView::InvalidMorphType(*n),
            Error::InvalidMaterialOffsetMethod(n) => ErrorView::InvalidMaterialOffsetMethod(*n),
            Error::InvalidFrameType(n) => ErrorView::InvalidFrameType(*n),
            Error::InvalidShapeType(n) => ErrorView::InvalidShapeType(*n),
            Error::InvalidPhysicsMode(n) => ErrorView::InvalidPhysicsMode(*n),
            Error::InvalidJointType(n) => ErrorView::InvalidJointType(*n),
        }
    }
}

} // verus!
