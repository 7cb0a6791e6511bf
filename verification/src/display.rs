//! The display-frame record: UI groupings of bone and morph references.

use vstd::prelude::*;

use crate::error::ErrorView;
use crate::parse::{spec_records, spec_u32, spec_u8};
use crate::settings::Settings;
use crate::text::spec_text;
use crate::types::spec_index;

verus! {

/// One reference inside a display frame: a bone or a morph, selected by a
/// discriminant byte.
#[derive(Copy, Clone, Debug, PartialEq, Eq)]
pub enum Frame {
    Bone(i32),
    Morph(i32),
}

/// One frame reference at `pos`: byte 0 selects a bone index, byte 1 a
/// morph index; anything else is an invalid-frame-type error carrying the
/// byte.
pub open spec fn spec_frame(d: Seq<u8>, pos: int, s: Settings) -> Result<(Frame, int), ErrorView> {
    match spec_u8(d, pos) {
        Err(e) => Err(e),
        Ok((t, p)) => if t == 0 {
            match spec_index(d, p, s.bone_index_size) {
                Err(e) => Err(e),
                Ok((i, p1)) => Ok((Frame::Bone(i), p1)),
            }
        } else if t == 1 {
            match spec_index(d, p, s.morph_index_size) {
                Err(e) => Err(e),
                Ok((i, p1)) => Ok((Frame::Morph(i), p1)),
            }
        } else {
            Err(ErrorView::InvalidFrameType(t))
        },
    }
}

/// The step that parses one frame reference.
pub open spec fn frame_step(d: Seq<u8>, s: Settings) -> spec_fn(int) -> Result<
    (Frame, int),
    ErrorView,
> {
    |pos: int| spec_frame(d, pos, s)
}

/// One display frame: names, the special flag, and the count-prefixed
/// list of bone and morph references it groups.
#[derive(Clone, Debug, PartialEq)]
pub struct DisplayFrame {
    pub local_name: String,
    pub universal_name: String,
    pub special_flag: bool,
    pub frames: Vec<Frame>,
}

/// The mathematical shape of a `DisplayFrame`.
pub struct DisplayFrameView {
    pub local_name: Seq<char>,
    pub universal_name: Seq<char>,
    pub special_flag: bool,
    pub frames: Seq<Frame>,
}

impl View for DisplayFrame {
    type V = DisplayFrameView;

    open spec fn view(&self) -> DisplayFrameView {
        DisplayFrameView {
            local_name: self.local_name@,
            universal_name: self.universal_name@,
            special_flag: self.special_flag,
            frames: self.frames@,
        }
    }
}

/// One display-frame record at `pos`: names, the special-flag byte
/// (non-zero means special), then the count-prefixed frame references.
#[verifier::opaque]
pub open spec fn spec_display(d: Seq<u8>, pos: int, s: Settings) -> Result<
    (DisplayFrameView, int),
    ErrorView,
> {
    match spec_text(d, pos, s.text_encoding) {
        Err(e) => Err(e),
        Ok((local_name, p1)) => match spec_text(d, p1, s.text_encoding) {
            Err(e) => Err(e),
            Ok((universal_name, p2)) => match spec_u8(d, p2) {
                Err(e) => Err(e),
                Ok((sf, p3)) => match spec_u32(d, p3) {
                    Err(e) => Err(e),
                    Ok((frame_count, p4)) => match spec_records(
                        frame_step(d, s),
                        p4,
                        frame_count as int,
                    ) {
                        Err(e) => Err(e),
                        Ok((frames, p5)) => Ok(
                            (
                                DisplayFrameView {
                                    local_name,
                                    universal_name,
                                    special_flag: sf != 0,
                                    frames,
                                },
                                p5,
                            ),
                        ),
                    },
                },
            },
        },
    }
}

/// The per-record step of the display section.
pub open spec fn display_step(d: Seq<u8>, s: Settings) -> spec_fn(int) -> Result<
    (DisplayFrameView, int),
    ErrorView,
> {
    |pos: int| spec_display(d, pos, s)
}

} // verus!
