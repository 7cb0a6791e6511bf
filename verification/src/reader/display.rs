//! The display section reader: UI display-frame groupings.

use vstd::prelude::*;

use crate::cursor::ByteCursor;
use crate::display::{
    display_step, frame_step, spec_display, spec_frame, DisplayFrame, DisplayFrameView, Frame,
};
use crate::error::{Error, ErrorView};
use crate::morph::{morph_step, spec_morph, MorphView};
use crate::parse::{lemma_spec_records_split, seq_views, spec_records};
use crate::reader::morph::MorphReader;
use crate::settings::Settings;

verus! {

/// Read one frame reference: a discriminant byte selecting a bone (0) or
/// a morph (1) index.
fn read_frame(cursor: &mut ByteCursor, settings: &Settings) -> (r: Result<Frame, Error>)
    ensures
        final(cursor).data == old(cursor).data,
        match spec_frame(old(cursor).data@, old(cursor).pos as int, *settings) {
            Ok((f, p)) => r == Ok::<Frame, Error>(f) && final(cursor).pos as int == p,
            Err(e) => r matches Err(er) && er@ == e,
        },
{
    let t = match cursor.read_u8() {
        Ok(v) => v,
        Err(e) => return Err(e),
    };
    match t {
        0 => match cursor.read_index_i32(settings.bone_index_size) {
            Ok(v) => Ok(Frame::Bone(v)),
            Err(e) => Err(e),
        },
        1 => match cursor.read_index_i32(settings.morph_index_size) {
            Ok(v) => Ok(Frame::Morph(v)),
            Err(e) => Err(e),
        },
        e => Err(Error::InvalidFrameType(e)),
    }
}

/// Read one count-prefixed run of frame references.
#[verifier::loop_isolation(false)]
#[verifier::rlimit(100)]
fn read_frames(cursor: &mut ByteCursor, settings: &Settings, n: u32) -> (r: Result<
    Vec<Frame>,
    Error,
>)
    ensures
        final(cursor).data == old(cursor).data,
        match spec_records(
            frame_step(old(cursor).data@, *settings),
            old(cursor).pos as int,
            n as int,
        ) {
            Ok((fs, p)) => r matches Ok(v) && v@ == fs && final(cursor).pos as int == p,
            Err(e) => r matches Err(er) && er@ == e,
        },
{
    let ghost d = cursor.data@;
    let ghost s = *settings;
    let ghost p0 = cursor.pos as int;
    let ghost step = frame_step(d, s);
    let ghost data0 = cursor.data;
    let mut frames: Vec<Frame> = Vec::new();
    let mut i: u32 = 0;
    while i < n
        invariant
            i <= n,
            cursor.data == data0,
            spec_records(step, p0, i as int) == Ok::<(Seq<Frame>, int), ErrorView>(
                (frames@, cursor.pos as int),
            ),
        decreases n - i,
    {
        let ghost pos_before = cursor.pos as int;
        let ghost frames_pre = frames@;
        let item = match read_frame(cursor, settings) {
            Ok(v) => v,
            Err(e) => {
                proof {
                    assert(step(pos_before) == spec_frame(d, pos_before, s));
                    lemma_spec_records_split(step, p0, i as int, n as int);
                }
                return Err(e);
            },
        };
        frames.push(item);
        i = i + 1;
        proof {
            assert(step(pos_before) == spec_frame(d, pos_before, s));
            assert(seq![item] + Seq::<Frame>::empty() =~= seq![item]);
            assert(spec_records(step, cursor.pos as int, 0) == Ok::<(Seq<Frame>, int), ErrorView>(
                (Seq::empty(), cursor.pos as int),
            ));
            assert(spec_records(step, pos_before, 1) == Ok::<(Seq<Frame>, int), ErrorView>(
                (seq![item], cursor.pos as int),
            ));
            lemma_spec_records_split(step, p0, i as int - 1, i as int);
            assert(frames@ =~= frames_pre + seq![item]);
        }
    }
    Ok(frames)
}

/// Decodes the display section.
pub struct DisplayReader {
    pub settings: Settings,
    pub count: i32,
    pub remaining: i32,
    pub cursor: ByteCursor,
    pub poison: bool,
}

impl DisplayReader {
    /// Consume the morph reader, drain its unread records, and read
    /// the display-frame section's four-byte signed count.
    #[verifier::loop_isolation(false)]
    #[verifier::rlimit(100)]
    pub fn new(q: MorphReader) -> (r: Result<DisplayReader, Error>)
        requires
            !q.poison,
        ensures
            match crate::parse::spec_open_section(
                morph_step(q.cursor.data@, q.settings),
                q.cursor.data@,
                q.cursor.pos as int,
                q.remaining as int,
            ) {
                Ok((c, p)) => r matches Ok(nr) && nr.settings == q.settings && nr.count == c
                    && nr.remaining == c && !nr.poison && nr.cursor.data == q.cursor.data
                    && nr.cursor.pos as int == p,
                Err(e) => r matches Err(er) && er@ == e,
            },
    {
        let mut q = q;
        let ghost d = q.cursor.data@;
        let ghost st = q.settings;
        let ghost step = morph_step(d, st);
        let ghost pos0 = q.cursor.pos as int;
        let ghost rem0 = q.remaining as int;
        let ghost data0 = q.cursor.data;
        while q.remaining > 0
            invariant
                !q.poison,
                q.settings == st,
                q.cursor.data == data0,
                (match spec_records(step, q.cursor.pos as int, q.remaining as int) {
                    Ok((vs, p)) => spec_records(step, pos0, rem0) matches Ok((vs0, p0)) && p0
                        == p,
                    Err(e) => spec_records(step, pos0, rem0) == Err::<
                        (Seq<MorphView>, int),
                        ErrorView,
                    >(e),
                }),
            decreases q.remaining,
        {
            let ghost pos_it = q.cursor.pos as int;
            match q.next() {
                Ok(_) => {
                    proof {
                        assert(step(pos_it) == spec_morph(d, pos_it, st));
                    }
                },
                Err(e) => {
                    proof {
                        assert(step(pos_it) == spec_morph(d, pos_it, st));
                    }
                    return Err(e);
                },
            }
        }
        let mut cursor = q.cursor;
        let count = match cursor.read_i32() {
            Ok(c) => c,
            Err(e) => return Err(e),
        };
        Ok(DisplayReader { settings: q.settings, count, remaining: count, cursor, poison: false })
    }

    /// Decode one display-frame record, or yield `None` once the section is
    /// exhausted. The first error poisons the reader.
    pub fn next(&mut self) -> (r: Result<Option<DisplayFrame>, Error>)
        requires
            !old(self).poison,
        ensures
            final(self).settings == old(self).settings,
            final(self).count == old(self).count,
            final(self).cursor.data == old(self).cursor.data,
            old(self).remaining <= 0 ==> r == Ok::<Option<DisplayFrame>, Error>(None) && *final(self)
                == *old(self),
            old(self).remaining > 0 ==> (match spec_display(
                old(self).cursor.data@,
                old(self).cursor.pos as int,
                old(self).settings,
            ) {
                Ok((v, p)) => r matches Ok(ov) && ov matches Some(x) && x@ == v
                    && final(self).cursor.pos as int == p
                    && final(self).remaining == old(self).remaining - 1
                    && !final(self).poison,
                Err(e) => r matches Err(er) && er@ == e && final(self).poison,
            }),
    {
        let r = self.next_impl();
        if r.is_err() {
            self.poison = true;
        }
        r
    }

    #[verifier::rlimit(100)]
    fn next_impl(&mut self) -> (r: Result<Option<DisplayFrame>, Error>)
        requires
            !old(self).poison,
        ensures
            final(self).settings == old(self).settings,
            final(self).count == old(self).count,
            final(self).cursor.data == old(self).cursor.data,
            final(self).poison == old(self).poison,
            old(self).remaining <= 0 ==> r == Ok::<Option<DisplayFrame>, Error>(None) && *final(self)
                == *old(self),
            old(self).remaining > 0 ==> (match spec_display(
                old(self).cursor.data@,
                old(self).cursor.pos as int,
                old(self).settings,
            ) {
                Ok((v, p)) => r matches Ok(ov) && ov matches Some(x) && x@ == v
                    && final(self).cursor.pos as int == p
                    && final(self).remaining == old(self).remaining - 1,
                Err(e) => r matches Err(er) && er@ == e,
            }),
    {
        proof {
            reveal(crate::display::spec_display);
        }
        if self.remaining <= 0 {
            return Ok(None);
        }
        self.remaining = self.remaining - 1;
        let local_name = match self.cursor.read_text(self.settings.text_encoding) {
            Ok(v) => v,
            Err(e) => return Err(e),
        };
        let universal_name = match self.cursor.read_text(self.settings.text_encoding) {
            Ok(v) => v,
            Err(e) => return Err(e),
        };
        let sf = match self.cursor.read_u8() {
            Ok(v) => v,
            Err(e) => return Err(e),
        };
        let frame_count = match self.cursor.read_u32() {
            Ok(v) => v,
            Err(e) => return Err(e),
        };
        let frames = match read_frames(&mut self.cursor, &self.settings, frame_count) {
            Ok(v) => v,
            Err(e) => return Err(e),
        };
        Ok(Some(DisplayFrame { local_name, universal_name, special_flag: sf != 0, frames }))
    }

    /// Decode all remaining display-frame records into a vector, stopping at the
    /// section end or at the first error.
    #[verifier::loop_isolation(false)]
    #[verifier::rlimit(100)]
    pub fn iter(&mut self) -> (r: Result<Vec<DisplayFrame>, Error>)
        requires
            !old(self).poison,
        ensures
            final(self).settings == old(self).settings,
            final(self).count == old(self).count,
            final(self).cursor.data == old(self).cursor.data,
            match spec_records(
                display_step(old(self).cursor.data@, old(self).settings),
                old(self).cursor.pos as int,
                old(self).remaining as int,
            ) {
                Ok((vs, p)) => r matches Ok(v) && seq_views(v@) == vs && final(self).cursor.pos
                    as int == p && final(self).remaining <= 0 && !final(self).poison,
                Err(e) => r matches Err(er) && er@ == e && final(self).poison,
            },
    {
        let ghost self0 = *self;
        let ghost d = self.cursor.data@;
        let ghost step = display_step(d, self0.settings);
        let ghost pos0 = self.cursor.pos as int;
        let ghost rem0 = self.remaining as int;
        let mut out: Vec<DisplayFrame> = Vec::new();
        while self.remaining > 0
            invariant
                !self.poison,
                self.settings == self0.settings,
                self.count == self0.count,
                self.cursor.data == self0.cursor.data,
                (match spec_records(step, self.cursor.pos as int, self.remaining as int) {
                    Ok((vs, p)) => spec_records(step, pos0, rem0) == Ok::<
                        (Seq<DisplayFrameView>, int),
                        ErrorView,
                    >((seq_views(out@) + vs, p)),
                    Err(e) => spec_records(step, pos0, rem0) == Err::<
                        (Seq<DisplayFrameView>, int),
                        ErrorView,
                    >(e),
                }),
            decreases self.remaining,
        {
            let ghost pos_it = self.cursor.pos as int;
            let ghost out_pre = out@;
            match self.next() {
                Ok(Some(x)) => {
                    out.push(x);
                    proof {
                        assert(step(pos_it) == spec_display(d, pos_it, self0.settings));
                        assert(seq_views(out@) =~= seq_views(out_pre) + seq![out@.last()@]);
                        match spec_records(step, self.cursor.pos as int, self.remaining as int) {
                            Ok((vs2, p2)) => {
                                assert(seq_views(out_pre) + (seq![out@.last()@] + vs2)
                                    =~= seq_views(out@) + vs2);
                            },
                            Err(e2) => {},
                        }
                    }
                },
                Ok(None) => {
                    proof {
                        assert(false);
                    }
                },
                Err(e) => {
                    proof {
                        assert(step(pos_it) == spec_display(d, pos_it, self0.settings));
                    }
                    return Err(e);
                },
            }
        }
        proof {
            assert(seq_views(out@) + Seq::<DisplayFrameView>::empty() =~= seq_views(out@));
        }
        Ok(out)
    }
}

} // verus!
