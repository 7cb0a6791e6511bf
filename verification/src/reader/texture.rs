//! The texture section reader: one length-prefixed path string per
//! record.

use vstd::prelude::*;

use crate::error::{Error, ErrorView};
use crate::parse::{seq_views, spec_records};
use crate::reader::surface::{spec_surface, spec_surface_open, spec_surface_run, SurfaceReader};
use crate::settings::Settings;
use crate::text::spec_text;
use crate::types::TextEncoding;

verus! {

/// The per-record step of the texture section: one text field.
pub open spec fn texture_step(d: Seq<u8>, enc: TextEncoding) -> spec_fn(int) -> Result<
    (Seq<char>, int),
    ErrorView,
> {
    |pos: int| spec_text(d, pos, enc)
}

/// Decodes the texture section: one path string per decode call.
pub struct TextureReader {
    pub settings: Settings,
    pub count: i32,
    pub remaining: i32,
    pub cursor: crate::cursor::ByteCursor,
    pub poison: bool,
}

impl TextureReader {
    /// Consume the surface reader, drain its unread triangles, and read
    /// the texture section's four-byte signed count.
    #[verifier::loop_isolation(false)]
    #[verifier::rlimit(100)]
    pub fn new(s: SurfaceReader) -> (r: Result<TextureReader, Error>)
        requires
            !s.poison,
        ensures
            match spec_surface_open(
                s.cursor.data@,
                s.cursor.pos as int,
                s.settings,
                s.remaining as int,
            ) {
                Ok((c, p)) => r matches Ok(tr) && tr.settings == s.settings && tr.count == c
                    && tr.remaining == c && !tr.poison && tr.cursor.data == s.cursor.data
                    && tr.cursor.pos as int == p,
                Err(e) => r matches Err(er) && er@ == e,
            },
    {
        let mut s = s;
        let ghost d = s.cursor.data@;
        let ghost st = s.settings;
        let ghost pos0 = s.cursor.pos as int;
        let ghost rem0 = s.remaining as int;
        let ghost data0 = s.cursor.data;
        while s.remaining > 0
            invariant
                !s.poison,
                s.settings == st,
                s.cursor.data == data0,
                (match spec_surface_run(d, s.cursor.pos as int, st, s.remaining as int) {
                    Ok((ts, p)) => spec_surface_run(d, pos0, st, rem0) matches Ok((ts0, p0))
                        && p0 == p,
                    Err(e) => spec_surface_run(d, pos0, st, rem0) == Err::<
                        (Seq<Seq<i32>>, int),
                        ErrorView,
                    >(e),
                }),
            decreases (if s.remaining <= 0 { 0int } else { s.remaining as int }),
        {
            match s.next() {
                Ok(_) => {},
                Err(e) => {
                    return Err(e);
                },
            }
        }
        let mut cursor = s.cursor;
        let count = match cursor.read_i32() {
            Ok(c) => c,
            Err(e) => return Err(e),
        };
        Ok(TextureReader { settings: s.settings, count, remaining: count, cursor, poison: false })
    }

    /// Decode one texture path string, or yield `None` once the section
    /// is exhausted. The first error poisons the reader.
    pub fn next(&mut self) -> (r: Result<Option<String>, Error>)
        requires
            !old(self).poison,
        ensures
            final(self).settings == old(self).settings,
            final(self).count == old(self).count,
            final(self).cursor.data == old(self).cursor.data,
            old(self).remaining <= 0 ==> r == Ok::<Option<String>, Error>(None) && *final(self)
                == *old(self),
            old(self).remaining > 0 ==> (match spec_text(
                old(self).cursor.data@,
                old(self).cursor.pos as int,
                old(self).settings.text_encoding,
            ) {
                Ok((cs, p)) => r matches Ok(ov) && ov matches Some(t) && t@ == cs
                    && final(self).cursor.pos as int == p
                    && final(self).remaining == old(self).remaining - 1
                    && !final(self).poison,
                Err(e) => r matches Err(er) && er@ == e && final(self).poison,
            }),
    {
        let r = self.next_impl();
        if r.is_err() {
            self.poison = true;
        }
        r
    }

    fn next_impl(&mut self) -> (r: Result<Option<String>, Error>)
        requires
            !old(self).poison,
        ensures
            final(self).settings == old(self).settings,
            final(self).count == old(self).count,
            final(self).cursor.data == old(self).cursor.data,
            final(self).poison == old(self).poison,
            old(self).remaining <= 0 ==> r == Ok::<Option<String>, Error>(None) && *final(self)
                == *old(self),
            old(self).remaining > 0 ==> (match spec_text(
                old(self).cursor.data@,
                old(self).cursor.pos as int,
                old(self).settings.text_encoding,
            ) {
                Ok((cs, p)) => r matches Ok(ov) && ov matches Some(t) && t@ == cs
                    && final(self).cursor.pos as int == p
                    && final(self).remaining == old(self).remaining - 1,
                Err(e) => r matches Err(er) && er@ == e,
            }),
    {
        if self.remaining <= 0 {
            return Ok(None);
        }
        self.remaining = self.remaining - 1;
        match self.cursor.read_text(self.settings.text_encoding) {
            Ok(t) => Ok(Some(t)),
            Err(e) => Err(e),
        }
    }

    /// Decode all remaining texture paths into a vector, stopping at the
    /// section end or at the first error.
    #[verifier::loop_isolation(false)]
    #[verifier::rlimit(100)]
    pub fn iter(&mut self) -> (r: Result<Vec<String>, Error>)
        requires
            !old(self).poison,
        ensures
            final(self).settings == old(self).settings,
            final(self).count == old(self).count,
            final(self).cursor.data == old(self).cursor.data,
            match spec_records(
                texture_step(old(self).cursor.data@, old(self).settings.text_encoding),
                old(self).cursor.pos as int,
                old(self).remaining as int,
            ) {
                Ok((ts, p)) => r matches Ok(v) && seq_views(v@) == ts && final(self).cursor.pos
                    as int == p && final(self).remaining <= 0 && !final(self).poison,
                Err(e) => r matches Err(er) && er@ == e && final(self).poison,
            },
    {
        let ghost self0 = *self;
        let ghost d = self.cursor.data@;
        let ghost step = texture_step(d, self0.settings.text_encoding);
        let ghost pos0 = self.cursor.pos as int;
        let ghost rem0 = self.remaining as int;
        let mut out: Vec<String> = Vec::new();
        while self.remaining > 0
            invariant
                !self.poison,
                self.settings == self0.settings,
                self.count == self0.count,
                self.cursor.data == self0.cursor.data,
                (match spec_records(step, self.cursor.pos as int, self.remaining as int) {
                    Ok((ts, p)) => spec_records(step, pos0, rem0) == Ok::<
                        (Seq<Seq<char>>, int),
                        ErrorView,
                    >((seq_views(out@) + ts, p)),
                    Err(e) => spec_records(step, pos0, rem0) == Err::<
                        (Seq<Seq<char>>, int),
                        ErrorView,
                    >(e),
                }),
            decreases self.remaining,
        {
            let ghost pos_it = self.cursor.pos as int;
            let ghost out_pre = out@;
            match self.next() {
                Ok(Some(t)) => {
                    out.push(t);
                    proof {
                        assert(step(pos_it) == spec_text(d, pos_it, self0.settings.text_encoding));
                        assert(seq_views(out@) =~= seq_views(out_pre) + seq![out@.last()@]);
                        match spec_records(step, self.cursor.pos as int, self.remaining as int) {
                            Ok((ts2, p2)) => {
                                assert(seq_views(out_pre) + (seq![out@.last()@] + ts2)
                                    =~= seq_views(out@) + ts2);
                            },
                            Err(e2) => {},
                        }
                    }
                },
                Ok(None) => {
                    proof {
                        assert(false);
                    }
                },
                Err(e) => {
                    proof {
                        assert(step(pos_it) == spec_text(d, pos_it, self0.settings.text_encoding));
                    }
                    return Err(e);
                },
            }
        }
        proof {
            assert(seq_views(out@) + Seq::<Seq<char>>::empty() =~= seq_views(out@));
        }
        Ok(out)
    }
}

} // verus!
