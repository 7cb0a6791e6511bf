//! The surface section reader: triangle index triples. The declared count
//! is a vertex-index count, three times the triangle count, and
//! `remaining` goes down by three per decoded triple.

use vstd::prelude::*;

use crate::error::{Error, ErrorView};
use crate::parse::{spec_i32, spec_records};
use crate::reader::vertex::VertexReader;
use crate::settings::Settings;
use crate::types::spec_vertex_index;
use crate::vertex::{spec_vertex, vertex_step};

verus! {

/// One triangle: three vertex indices.
pub open spec fn spec_surface(d: Seq<u8>, pos: int, s: Settings) -> Result<
    (Seq<i32>, int),
    ErrorView,
> {
    match spec_vertex_index(d, pos, s.vertex_index_size) {
        Err(e) => Err(e),
        Ok((a, p1)) => match spec_vertex_index(d, p1, s.vertex_index_size) {
            Err(e) => Err(e),
            Ok((b, p2)) => match spec_vertex_index(d, p2, s.vertex_index_size) {
                Err(e) => Err(e),
                Ok((c, p3)) => Ok((seq![a, b, c], p3)),
            },
        },
    }
}

/// The whole run of triples that a surface section with `rem` remaining
/// index slots yields: one triple per three slots, until none are left.
pub open spec fn spec_surface_run(d: Seq<u8>, pos: int, s: Settings, rem: int) -> Result<
    (Seq<Seq<i32>>, int),
    ErrorView,
>
    decreases (if rem <= 0 { 0int } else { rem }),
{
    if rem <= 0 {
        Ok((Seq::empty(), pos))
    } else {
        match spec_surface(d, pos, s) {
            Err(e) => Err(e),
            Ok((t, p)) => match spec_surface_run(d, p, s, rem - 3) {
                Err(e) => Err(e),
                Ok((ts, p2)) => Ok((seq![t] + ts, p2)),
            },
        }
    }
}

/// Splitting a surface run after a whole number of triples (a multiple of
/// three index slots): the whole run is the first part followed by the
/// rest, parsed from where the first part stopped.
pub proof fn lemma_spec_surface_run_split(d: Seq<u8>, pos: int, s: Settings, j: int, rem: int)
    requires
        0 <= j <= rem,
        j % 3 == 0,
    ensures
        (match spec_surface_run(d, pos, s, j) {
            Ok((ts, p)) => spec_surface_run(d, pos, s, rem) == (match spec_surface_run(
                d,
                p,
                s,
                rem - j,
            ) {
                Ok((ts2, p2)) => Ok::<(Seq<Seq<i32>>, int), ErrorView>((ts + ts2, p2)),
                Err(e) => Err::<(Seq<Seq<i32>>, int), ErrorView>(e),
            }),
            Err(e) => spec_surface_run(d, pos, s, rem) == Err::<(Seq<Seq<i32>>, int), ErrorView>(
                e,
            ),
        }),
    decreases j,
{
    if j <= 0 {
        match spec_surface_run(d, pos, s, rem) {
            Ok((ts2, p2)) => {
                assert(Seq::<Seq<i32>>::empty() + ts2 =~= ts2);
            },
            Err(e) => {},
        }
    } else {
        match spec_surface(d, pos, s) {
            Ok((t, p1)) => {
                lemma_spec_surface_run_split(d, p1, s, j - 3, rem - 3);
                match spec_surface_run(d, p1, s, j - 3) {
                    Ok((ts1, p)) => {
                        match spec_surface_run(d, p, s, rem - j) {
                            Ok((ts2, p2)) => {
                                assert((seq![t] + ts1) + ts2 =~= seq![t] + (ts1 + ts2));
                            },
                            Err(e) => {},
                        }
                    },
                    Err(e) => {},
                }
            },
            Err(e) => {},
        }
    }
}

/// The record count and start position of the section after the surfaces:
/// skip the remaining triples, then read the next four-byte signed count.
pub open spec fn spec_surface_open(d: Seq<u8>, pos: int, s: Settings, rem: int) -> Result<
    (i32, int),
    ErrorView,
> {
    match spec_surface_run(d, pos, s, rem) {
        Ok((ts, p)) => spec_i32(d, p),
        Err(e) => Err(e),
    }
}

/// Reading only some of the remaining surface triples and then opening
/// the next section from there lands at the same place — with the same
/// count and the same errors — as opening it with all of them unread.
pub proof fn lemma_surface_open_after_partial_read(
    d: Seq<u8>,
    pos: int,
    s: Settings,
    j: int,
    rem: int,
)
    requires
        0 <= j <= rem,
        j % 3 == 0,
    ensures
        (match spec_surface_run(d, pos, s, j) {
            Ok((ts, p)) => spec_surface_open(d, p, s, rem - j) == spec_surface_open(
                d,
                pos,
                s,
                rem,
            ),
            Err(e) => spec_surface_open(d, pos, s, rem) == Err::<(i32, int), ErrorView>(e),
        }),
{
    lemma_spec_surface_run_split(d, pos, s, j, rem);
}

/// Decodes the surface section: one triangle (three vertex indices) per
/// decode call.
pub struct SurfaceReader {
    pub settings: Settings,
    pub count: i32,
    pub remaining: i32,
    pub cursor: crate::cursor::ByteCursor,
    pub poison: bool,
}

impl SurfaceReader {
    /// Consume the vertex reader, drain its unread records, and read the
    /// surface section's four-byte signed count.
    #[verifier::loop_isolation(false)]
    #[verifier::rlimit(100)]
    pub fn new(v: VertexReader) -> (r: Result<SurfaceReader, Error>)
        requires
            !v.poison,
        ensures
            match crate::parse::spec_open_section(
                vertex_step(v.cursor.data@, v.settings),
                v.cursor.data@,
                v.cursor.pos as int,
                v.remaining as int,
            ) {
                Ok((c, p)) => r matches Ok(sr) && sr.settings == v.settings && sr.count == c
                    && sr.remaining == c && !sr.poison && sr.cursor.data == v.cursor.data
                    && sr.cursor.pos as int == p,
                Err(e) => r matches Err(er) && er@ == e,
            },
    {
        let mut v = v;
        let ghost d = v.cursor.data@;
        let ghost s = v.settings;
        let ghost step = vertex_step(d, s);
        let ghost pos0 = v.cursor.pos as int;
        let ghost rem0 = v.remaining as int;
        let ghost data0 = v.cursor.data;
        while v.remaining > 0
            invariant
                !v.poison,
                v.settings == s,
                v.cursor.data == data0,
                (match spec_records(step, v.cursor.pos as int, v.remaining as int) {
                    Ok((vs, p)) => spec_records(step, pos0, rem0) matches Ok((vs0, p0)) && p0
                        == p,
                    Err(e) => spec_records(step, pos0, rem0) == Err::<
                        (Seq<crate::vertex::VertexView>, int),
                        ErrorView,
                    >(e),
                }),
            decreases v.remaining,
        {
            let ghost pos_it = v.cursor.pos as int;
            match v.next() {
                Ok(_) => {
                    proof {
                        assert(step(pos_it) == spec_vertex(d, pos_it, s));
                    }
                },
                Err(e) => {
                    proof {
                        assert(step(pos_it) == spec_vertex(d, pos_it, s));
                    }
                    return Err(e);
                },
            }
        }
        let mut cursor = v.cursor;
        let count = match cursor.read_i32() {
            Ok(c) => c,
            Err(e) => return Err(e),
        };
        Ok(SurfaceReader { settings: v.settings, count, remaining: count, cursor, poison: false })
    }

    /// Decode one triangle's three vertex indices, or yield `None` once
    /// fewer than one whole triple's index slots remain declared. The
    /// first error poisons the reader.
    pub fn next(&mut self) -> (r: Result<Option<[i32; 3]>, Error>)
        requires
            !old(self).poison,
        ensures
            final(self).settings == old(self).settings,
            final(self).count == old(self).count,
            final(self).cursor.data == old(self).cursor.data,
            old(self).remaining <= 0 ==> r == Ok::<Option<[i32; 3]>, Error>(None) && *final(self)
                == *old(self),
            old(self).remaining > 0 ==> (match spec_surface(
                old(self).cursor.data@,
                old(self).cursor.pos as int,
                old(self).settings,
            ) {
                Ok((t, p)) => r matches Ok(ov) && ov matches Some(arr) && arr@ == t
                    && final(self).cursor.pos as int == p
                    && final(self).remaining == old(self).remaining - 3
                    && !final(self).poison,
                Err(e) => r matches Err(er) && er@ == e && final(self).poison,
            }),
    {
        let r = self.next_impl();
        if r.is_err() {
            self.poison = true;
        }
        r
    }

    fn next_impl(&mut self) -> (r: Result<Option<[i32; 3]>, Error>)
        requires
            !old(self).poison,
        ensures
            final(self).settings == old(self).settings,
            final(self).count == old(self).count,
            final(self).cursor.data == old(self).cursor.data,
            final(self).poison == old(self).poison,
            old(self).remaining <= 0 ==> r == Ok::<Option<[i32; 3]>, Error>(None) && *final(self)
                == *old(self),
            old(self).remaining > 0 ==> (match spec_surface(
                old(self).cursor.data@,
                old(self).cursor.pos as int,
                old(self).settings,
            ) {
                Ok((t, p)) => r matches Ok(ov) && ov matches Some(arr) && arr@ == t
                    && final(self).cursor.pos as int == p
                    && final(self).remaining == old(self).remaining - 3,
                Err(e) => r matches Err(er) && er@ == e,
            }),
    {
        if self.remaining <= 0 {
            return Ok(None);
        }
        self.remaining = self.remaining - 3;
        let a = match self.cursor.read_vertex_index_i32(self.settings.vertex_index_size) {
            Ok(v) => v,
            Err(e) => return Err(e),
        };
        let b = match self.cursor.read_vertex_index_i32(self.settings.vertex_index_size) {
            Ok(v) => v,
            Err(e) => return Err(e),
        };
        let c = match self.cursor.read_vertex_index_i32(self.settings.vertex_index_size) {
            Ok(v) => v,
            Err(e) => return Err(e),
        };
        let arr: [i32; 3] = [a, b, c];
        proof {
            assert(arr@ =~= seq![a, b, c]);
        }
        Ok(Some(arr))
    }

    /// Decode all remaining triangles into a vector, stopping at the
    /// section end or at the first error.
    #[verifier::loop_isolation(false)]
    #[verifier::rlimit(100)]
    pub fn iter(&mut self) -> (r: Result<Vec<[i32; 3]>, Error>)
        requires
            !old(self).poison,
        ensures
            final(self).settings == old(self).settings,
            final(self).count == old(self).count,
            final(self).cursor.data == old(self).cursor.data,
            match spec_surface_run(
                old(self).cursor.data@,
                old(self).cursor.pos as int,
                old(self).settings,
                old(self).remaining as int,
            ) {
                Ok((ts, p)) => r matches Ok(v) && crate::parse::seq_views(v@) == ts
                    && final(self).cursor.pos as int == p && final(self).remaining <= 0
                    && !final(self).poison,
                Err(e) => r matches Err(er) && er@ == e && final(self).poison,
            },
    {
        let ghost self0 = *self;
        let ghost d = self.cursor.data@;
        let ghost pos0 = self.cursor.pos as int;
        let ghost rem0 = self.remaining as int;
        let mut out: Vec<[i32; 3]> = Vec::new();
        while self.remaining > 0
            invariant
                !self.poison,
                self.settings == self0.settings,
                self.count == self0.count,
                self.cursor.data == self0.cursor.data,
                (match spec_surface_run(
                    d,
                    self.cursor.pos as int,
                    self0.settings,
                    self.remaining as int,
                ) {
                    Ok((ts, p)) => spec_surface_run(d, pos0, self0.settings, rem0) == Ok::<
                        (Seq<Seq<i32>>, int),
                        ErrorView,
                    >((crate::parse::seq_views(out@) + ts, p)),
                    Err(e) => spec_surface_run(d, pos0, self0.settings, rem0) == Err::<
                        (Seq<Seq<i32>>, int),
                        ErrorView,
                    >(e),
                }),
            decreases (if self.remaining <= 0 { 0int } else { self.remaining as int }),
        {
            let ghost out_pre = out@;
            match self.next() {
                Ok(Some(t)) => {
                    out.push(t);
                    proof {
                        assert(crate::parse::seq_views(out@) =~= crate::parse::seq_views(out_pre)
                            + seq![t@]);
                        match spec_surface_run(
                            d,
                            self.cursor.pos as int,
                            self0.settings,
                            self.remaining as int,
                        ) {
                            Ok((ts2, p2)) => {
                                assert(crate::parse::seq_views(out_pre) + (seq![t@] + ts2)
                                    =~= crate::parse::seq_views(out@) + ts2);
                            },
                            Err(e2) => {},
                        }
                    }
                },
                Ok(None) => {
                    proof {
                        assert(false);
                    }
                },
                Err(e) => {
                    return Err(e);
                },
            }
        }
        proof {
            assert(crate::parse::seq_views(out@) + Seq::<Seq<i32>>::empty()
                =~= crate::parse::seq_views(out@));
        }
        Ok(out)
    }
}

} // verus!
