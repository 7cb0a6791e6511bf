//! The vertex section reader: the first counted section, constructed
//! directly from the header reader.

use vstd::prelude::*;

use crate::cursor::ByteCursor;
use crate::error::{Error, ErrorView};
use crate::parse::{lemma_spec_records_split, seq_views, spec_i32, spec_records};
use crate::reader::header::HeaderReader;
use crate::settings::Settings;
use crate::types::Vec4;
use crate::vertex::{spec_vertex, vec4_list_step, vertex_step, Vertex, VertexView};
use crate::weight_deform::{
    spec_weight_deform, Bdef1, Bdef2, Bdef4, Qdef, Sdef, WeightDeform,
};

verus! {

/// Decrement that wraps at the signed 32-bit minimum, mirroring the
/// vertex section's entry-checked count handling.
pub open spec fn dec_wrap(v: i32) -> i32 {
    if v == i32::MIN {
        i32::MAX
    } else {
        (v - 1) as i32
    }
}

/// Read one weight-deform union: a discriminant byte, then the selected
/// variant's indices, weights and vectors.
pub(crate) fn read_weight_deform(cursor: &mut ByteCursor, settings: &Settings) -> (r: Result<
    WeightDeform,
    Error,
>)
    ensures
        final(cursor).data == old(cursor).data,
        match spec_weight_deform(old(cursor).data@, old(cursor).pos as int, *settings) {
            Ok((w, p)) => r == Ok::<WeightDeform, Error>(w) && final(cursor).pos as int == p,
            Err(e) => r matches Err(er) && er@ == e,
        },
{
    proof {
        reveal(crate::weight_deform::spec_weight_deform);
    }
    let tag = match cursor.read_u8() {
        Ok(t) => t,
        Err(e) => return Err(e),
    };
    match tag {
        0 => {
            let bone_index = match cursor.read_index_i32(settings.bone_index_size) {
                Ok(v) => v,
                Err(e) => return Err(e),
            };
            Ok(WeightDeform::Bdef1(Bdef1 { bone_index }))
        },
        1 => {
            let bone_1_index = match cursor.read_index_i32(settings.bone_index_size) {
                Ok(v) => v,
                Err(e) => return Err(e),
            };
            let bone_2_index = match cursor.read_index_i32(settings.bone_index_size) {
                Ok(v) => v,
                Err(e) => return Err(e),
            };
            let bone_1_weight = match cursor.read_u32() {
                Ok(v) => v,
                Err(e) => return Err(e),
            };
            Ok(WeightDeform::Bdef2(Bdef2 { bone_1_index, bone_2_index, bone_1_weight }))
        },
        2 => {
            let bone_1_index = match cursor.read_index_i32(settings.bone_index_size) {
                Ok(v) => v,
                Err(e) => return Err(e),
            };
            let bone_2_index = match cursor.read_index_i32(settings.bone_index_size) {
                Ok(v) => v,
                Err(e) => return Err(e),
            };
            let bone_3_index = match cursor.read_index_i32(settings.bone_index_size) {
                Ok(v) => v,
                Err(e) => return Err(e),
            };
            let bone_4_index = match cursor.read_index_i32(settings.bone_index_size) {
                Ok(v) => v,
                Err(e) => return Err(e),
            };
            let bone_1_weight = match cursor.read_u32() {
                Ok(v) => v,
                Err(e) => return Err(e),
            };
            let bone_2_weight = match cursor.read_u32() {
                Ok(v) => v,
                Err(e) => return Err(e),
            };
            let bone_3_weight = match cursor.read_u32() {
                Ok(v) => v,
                Err(e) => return Err(e),
            };
            let bone_4_weight = match cursor.read_u32() {
                Ok(v) => v,
                Err(e) => return Err(e),
            };
            Ok(
                WeightDeform::Bdef4(
                    Bdef4 {
                        bone_1_index,
                        bone_2_index,
                        bone_3_index,
                        bone_4_index,
                        bone_1_weight,
                        bone_2_weight,
                        bone_3_weight,
                        bone_4_weight,
                    },
                ),
            )
        },
        3 => {
            let bone_1_index = match cursor.read_index_i32(settings.bone_index_size) {
                Ok(v) => v,
                Err(e) => return Err(e),
            };
            let bone_2_index = match cursor.read_index_i32(settings.bone_index_size) {
                Ok(v) => v,
                Err(e) => return Err(e),
            };
            let bone_1_weight = match cursor.read_u32() {
                Ok(v) => v,
                Err(e) => return Err(e),
            };
            let c = match cursor.read_vec3() {
                Ok(v) => v,
                Err(e) => return Err(e),
            };
            let r0 = match cursor.read_vec3() {
                Ok(v) => v,
                Err(e) => return Err(e),
            };
            let r1 = match cursor.read_vec3() {
                Ok(v) => v,
                Err(e) => return Err(e),
            };
            Ok(
                WeightDeform::Sdef(
                    Sdef { bone_1_index, bone_2_index, bone_1_weight, c, r0, r1 },
                ),
            )
        },
        4 => {
            let bone_1_index = match cursor.read_index_i32(settings.bone_index_size) {
                Ok(v) => v,
                Err(e) => return Err(e),
            };
            let bone_2_index = match cursor.read_index_i32(settings.bone_index_size) {
                Ok(v) => v,
                Err(e) => return Err(e),
            };
            let bone_3_index = match cursor.read_index_i32(settings.bone_index_size) {
                Ok(v) => v,
                Err(e) => return Err(e),
            };
            let bone_4_index = match cursor.read_index_i32(settings.bone_index_size) {
                Ok(v) => v,
                Err(e) => return Err(e),
            };
            let bone_1_weight = match cursor.read_u32() {
                Ok(v) => v,
                Err(e) => return Err(e),
            };
            let bone_2_weight = match cursor.read_u32() {
                Ok(v) => v,
                Err(e) => return Err(e),
            };
            let bone_3_weight = match cursor.read_u32() {
                Ok(v) => v,
                Err(e) => return Err(e),
            };
            let bone_4_weight = match cursor.read_u32() {
                Ok(v) => v,
                Err(e) => return Err(e),
            };
            Ok(
                WeightDeform::Qdef(
                    Qdef {
                        bone_1_index,
                        bone_2_index,
                        bone_3_index,
                        bone_4_index,
                        bone_1_weight,
                        bone_2_weight,
                        bone_3_weight,
                        bone_4_weight,
                    },
                ),
            )
        },
        e => Err(Error::UnknownWeightType(e)),
    }
}

/// Decodes the vertex section. The section's record count is read by
/// `new` directly after the header; `remaining` counts down as records
/// are decoded and is compared against zero at entry to each decode.
pub struct VertexReader {
    pub settings: Settings,
    pub count: i32,
    pub remaining: i32,
    pub cursor: ByteCursor,
    pub poison: bool,
}

impl VertexReader {
    /// Consume the header reader and read the vertex section's four-byte
    /// signed record count.
    pub fn new(header: HeaderReader) -> (r: Result<VertexReader, Error>)
        ensures
            match spec_i32(header.cursor.data@, header.cursor.pos as int) {
                Ok((c, p)) => r matches Ok(vr) && vr.settings == header.settings && vr.count == c
                    && vr.remaining == c && !vr.poison && vr.cursor.data == header.cursor.data
                    && vr.cursor.pos as int == p,
                Err(e) => r matches Err(er) && er@ == e,
            },
    {
        let mut cursor = header.cursor;
        let count = match cursor.read_i32() {
            Ok(c) => c,
            Err(e) => return Err(e),
        };
        Ok(VertexReader { settings: header.settings, count, remaining: count, cursor, poison: false })
    }

    /// Decode one vertex record, or yield `None` once the section is
    /// exhausted. The first error poisons the reader.
    pub fn next(&mut self) -> (r: Result<Option<Vertex>, Error>)
        requires
            !old(self).poison,
        ensures
            final(self).settings == old(self).settings,
            final(self).count == old(self).count,
            final(self).cursor.data == old(self).cursor.data,
            old(self).remaining == 0 ==> r == Ok::<Option<Vertex>, Error>(None) && *final(self)
                == *old(self),
            old(self).remaining != 0 ==> (match spec_vertex(
                old(self).cursor.data@,
                old(self).cursor.pos as int,
                old(self).settings,
            ) {
                Ok((v, p)) => r matches Ok(ov) && ov matches Some(vx) && vx@ == v
                    && final(self).cursor.pos as int == p
                    && final(self).remaining == dec_wrap(old(self).remaining)
                    && !final(self).poison,
                Err(e) => r matches Err(er) && er@ == e && final(self).poison,
            }),
    {
        let r = self.next_impl();
        if r.is_err() {
            self.poison = true;
        }
        r
    }

    #[verifier::loop_isolation(false)]
    #[verifier::rlimit(100)]
    fn next_impl(&mut self) -> (r: Result<Option<Vertex>, Error>)
        requires
            !old(self).poison,
        ensures
            final(self).settings == old(self).settings,
            final(self).count == old(self).count,
            final(self).cursor.data == old(self).cursor.data,
            final(self).poison == old(self).poison,
            old(self).remaining == 0 ==> r == Ok::<Option<Vertex>, Error>(None) && *final(self)
                == *old(self),
            old(self).remaining != 0 ==> (match spec_vertex(
                old(self).cursor.data@,
                old(self).cursor.pos as int,
                old(self).settings,
            ) {
                Ok((v, p)) => r matches Ok(ov) && ov matches Some(vx) && vx@ == v
                    && final(self).cursor.pos as int == p
                    && final(self).remaining == dec_wrap(old(self).remaining),
                Err(e) => r matches Err(er) && er@ == e,
            }),
    {
        if self.remaining == 0 {
            return Ok(None);
        }
        let ghost d = self.cursor.data@;
        let ghost s = self.settings;
        let position = match self.cursor.read_vec3() {
            Ok(v) => v,
            Err(e) => return Err(e),
        };
        let normal = match self.cursor.read_vec3() {
            Ok(v) => v,
            Err(e) => return Err(e),
        };
        let uv = match self.cursor.read_vec2() {
            Ok(v) => v,
            Err(e) => return Err(e),
        };
        let ghost p3 = self.cursor.pos as int;
        let ghost step = vec4_list_step(d);
        let ghost self_pre = *self;
        let n = self.settings.additional_vec4_count;
        let mut additional: Vec<Vec4> = Vec::new();
        let mut i: u8 = 0;
        while i < n
            invariant
                i <= n,
                self.settings == self_pre.settings,
                self.count == self_pre.count,
                self.remaining == self_pre.remaining,
                self.poison == self_pre.poison,
                self.cursor.data == self_pre.cursor.data,
                spec_records(step, p3, i as int) == Ok::<(Seq<Vec4>, int), ErrorView>(
                    (additional@, self.cursor.pos as int),
                ),
            decreases n - i,
        {
            let ghost pos_before = self.cursor.pos as int;
            let ghost add_pre = additional@;
            let v4 = match self.cursor.read_vec4() {
                Ok(v) => v,
                Err(e) => {
                    proof {
                        assert(step(pos_before) == crate::types::spec_vec4(d, pos_before));
                        lemma_spec_records_split(step, p3, i as int, n as int);
                    }
                    return Err(e);
                },
            };
            additional.push(v4);
            i = i + 1;
            proof {
                assert(step(pos_before) == crate::types::spec_vec4(d, pos_before));
                assert(seq![v4] + Seq::<Vec4>::empty() =~= seq![v4]);
                assert(spec_records(step, self.cursor.pos as int, 0) == Ok::<
                    (Seq<Vec4>, int),
                    ErrorView,
                >((Seq::empty(), self.cursor.pos as int)));
                assert(spec_records(step, pos_before, 1) == Ok::<(Seq<Vec4>, int), ErrorView>(
                    (seq![v4], self.cursor.pos as int),
                ));
                lemma_spec_records_split(step, p3, i as int - 1, i as int);
                assert(additional@ =~= add_pre + seq![v4]);
            }
        }
        let weight_deform = match read_weight_deform(&mut self.cursor, &self.settings) {
            Ok(w) => w,
            Err(e) => return Err(e),
        };
        let edge_scale = match self.cursor.read_u32() {
            Ok(v) => v,
            Err(e) => return Err(e),
        };
        if self.remaining == i32::MIN {
            self.remaining = i32::MAX;
        } else {
            self.remaining = self.remaining - 1;
        }
        Ok(Some(Vertex { position, normal, uv, additional, weight_deform, edge_scale }))
    }

    /// Decode all remaining records of the section into a vector,
    /// stopping at the section end or at the first error.
    #[verifier::loop_isolation(false)]
    #[verifier::rlimit(100)]
    pub fn iter(&mut self) -> (r: Result<Vec<Vertex>, Error>)
        requires
            !old(self).poison,
        ensures
            final(self).settings == old(self).settings,
            final(self).count == old(self).count,
            final(self).cursor.data == old(self).cursor.data,
            match spec_records(
                vertex_step(old(self).cursor.data@, old(self).settings),
                old(self).cursor.pos as int,
                old(self).remaining as int,
            ) {
                Ok((vs, p)) => r matches Ok(v) && seq_views(v@) == vs && final(self).cursor.pos
                    as int == p && final(self).remaining <= 0 && !final(self).poison,
                Err(e) => r matches Err(er) && er@ == e && final(self).poison,
            },
    {
        let ghost self0 = *self;
        let ghost d = self.cursor.data@;
        let ghost step = vertex_step(d, self0.settings);
        let ghost pos0 = self.cursor.pos as int;
        let ghost rem0 = self.remaining as int;
        let mut out: Vec<Vertex> = Vec::new();
        while self.remaining > 0
            invariant
                !self.poison,
                self.settings == self0.settings,
                self.count == self0.count,
                self.cursor.data == self0.cursor.data,
                (match spec_records(step, self.cursor.pos as int, self.remaining as int) {
                    Ok((vs, p)) => spec_records(step, pos0, rem0) == Ok::<
                        (Seq<VertexView>, int),
                        ErrorView,
                    >((seq_views(out@) + vs, p)),
                    Err(e) => spec_records(step, pos0, rem0) == Err::<
                        (Seq<VertexView>, int),
                        ErrorView,
                    >(e),
                }),
            decreases self.remaining,
        {
            let ghost pos_it = self.cursor.pos as int;
            let ghost rem_it = self.remaining as int;
            let ghost out_pre = out@;
            match self.next() {
                Ok(Some(v)) => {
                    out.push(v);
                    proof {
                        assert(step(pos_it) == spec_vertex(d, pos_it, self0.settings));
                        assert(seq_views(out@) =~= seq_views(out_pre) + seq![v@]);
                        match spec_records(step, self.cursor.pos as int, self.remaining as int) {
                            Ok((vs2, p2)) => {
                                assert(spec_records(step, pos_it, rem_it) == Ok::<
                                    (Seq<VertexView>, int),
                                    ErrorView,
                                >((seq![v@] + vs2, p2)));
                                assert(seq_views(out_pre) + (seq![v@] + vs2) =~= seq_views(out@)
                                    + vs2);
                            },
                            Err(e2) => {
                                assert(spec_records(step, pos_it, rem_it) == Err::<
                                    (Seq<VertexView>, int),
                                    ErrorView,
                                >(e2));
                            },
                        }
                    }
                },
                Ok(None) => {
                    proof {
                        assert(false);
                    }
                },
                Err(e) => {
                    proof {
                        assert(step(pos_it) == spec_vertex(d, pos_it, self0.settings));
                    }
                    return Err(e);
                },
            }
        }
        proof {
            assert(seq_views(out@) + Seq::<VertexView>::empty() =~= seq_views(out@));
        }
        Ok(out)
    }
}

} // verus!
