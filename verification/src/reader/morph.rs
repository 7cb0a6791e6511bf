//! The morph section reader.

use vstd::prelude::*;

use crate::bone::{bone_step, spec_bone, BoneView};
use crate::cursor::ByteCursor;
use crate::error::{Error, ErrorView};
use crate::morph::{
    bone_offset_step, group_offset_step, impulse_offset_step, material_offset_step, morph_step,
    spec_bone_offset, spec_group_offset, spec_impulse_offset, spec_material_offset, spec_morph,
    spec_uv_offset, spec_vertex_offset, uv_offset_step, vertex_offset_step, BoneOffset,
    GroupOffset, ImpulseOffset, MaterialOffset, Morph, MorphView, Offsets, OffsetMethod, Panel,
    UVOffset, VertexOffset,
};
use crate::parse::{lemma_spec_records_split, seq_views, spec_records};
use crate::reader::bone::BoneReader;
use crate::settings::Settings;

verus! {

/// Read one group (or flip) morph entry.
fn read_group_offset(cursor: &mut ByteCursor, settings: &Settings) -> (r: Result<GroupOffset, Error>)
    ensures
        final(cursor).data == old(cursor).data,
        match spec_group_offset(old(cursor).data@, old(cursor).pos as int, *settings) {
            Ok((v, p)) => r == Ok::<GroupOffset, Error>(v) && final(cursor).pos as int == p,
            Err(e) => r matches Err(er) && er@ == e,
        },
{
    let morph = match cursor.read_index_i32(settings.morph_index_size) {
        Ok(v) => v,
        Err(e) => return Err(e),
    };
    let influence = match cursor.read_u32() {
        Ok(v) => v,
        Err(e) => return Err(e),
    };
    Ok(GroupOffset { morph, influence })
}

/// Read one vertex morph entry.
fn read_vertex_offset(cursor: &mut ByteCursor, settings: &Settings) -> (r: Result<VertexOffset, Error>)
    ensures
        final(cursor).data == old(cursor).data,
        match spec_vertex_offset(old(cursor).data@, old(cursor).pos as int, *settings) {
            Ok((v, p)) => r == Ok::<VertexOffset, Error>(v) && final(cursor).pos as int == p,
            Err(e) => r matches Err(er) && er@ == e,
        },
{
    let vertex = match cursor.read_vertex_index_i32(settings.vertex_index_size) {
        Ok(v) => v,
        Err(e) => return Err(e),
    };
    let offset = match cursor.read_vec3() {
        Ok(v) => v,
        Err(e) => return Err(e),
    };
    Ok(VertexOffset { vertex, offset })
}

/// Read one bone morph entry.
fn read_bone_offset(cursor: &mut ByteCursor, settings: &Settings) -> (r: Result<BoneOffset, Error>)
    ensures
        final(cursor).data == old(cursor).data,
        match spec_bone_offset(old(cursor).data@, old(cursor).pos as int, *settings) {
            Ok((v, p)) => r == Ok::<BoneOffset, Error>(v) && final(cursor).pos as int == p,
            Err(e) => r matches Err(er) && er@ == e,
        },
{
    let bone = match cursor.read_index_i32(settings.bone_index_size) {
        Ok(v) => v,
        Err(e) => return Err(e),
    };
    let translation = match cursor.read_vec3() {
        Ok(v) => v,
        Err(e) => return Err(e),
    };
    let rotation = match cursor.read_vec4() {
        Ok(v) => v,
        Err(e) => return Err(e),
    };
    Ok(BoneOffset { bone, translation, rotation })
}

/// Read one UV morph entry.
fn read_uv_offset(cursor: &mut ByteCursor, settings: &Settings) -> (r: Result<UVOffset, Error>)
    ensures
        final(cursor).data == old(cursor).data,
        match spec_uv_offset(old(cursor).data@, old(cursor).pos as int, *settings) {
            Ok((v, p)) => r == Ok::<UVOffset, Error>(v) && final(cursor).pos as int == p,
            Err(e) => r matches Err(er) && er@ == e,
        },
{
    let vertex = match cursor.read_vertex_index_i32(settings.vertex_index_size) {
        Ok(v) => v,
        Err(e) => return Err(e),
    };
    let offset = match cursor.read_vec4() {
        Ok(v) => v,
        Err(e) => return Err(e),
    };
    Ok(UVOffset { vertex, offset })
}

/// Read one material morph entry.
fn read_material_offset(cursor: &mut ByteCursor, settings: &Settings) -> (r: Result<MaterialOffset, Error>)
    ensures
        final(cursor).data == old(cursor).data,
        match spec_material_offset(old(cursor).data@, old(cursor).pos as int, *settings) {
            Ok((v, p)) => r == Ok::<MaterialOffset, Error>(v) && final(cursor).pos as int == p,
            Err(e) => r matches Err(er) && er@ == e,
        },
{
    let material = match cursor.read_index_i32(settings.material_index_size) {
        Ok(v) => v,
        Err(e) => return Err(e),
    };
    let mb = match cursor.read_u8() {
        Ok(v) => v,
        Err(e) => return Err(e),
    };
    let method = match OffsetMethod::from_byte(mb) {
        Ok(v) => v,
        Err(e) => return Err(e),
    };
    let diffuse_color = match cursor.read_vec4() {
        Ok(v) => v,
        Err(e) => return Err(e),
    };
    let specular_color = match cursor.read_vec3() {
        Ok(v) => v,
        Err(e) => return Err(e),
    };
    let specular_strength = match cursor.read_u32() {
        Ok(v) => v,
        Err(e) => return Err(e),
    };
    let ambient_color = match cursor.read_vec3() {
        Ok(v) => v,
        Err(e) => return Err(e),
    };
    let edge_color = match cursor.read_vec4() {
        Ok(v) => v,
        Err(e) => return Err(e),
    };
    let edge_scale = match cursor.read_u32() {
        Ok(v) => v,
        Err(e) => return Err(e),
    };
    let texture_tint = match cursor.read_vec4() {
        Ok(v) => v,
        Err(e) => return Err(e),
    };
    let environment_tint = match cursor.read_vec4() {
        Ok(v) => v,
        Err(e) => return Err(e),
    };
    let toon_tint = match cursor.read_vec4() {
        Ok(v) => v,
        Err(e) => return Err(e),
    };
    Ok(
        MaterialOffset {
            material,
            method,
            diffuse_color,
            specular_color,
            specular_strength,
            ambient_color,
            edge_color,
            edge_scale,
            texture_tint,
            environment_tint,
            toon_tint,
        },
    )
}

/// Read one impulse morph entry.
fn read_impulse_offset(cursor: &mut ByteCursor, settings: &Settings) -> (r: Result<ImpulseOffset, Error>)
    ensures
        final(cursor).data == old(cursor).data,
        match spec_impulse_offset(old(cursor).data@, old(cursor).pos as int, *settings) {
            Ok((v, p)) => r == Ok::<ImpulseOffset, Error>(v) && final(cursor).pos as int == p,
            Err(e) => r matches Err(er) && er@ == e,
        },
{
    let rigid_body = match cursor.read_index_i32(settings.rigidbody_index_size) {
        Ok(v) => v,
        Err(e) => return Err(e),
    };
    let lb = match cursor.read_u8() {
        Ok(v) => v,
        Err(e) => return Err(e),
    };
    let velocity = match cursor.read_vec3() {
        Ok(v) => v,
        Err(e) => return Err(e),
    };
    let torque = match cursor.read_vec3() {
        Ok(v) => v,
        Err(e) => return Err(e),
    };
    Ok(ImpulseOffset { rigid_body, local: lb != 0, velocity, torque })
}

/// Decodes the morph section.
pub struct MorphReader {
    pub settings: Settings,
    pub count: i32,
    pub remaining: i32,
    pub cursor: ByteCursor,
    pub poison: bool,
}

impl MorphReader {
    /// Consume the bone reader, drain its unread records, and read the
    /// morph section's four-byte signed count.
    #[verifier::loop_isolation(false)]
    #[verifier::rlimit(100)]
    pub fn new(b: BoneReader) -> (r: Result<MorphReader, Error>)
        requires
            !b.poison,
        ensures
            match crate::parse::spec_open_section(
                bone_step(b.cursor.data@, b.settings),
                b.cursor.data@,
                b.cursor.pos as int,
                b.remaining as int,
            ) {
                Ok((c, p)) => r matches Ok(mr) && mr.settings == b.settings && mr.count == c
                    && mr.remaining == c && !mr.poison && mr.cursor.data == b.cursor.data
                    && mr.cursor.pos as int == p,
                Err(e) => r matches Err(er) && er@ == e,
            },
    {
        let mut b = b;
        let ghost d = b.cursor.data@;
        let ghost st = b.settings;
        let ghost step = bone_step(d, st);
        let ghost pos0 = b.cursor.pos as int;
        let ghost rem0 = b.remaining as int;
        let ghost data0 = b.cursor.data;
        while b.remaining > 0
            invariant
                !b.poison,
                b.settings == st,
                b.cursor.data == data0,
                (match spec_records(step, b.cursor.pos as int, b.remaining as int) {
                    Ok((vs, p)) => spec_records(step, pos0, rem0) matches Ok((vs0, p0)) && p0
                        == p,
                    Err(e) => spec_records(step, pos0, rem0) == Err::<
                        (Seq<BoneView>, int),
                        ErrorView,
                    >(e),
                }),
            decreases b.remaining,
        {
            let ghost pos_it = b.cursor.pos as int;
            match b.next() {
                Ok(_) => {
                    proof {
                        assert(step(pos_it) == spec_bone(d, pos_it, st));
                    }
                },
                Err(e) => {
                    proof {
                        assert(step(pos_it) == spec_bone(d, pos_it, st));
                    }
                    return Err(e);
                },
            }
        }
        let mut cursor = b.cursor;
        let count = match cursor.read_i32() {
            Ok(c) => c,
            Err(e) => return Err(e),
        };
        Ok(MorphReader { settings: b.settings, count, remaining: count, cursor, poison: false })
    }

    /// Decode one morph record, or yield `None` once the section is
    /// exhausted. The first error poisons the reader.
    pub fn next(&mut self) -> (r: Result<Option<Morph>, Error>)
        requires
            !old(self).poison,
        ensures
            final(self).settings == old(self).settings,
            final(self).count == old(self).count,
            final(self).cursor.data == old(self).cursor.data,
            old(self).remaining <= 0 ==> r == Ok::<Option<Morph>, Error>(None) && *final(self)
                == *old(self),
            old(self).remaining > 0 ==> (match spec_morph(
                old(self).cursor.data@,
                old(self).cursor.pos as int,
                old(self).settings,
            ) {
                Ok((v, p)) => r matches Ok(ov) && ov matches Some(m) && m@ == v
                    && final(self).cursor.pos as int == p
                    && final(self).remaining == old(self).remaining - 1
                    && !final(self).poison,
                Err(e) => r matches Err(er) && er@ == e && final(self).poison,
            }),
    {
        let r = self.next_impl();
        if r.is_err() {
            self.poison = true;
        }
        r
    }

    #[verifier::rlimit(100)]
    fn next_impl(&mut self) -> (r: Result<Option<Morph>, Error>)
        requires
            !old(self).poison,
        ensures
            final(self).settings == old(self).settings,
            final(self).count == old(self).count,
            final(self).cursor.data == old(self).cursor.data,
            final(self).poison == old(self).poison,
            old(self).remaining <= 0 ==> r == Ok::<Option<Morph>, Error>(None) && *final(self)
                == *old(self),
            old(self).remaining > 0 ==> (match spec_morph(
                old(self).cursor.data@,
                old(self).cursor.pos as int,
                old(self).settings,
            ) {
                Ok((v, p)) => r matches Ok(ov) && ov matches Some(m) && m@ == v
                    && final(self).cursor.pos as int == p
                    && final(self).remaining == old(self).remaining - 1,
                Err(e) => r matches Err(er) && er@ == e,
            }),
    {
        proof {
            reveal(crate::morph::spec_morph);
        }
        if self.remaining <= 0 {
            return Ok(None);
        }
        self.remaining = self.remaining - 1;
        let local_name = match self.cursor.read_text(self.settings.text_encoding) {
            Ok(v) => v,
            Err(e) => return Err(e),
        };
        let universal_name = match self.cursor.read_text(self.settings.text_encoding) {
            Ok(v) => v,
            Err(e) => return Err(e),
        };
        let pb = match self.cursor.read_u8() {
            Ok(v) => v,
            Err(e) => return Err(e),
        };
        let panel = Panel::from_byte(pb);
        let ty = match self.cursor.read_u8() {
            Ok(v) => v,
            Err(e) => return Err(e),
        };
        let morph_count = match self.cursor.read_u32() {
            Ok(v) => v,
            Err(e) => return Err(e),
        };
        let offsets = match ty {
            0 => match self.next_morph_offsets(morph_count) {
                Ok(v) => Offsets::Group(v),
                Err(e) => return Err(e),
            },
            1 => match self.next_vertex_offsets(morph_count) {
                Ok(v) => Offsets::Vertex(v),
                Err(e) => return Err(e),
            },
            2 => match self.next_bone_offsets(morph_count) {
                Ok(v) => Offsets::Bone(v),
                Err(e) => return Err(e),
            },
            3 => match self.next_uv_offsets(morph_count) {
                Ok(v) => Offsets::UV(v),
                Err(e) => return Err(e),
            },
            4 => match self.next_uv_offsets(morph_count) {
                Ok(v) => Offsets::AdditionalUV1(v),
                Err(e) => return Err(e),
            },
            5 => match self.next_uv_offsets(morph_count) {
                Ok(v) => Offsets::AdditionalUV2(v),
                Err(e) => return Err(e),
            },
            6 => match self.next_uv_offsets(morph_count) {
                Ok(v) => Offsets::AdditionalUV3(v),
                Err(e) => return Err(e),
            },
            7 => match self.next_uv_offsets(morph_count) {
                Ok(v) => Offsets::AdditionalUV4(v),
                Err(e) => return Err(e),
            },
            8 => match self.next_material_offsets(morph_count) {
                Ok(v) => Offsets::Material(v),
                Err(e) => return Err(e),
            },
            9 => match self.next_morph_offsets(morph_count) {
                Ok(v) => Offsets::Flip(v),
                Err(e) => return Err(e),
            },
            10 => match self.next_impulse_offsets(morph_count) {
                Ok(v) => Offsets::Impulse(v),
                Err(e) => return Err(e),
            },
            e => return Err(Error::InvalidMorphType(e)),
        };
        Ok(Some(Morph { local_name, universal_name, panel, offsets }))
    }

    /// Read `count` group (or flip) morph entries.
    #[verifier::loop_isolation(false)]
    #[verifier::rlimit(100)]
    fn next_morph_offsets(&mut self, count: u32) -> (r: Result<Vec<GroupOffset>, Error>)
        ensures
            final(self).settings == old(self).settings,
            final(self).count == old(self).count,
            final(self).remaining == old(self).remaining,
            final(self).poison == old(self).poison,
            final(self).cursor.data == old(self).cursor.data,
            match spec_records(
                group_offset_step(old(self).cursor.data@, old(self).settings),
                old(self).cursor.pos as int,
                count as int,
            ) {
                Ok((os, p)) => r matches Ok(v) && v@ == os && final(self).cursor.pos as int == p,
                Err(e) => r matches Err(er) && er@ == e,
            },
    {
        let ghost d = self.cursor.data@;
        let ghost s = self.settings;
        let ghost p0 = self.cursor.pos as int;
        let ghost step = group_offset_step(d, s);
        let ghost self_pre = *self;
        let mut out: Vec<GroupOffset> = Vec::new();
        let mut i: u32 = 0;
        while i < count
            invariant
                i <= count,
                self.settings == self_pre.settings,
                self.count == self_pre.count,
                self.remaining == self_pre.remaining,
                self.poison == self_pre.poison,
                self.cursor.data == self_pre.cursor.data,
                spec_records(step, p0, i as int) == Ok::<(Seq<GroupOffset>, int), ErrorView>(
                    (out@, self.cursor.pos as int),
                ),
            decreases count - i,
        {
            let ghost pos_before = self.cursor.pos as int;
            let ghost out_pre = out@;
            let item = match read_group_offset(&mut self.cursor, &self.settings) {
                Ok(v) => v,
                Err(e) => {
                    proof {
                        assert(step(pos_before) == spec_group_offset(d, pos_before, s));
                        lemma_spec_records_split(step, p0, i as int, count as int);
                    }
                    return Err(e);
                },
            };
            out.push(item);
            i = i + 1;
            proof {
                assert(step(pos_before) == spec_group_offset(d, pos_before, s));
                assert(seq![item] + Seq::<GroupOffset>::empty() =~= seq![item]);
                assert(spec_records(step, self.cursor.pos as int, 0) == Ok::<
                    (Seq<GroupOffset>, int),
                    ErrorView,
                >((Seq::empty(), self.cursor.pos as int)));
                assert(spec_records(step, pos_before, 1) == Ok::<(Seq<GroupOffset>, int), ErrorView>(
                    (seq![item], self.cursor.pos as int),
                ));
                lemma_spec_records_split(step, p0, i as int - 1, i as int);
                assert(out@ =~= out_pre + seq![item]);
            }
        }
        Ok(out)
    }

    /// Read `count` vertex morph entries.
    #[verifier::loop_isolation(false)]
    #[verifier::rlimit(100)]
    fn next_vertex_offsets(&mut self, count: u32) -> (r: Result<Vec<VertexOffset>, Error>)
        ensures
            final(self).settings == old(self).settings,
            final(self).count == old(self).count,
            final(self).remaining == old(self).remaining,
            final(self).poison == old(self).poison,
            final(self).cursor.data == old(self).cursor.data,
            match spec_records(
                vertex_offset_step(old(self).cursor.data@, old(self).settings),
                old(self).cursor.pos as int,
                count as int,
            ) {
                Ok((os, p)) => r matches Ok(v) && v@ == os && final(self).cursor.pos as int == p,
                Err(e) => r matches Err(er) && er@ == e,
            },
    {
        let ghost d = self.cursor.data@;
        let ghost s = self.settings;
        let ghost p0 = self.cursor.pos as int;
        let ghost step = vertex_offset_step(d, s);
        let ghost self_pre = *self;
        let mut out: Vec<VertexOffset> = Vec::new();
        let mut i: u32 = 0;
        while i < count
            invariant
                i <= count,
                self.settings == self_pre.settings,
                self.count == self_pre.count,
                self.remaining == self_pre.remaining,
                self.poison == self_pre.poison,
                self.cursor.data == self_pre.cursor.data,
                spec_records(step, p0, i as int) == Ok::<(Seq<VertexOffset>, int), ErrorView>(
                    (out@, self.cursor.pos as int),
                ),
            decreases count - i,
        {
            let ghost pos_before = self.cursor.pos as int;
            let ghost out_pre = out@;
            let item = match read_vertex_offset(&mut self.cursor, &self.settings) {
                Ok(v) => v,
                Err(e) => {
                    proof {
                        assert(step(pos_before) == spec_vertex_offset(d, pos_before, s));
                        lemma_spec_records_split(step, p0, i as int, count as int);
                    }
                    return Err(e);
                },
            };
            out.push(item);
            i = i + 1;
            proof {
                assert(step(pos_before) == spec_vertex_offset(d, pos_before, s));
                assert(seq![item] + Seq::<VertexOffset>::empty() =~= seq![item]);
                assert(spec_records(step, self.cursor.pos as int, 0) == Ok::<
                    (Seq<VertexOffset>, int),
                    ErrorView,
                >((Seq::empty(), self.cursor.pos as int)));
                assert(spec_records(step, pos_before, 1) == Ok::<(Seq<VertexOffset>, int), ErrorView>(
                    (seq![item], self.cursor.pos as int),
                ));
                lemma_spec_records_split(step, p0, i as int - 1, i as int);
                assert(out@ =~= out_pre + seq![item]);
            }
        }
        Ok(out)
    }

    /// Read `count` bone morph entries.
    #[verifier::loop_isolation(false)]
    #[verifier::rlimit(100)]
    fn next_bone_offsets(&mut self, count: u32) -> (r: Result<Vec<BoneOffset>, Error>)
        ensures
            final(self).settings == old(self).settings,
            final(self).count == old(self).count,
            final(self).remaining == old(self).remaining,
            final(self).poison == old(self).poison,
            final(self).cursor.data == old(self).cursor.data,
            match spec_records(
                bone_offset_step(old(self).cursor.data@, old(self).settings),
                old(self).cursor.pos as int,
                count as int,
            ) {
                Ok((os, p)) => r matches Ok(v) && v@ == os && final(self).cursor.pos as int == p,
                Err(e) => r matches Err(er) && er@ == e,
            },
    {
        let ghost d = self.cursor.data@;
        let ghost s = self.settings;
        let ghost p0 = self.cursor.pos as int;
        let ghost step = bone_offset_step(d, s);
        let ghost self_pre = *self;
        let mut out: Vec<BoneOffset> = Vec::new();
        let mut i: u32 = 0;
        while i < count
            invariant
                i <= count,
                self.settings == self_pre.settings,
                self.count == self_pre.count,
                self.remaining == self_pre.remaining,
                self.poison == self_pre.poison,
                self.cursor.data == self_pre.cursor.data,
                spec_records(step, p0, i as int) == Ok::<(Seq<BoneOffset>, int), ErrorView>(
                    (out@, self.cursor.pos as int),
                ),
            decreases count - i,
        {
            let ghost pos_before = self.cursor.pos as int;
            let ghost out_pre = out@;
            let item = match read_bone_offset(&mut self.cursor, &self.settings) {
                Ok(v) => v,
                Err(e) => {
                    proof {
                        assert(step(pos_before) == spec_bone_offset(d, pos_before, s));
                        lemma_spec_records_split(step, p0, i as int, count as int);
                    }
                    return Err(e);
                },
            };
            out.push(item);
            i = i + 1;
            proof {
                assert(step(pos_before) == spec_bone_offset(d, pos_before, s));
                assert(seq![item] + Seq::<BoneOffset>::empty() =~= seq![item]);
                assert(spec_records(step, self.cursor.pos as int, 0) == Ok::<
                    (Seq<BoneOffset>, int),
                    ErrorView,
                >((Seq::empty(), self.cursor.pos as int)));
                assert(spec_records(step, pos_before, 1) == Ok::<(Seq<BoneOffset>, int), ErrorView>(
                    (seq![item], self.cursor.pos as int),
                ));
                lemma_spec_records_split(step, p0, i as int - 1, i as int);
                assert(out@ =~= out_pre + seq![item]);
            }
        }
        Ok(out)
    }

    /// Read `count` UV morph entries.
    #[verifier::loop_isolation(false)]
    #[verifier::rlimit(100)]
    fn next_uv_offsets(&mut self, count: u32) -> (r: Result<Vec<UVOffset>, Error>)
        ensures
            final(self).settings == old(self).settings,
            final(self).count == old(self).count,
            final(self).remaining == old(self).remaining,
            final(self).poison == old(self).poison,
            final(self).cursor.data == old(self).cursor.data,
            match spec_records(
                uv_offset_step(old(self).cursor.data@, old(self).settings),
                old(self).cursor.pos as int,
                count as int,
            ) {
                Ok((os, p)) => r matches Ok(v) && v@ == os && final(self).cursor.pos as int == p,
                Err(e) => r matches Err(er) && er@ == e,
            },
    {
        let ghost d = self.cursor.data@;
        let ghost s = self.settings;
        let ghost p0 = self.cursor.pos as int;
        let ghost step = uv_offset_step(d, s);
        let ghost self_pre = *self;
        let mut out: Vec<UVOffset> = Vec::new();
        let mut i: u32 = 0;
        while i < count
            invariant
                i <= count,
                self.settings == self_pre.settings,
                self.count == self_pre.count,
                self.remaining == self_pre.remaining,
                self.poison == self_pre.poison,
                self.cursor.data == self_pre.cursor.data,
                spec_records(step, p0, i as int) == Ok::<(Seq<UVOffset>, int), ErrorView>(
                    (out@, self.cursor.pos as int),
                ),
            decreases count - i,
        {
            let ghost pos_before = self.cursor.pos as int;
            let ghost out_pre = out@;
            let item = match read_uv_offset(&mut self.cursor, &self.settings) {
                Ok(v) => v,
                Err(e) => {
                    proof {
                        assert(step(pos_before) == spec_uv_offset(d, pos_before, s));
                        lemma_spec_records_split(step, p0, i as int, count as int);
                    }
                    return Err(e);
                },
            };
            out.push(item);
            i = i + 1;
            proof {
                assert(step(pos_before) == spec_uv_offset(d, pos_before, s));
                assert(seq![item] + Seq::<UVOffset>::empty() =~= seq![item]);
                assert(spec_records(step, self.cursor.pos as int, 0) == Ok::<
                    (Seq<UVOffset>, int),
                    ErrorView,
                >((Seq::empty(), self.cursor.pos as int)));
                assert(spec_records(step, pos_before, 1) == Ok::<(Seq<UVOffset>, int), ErrorView>(
                    (seq![item], self.cursor.pos as int),
                ));
                lemma_spec_records_split(step, p0, i as int - 1, i as int);
                assert(out@ =~= out_pre + seq![item]);
            }
        }
        Ok(out)
    }

    /// Read `count` material morph entries.
    #[verifier::loop_isolation(false)]
    #[verifier::rlimit(100)]
    fn next_material_offsets(&mut self, count: u32) -> (r: Result<Vec<MaterialOffset>, Error>)
        ensures
            final(self).settings == old(self).settings,
            final(self).count == old(self).count,
            final(self).remaining == old(self).remaining,
            final(self).poison == old(self).poison,
            final(self).cursor.data == old(self).cursor.data,
            match spec_records(
                material_offset_step(old(self).cursor.data@, old(self).settings),
                old(self).cursor.pos as int,
                count as int,
            ) {
                Ok((os, p)) => r matches Ok(v) && v@ == os && final(self).cursor.pos as int == p,
                Err(e) => r matches Err(er) && er@ == e,
            },
    {
        let ghost d = self.cursor.data@;
        let ghost s = self.settings;
        let ghost p0 = self.cursor.pos as int;
        let ghost step = material_offset_step(d, s);
        let ghost self_pre = *self;
        let mut out: Vec<MaterialOffset> = Vec::new();
        let mut i: u32 = 0;
        while i < count
            invariant
                i <= count,
                self.settings == self_pre.settings,
                self.count == self_pre.count,
                self.remaining == self_pre.remaining,
                self.poison == self_pre.poison,
                self.cursor.data == self_pre.cursor.data,
                spec_records(step, p0, i as int) == Ok::<(Seq<MaterialOffset>, int), ErrorView>(
                    (out@, self.cursor.pos as int),
                ),
            decreases count - i,
        {
            let ghost pos_before = self.cursor.pos as int;
            let ghost out_pre = out@;
            let item = match read_material_offset(&mut self.cursor, &self.settings) {
                Ok(v) => v,
                Err(e) => {
                    proof {
                        assert(step(pos_before) == spec_material_offset(d, pos_before, s));
                        lemma_spec_records_split(step, p0, i as int, count as int);
                    }
                    return Err(e);
                },
            };
            out.push(item);
            i = i + 1;
            proof {
                assert(step(pos_before) == spec_material_offset(d, pos_before, s));
                assert(seq![item] + Seq::<MaterialOffset>::empty() =~= seq![item]);
                assert(spec_records(step, self.cursor.pos as int, 0) == Ok::<
                    (Seq<MaterialOffset>, int),
                    ErrorView,
                >((Seq::empty(), self.cursor.pos as int)));
                assert(spec_records(step, pos_before, 1) == Ok::<(Seq<MaterialOffset>, int), ErrorView>(
                    (seq![item], self.cursor.pos as int),
                ));
                lemma_spec_records_split(step, p0, i as int - 1, i as int);
                assert(out@ =~= out_pre + seq![item]);
            }
        }
        Ok(out)
    }

    /// Read `count` impulse morph entries.
    #[verifier::loop_isolation(false)]
    #[verifier::rlimit(100)]
    fn next_impulse_offsets(&mut self, count: u32) -> (r: Result<Vec<ImpulseOffset>, Error>)
        ensures
            final(self).settings == old(self).settings,
            final(self).count == old(self).count,
            final(self).remaining == old(self).remaining,
            final(self).poison == old(self).poison,
            final(self).cursor.data == old(self).cursor.data,
            match spec_records(
                impulse_offset_step(old(self).cursor.data@, old(self).settings),
                old(self).cursor.pos as int,
                count as int,
            ) {
                Ok((os, p)) => r matches Ok(v) && v@ == os && final(self).cursor.pos as int == p,
                Err(e) => r matches Err(er) && er@ == e,
            },
    {
        let ghost d = self.cursor.data@;
        let ghost s = self.settings;
        let ghost p0 = self.cursor.pos as int;
        let ghost step = impulse_offset_step(d, s);
        let ghost self_pre = *self;
        let mut out: Vec<ImpulseOffset> = Vec::new();
        let mut i: u32 = 0;
        while i < count
            invariant
                i <= count,
                self.settings == self_pre.settings,
                self.count == self_pre.count,
                self.remaining == self_pre.remaining,
                self.poison == self_pre.poison,
                self.cursor.data == self_pre.cursor.data,
                spec_records(step, p0, i as int) == Ok::<(Seq<ImpulseOffset>, int), ErrorView>(
                    (out@, self.cursor.pos as int),
                ),
            decreases count - i,
        {
            let ghost pos_before = self.cursor.pos as int;
            let ghost out_pre = out@;
            let item = match read_impulse_offset(&mut self.cursor, &self.settings) {
                Ok(v) => v,
                Err(e) => {
                    proof {
                        assert(step(pos_before) == spec_impulse_offset(d, pos_before, s));
                        lemma_spec_records_split(step, p0, i as int, count as int);
                    }
                    return Err(e);
                },
            };
            out.push(item);
            i = i + 1;
            proof {
                assert(step(pos_before) == spec_impulse_offset(d, pos_before, s));
                assert(seq![item] + Seq::<ImpulseOffset>::empty() =~= seq![item]);
                assert(spec_records(step, self.cursor.pos as int, 0) == Ok::<
                    (Seq<ImpulseOffset>, int),
                    ErrorView,
                >((Seq::empty(), self.cursor.pos as int)));
                assert(spec_records(step, pos_before, 1) == Ok::<(Seq<ImpulseOffset>, int), ErrorView>(
                    (seq![item], self.cursor.pos as int),
                ));
                lemma_spec_records_split(step, p0, i as int - 1, i as int);
                assert(out@ =~= out_pre + seq![item]);
            }
        }
        Ok(out)
    }

    /// Decode all remaining morph records into a vector, stopping at the
    /// section end or at the first error.
    #[verifier::loop_isolation(false)]
    #[verifier::rlimit(100)]
    pub fn iter(&mut self) -> (r: Result<Vec<Morph>, Error>)
        requires
            !old(self).poison,
        ensures
            final(self).settings == old(self).settings,
            final(self).count == old(self).count,
            final(self).cursor.data == old(self).cursor.data,
            match spec_records(
                morph_step(old(self).cursor.data@, old(self).settings),
                old(self).cursor.pos as int,
                old(self).remaining as int,
            ) {
                Ok((vs, p)) => r matches Ok(v) && seq_views(v@) == vs && final(self).cursor.pos
                    as int == p && final(self).remaining <= 0 && !final(self).poison,
                Err(e) => r matches Err(er) && er@ == e && final(self).poison,
            },
    {
        let ghost self0 = *self;
        let ghost d = self.cursor.data@;
        let ghost step = morph_step(d, self0.settings);
        let ghost pos0 = self.cursor.pos as int;
        let ghost rem0 = self.remaining as int;
        let mut out: Vec<Morph> = Vec::new();
        while self.remaining > 0
            invariant
                !self.poison,
                self.settings == self0.settings,
                self.count == self0.count,
                self.cursor.data == self0.cursor.data,
                (match spec_records(step, self.cursor.pos as int, self.remaining as int) {
                    Ok((vs, p)) => spec_records(step, pos0, rem0) == Ok::<
                        (Seq<MorphView>, int),
                        ErrorView,
                    >((seq_views(out@) + vs, p)),
                    Err(e) => spec_records(step, pos0, rem0) == Err::<
                        (Seq<MorphView>, int),
                        ErrorView,
                    >(e),
                }),
            decreases self.remaining,
        {
            let ghost pos_it = self.cursor.pos as int;
            let ghost out_pre = out@;
            match self.next() {
                Ok(Some(m)) => {
                    out.push(m);
                    proof {
                        assert(step(pos_it) == spec_morph(d, pos_it, self0.settings));
                        assert(seq_views(out@) =~= seq_views(out_pre) + seq![out@.last()@]);
                        match spec_records(step, self.cursor.pos as int, self.remaining as int) {
                            Ok((vs2, p2)) => {
                                assert(seq_views(out_pre) + (seq![out@.last()@] + vs2)
                                    =~= seq_views(out@) + vs2);
                            },
                            Err(e2) => {},
                        }
                    }
                },
                Ok(None) => {
                    proof {
                        assert(false);
                    }
                },
                Err(e) => {
                    proof {
                        assert(step(pos_it) == spec_morph(d, pos_it, self0.settings));
                    }
                    return Err(e);
                },
            }
        }
        proof {
            assert(seq_views(out@) + Seq::<MorphView>::empty() =~= seq_views(out@));
        }
        Ok(out)
    }
}

} // verus!
