//! The bone section reader.

use vstd::prelude::*;

use crate::bone::{
    bone_step, ik_link_step, spec_bone, spec_ik_link, Bone, BoneFlags, BoneView, Connection,
    IKLink, InverseKinematics, LocalAxis,
};
use crate::bone::Additional;
use crate::cursor::ByteCursor;
use crate::error::{Error, ErrorView};
use crate::material::{material_step, spec_material, MaterialView};
use crate::parse::{lemma_spec_records_split, seq_views, spec_records};
use crate::reader::material::MaterialReader;
use crate::settings::Settings;
use crate::types::Vec3;

verus! {

/// Read one count-prefixed run of inverse-kinematics links.
#[verifier::loop_isolation(false)]
#[verifier::rlimit(100)]
fn read_ik_links(cursor: &mut ByteCursor, settings: &Settings, n: u32) -> (r: Result<
    Vec<IKLink>,
    Error,
>)
    ensures
        final(cursor).data == old(cursor).data,
        match spec_records(
            ik_link_step(old(cursor).data@, *settings),
            old(cursor).pos as int,
            n as int,
        ) {
            Ok((ls, p)) => r matches Ok(v) && v@ == ls && final(cursor).pos as int == p,
            Err(e) => r matches Err(er) && er@ == e,
        },
{
    let ghost d = cursor.data@;
    let ghost s = *settings;
    let ghost p0 = cursor.pos as int;
    let ghost step = ik_link_step(d, s);
    let ghost data0 = cursor.data;
    let mut links: Vec<IKLink> = Vec::new();
    let mut i: u32 = 0;
    while i < n
        invariant
            i <= n,
            cursor.data == data0,
            spec_records(step, p0, i as int) == Ok::<(Seq<IKLink>, int), ErrorView>(
                (links@, cursor.pos as int),
            ),
        decreases n - i,
    {
        let ghost pos_before = cursor.pos as int;
        let ghost links_pre = links@;
        let ik_bone = match cursor.read_index_i32(settings.bone_index_size) {
            Ok(v) => v,
            Err(e) => {
                proof {
                    assert(step(pos_before) == spec_ik_link(d, pos_before, s));
                    lemma_spec_records_split(step, p0, i as int, n as int);
                }
                return Err(e);
            },
        };
        let has_limits = match cursor.read_u8() {
            Ok(v) => v,
            Err(e) => {
                proof {
                    assert(step(pos_before) == spec_ik_link(d, pos_before, s));
                    lemma_spec_records_split(step, p0, i as int, n as int);
                }
                return Err(e);
            },
        };
        let limits = if has_limits != 0 {
            let low = match cursor.read_vec3() {
                Ok(v) => v,
                Err(e) => {
                    proof {
                        assert(step(pos_before) == spec_ik_link(d, pos_before, s));
                        lemma_spec_records_split(step, p0, i as int, n as int);
                    }
                    return Err(e);
                },
            };
            let high = match cursor.read_vec3() {
                Ok(v) => v,
                Err(e) => {
                    proof {
                        assert(step(pos_before) == spec_ik_link(d, pos_before, s));
                        lemma_spec_records_split(step, p0, i as int, n as int);
                    }
                    return Err(e);
                },
            };
            Some((low, high))
        } else {
            None
        };
        links.push(IKLink { ik_bone, limits });
        i = i + 1;
        proof {
            let link = IKLink { ik_bone, limits };
            assert(step(pos_before) == spec_ik_link(d, pos_before, s));
            assert(seq![link] + Seq::<IKLink>::empty() =~= seq![link]);
            assert(spec_records(step, cursor.pos as int, 0) == Ok::<(Seq<IKLink>, int), ErrorView>(
                (Seq::empty(), cursor.pos as int),
            ));
            assert(spec_records(step, pos_before, 1) == Ok::<(Seq<IKLink>, int), ErrorView>(
                (seq![link], cursor.pos as int),
            ));
            lemma_spec_records_split(step, p0, i as int - 1, i as int);
            assert(links@ =~= links_pre + seq![link]);
        }
    }
    Ok(links)
}

/// Read the bone's tail field per the Connection flag bit.
fn read_connection(cursor: &mut ByteCursor, settings: &Settings, flags: u16) -> (r: Result<
    Connection,
    Error,
>)
    ensures
        final(cursor).data == old(cursor).data,
        match crate::bone::spec_bone_connection(
            old(cursor).data@,
            old(cursor).pos as int,
            *settings,
            flags,
        ) {
            Ok((c, p)) => r == Ok::<Connection, Error>(c) && final(cursor).pos as int == p,
            Err(e) => r matches Err(er) && er@ == e,
        },
{
    if flags & BoneFlags::Connection.bit() != 0 {
        match cursor.read_index_i32(settings.bone_index_size) {
            Ok(v) => Ok(Connection::Index(v)),
            Err(e) => Err(e),
        }
    } else {
        match cursor.read_vec3() {
            Ok(v) => Ok(Connection::Position(v)),
            Err(e) => Err(e),
        }
    }
}

/// Read the inherited rotation/movement pair when one of its bits is set.
fn read_additional(cursor: &mut ByteCursor, settings: &Settings, flags: u16) -> (r: Result<
    Option<Additional>,
    Error,
>)
    ensures
        final(cursor).data == old(cursor).data,
        match crate::bone::spec_bone_additional(
            old(cursor).data@,
            old(cursor).pos as int,
            *settings,
            flags,
        ) {
            Ok((a, p)) => r == Ok::<Option<Additional>, Error>(a) && final(cursor).pos as int
                == p,
            Err(e) => r matches Err(er) && er@ == e,
        },
{
    if flags & (BoneFlags::AddRotation.bit() | BoneFlags::AddMovement.bit()) != 0 {
        let parent = match cursor.read_index_i32(settings.bone_index_size) {
            Ok(v) => v,
            Err(e) => return Err(e),
        };
        let rate = match cursor.read_u32() {
            Ok(v) => v,
            Err(e) => return Err(e),
        };
        Ok(Some(Additional { parent, rate }))
    } else {
        Ok(None)
    }
}

/// Read the fixed-axis vector when its bit is set.
fn read_fixed_axis(cursor: &mut ByteCursor, flags: u16) -> (r: Result<Option<Vec3>, Error>)
    ensures
        final(cursor).data == old(cursor).data,
        match crate::bone::spec_bone_fixed_axis(old(cursor).data@, old(cursor).pos as int, flags) {
            Ok((a, p)) => r == Ok::<Option<Vec3>, Error>(a) && final(cursor).pos as int == p,
            Err(e) => r matches Err(er) && er@ == e,
        },
{
    if flags & BoneFlags::FixedAxis.bit() != 0 {
        match cursor.read_vec3() {
            Ok(v) => Ok(Some(v)),
            Err(e) => Err(e),
        }
    } else {
        Ok(None)
    }
}

/// Read the local-axis pair when its bit is set.
fn read_local_axis(cursor: &mut ByteCursor, flags: u16) -> (r: Result<Option<LocalAxis>, Error>)
    ensures
        final(cursor).data == old(cursor).data,
        match crate::bone::spec_bone_local_axis(old(cursor).data@, old(cursor).pos as int, flags) {
            Ok((a, p)) => r == Ok::<Option<LocalAxis>, Error>(a) && final(cursor).pos as int
                == p,
            Err(e) => r matches Err(er) && er@ == e,
        },
{
    if flags & BoneFlags::LocalAxis.bit() != 0 {
        let x = match cursor.read_vec3() {
            Ok(v) => v,
            Err(e) => return Err(e),
        };
        let z = match cursor.read_vec3() {
            Ok(v) => v,
            Err(e) => return Err(e),
        };
        Ok(Some(LocalAxis { x, z }))
    } else {
        Ok(None)
    }
}

/// Read the external-parent-transform field when its bit is set.
fn read_external_parent(cursor: &mut ByteCursor, flags: u16) -> (r: Result<Option<i32>, Error>)
    ensures
        final(cursor).data == old(cursor).data,
        match crate::bone::spec_bone_external_parent(
            old(cursor).data@,
            old(cursor).pos as int,
            flags,
        ) {
            Ok((a, p)) => r == Ok::<Option<i32>, Error>(a) && final(cursor).pos as int == p,
            Err(e) => r matches Err(er) && er@ == e,
        },
{
    if flags & BoneFlags::ExternalParentTransform.bit() != 0 {
        match cursor.read_i32() {
            Ok(v) => Ok(Some(v)),
            Err(e) => Err(e),
        }
    } else {
        Ok(None)
    }
}

/// Read the inverse-kinematics block when its bit is set.
fn read_ik(cursor: &mut ByteCursor, settings: &Settings, flags: u16) -> (r: Result<
    Option<InverseKinematics>,
    Error,
>)
    ensures
        final(cursor).data == old(cursor).data,
        match crate::bone::spec_bone_ik(
            old(cursor).data@,
            old(cursor).pos as int,
            *settings,
            flags,
        ) {
            Ok((a, p)) => final(cursor).pos as int == p && (match (r, a) {
                (Ok(Some(ik)), Some(av)) => ik@ == av,
                (Ok(None), None) => true,
                _ => false,
            }),
            Err(e) => r matches Err(er) && er@ == e,
        },
{
    if flags & BoneFlags::InverseKinematics.bit() != 0 {
        let ik_bone = match cursor.read_index_i32(settings.bone_index_size) {
            Ok(v) => v,
            Err(e) => return Err(e),
        };
        let iterations = match cursor.read_u32() {
            Ok(v) => v,
            Err(e) => return Err(e),
        };
        let limit_angle = match cursor.read_u32() {
            Ok(v) => v,
            Err(e) => return Err(e),
        };
        let link_count = match cursor.read_u32() {
            Ok(v) => v,
            Err(e) => return Err(e),
        };
        let links = match read_ik_links(cursor, settings, link_count) {
            Ok(v) => v,
            Err(e) => return Err(e),
        };
        Ok(Some(InverseKinematics { ik_bone, iterations, limit_angle, links }))
    } else {
        Ok(None)
    }
}

/// Decodes the bone section.
pub struct BoneReader {
    pub settings: Settings,
    pub count: i32,
    pub remaining: i32,
    pub cursor: ByteCursor,
    pub poison: bool,
}

impl BoneReader {
    /// Consume the material reader, drain its unread records, and read
    /// the bone section's four-byte signed count.
    #[verifier::loop_isolation(false)]
    #[verifier::rlimit(100)]
    pub fn new(m: MaterialReader) -> (r: Result<BoneReader, Error>)
        requires
            !m.poison,
        ensures
            match crate::parse::spec_open_section(
                material_step(m.cursor.data@, m.settings),
                m.cursor.data@,
                m.cursor.pos as int,
                m.remaining as int,
            ) {
                Ok((c, p)) => r matches Ok(br) && br.settings == m.settings && br.count == c
                    && br.remaining == c && !br.poison && br.cursor.data == m.cursor.data
                    && br.cursor.pos as int == p,
                Err(e) => r matches Err(er) && er@ == e,
            },
    {
        let mut m = m;
        let ghost d = m.cursor.data@;
        let ghost st = m.settings;
        let ghost step = material_step(d, st);
        let ghost pos0 = m.cursor.pos as int;
        let ghost rem0 = m.remaining as int;
        let ghost data0 = m.cursor.data;
        while m.remaining > 0
            invariant
                !m.poison,
                m.settings == st,
                m.cursor.data == data0,
                (match spec_records(step, m.cursor.pos as int, m.remaining as int) {
                    Ok((vs, p)) => spec_records(step, pos0, rem0) matches Ok((vs0, p0)) && p0
                        == p,
                    Err(e) => spec_records(step, pos0, rem0) == Err::<
                        (Seq<MaterialView>, int),
                        ErrorView,
                    >(e),
                }),
            decreases m.remaining,
        {
            let ghost pos_it = m.cursor.pos as int;
            match m.next() {
                Ok(_) => {
                    proof {
                        assert(step(pos_it) == spec_material(d, pos_it, st));
                    }
                },
                Err(e) => {
                    proof {
                        assert(step(pos_it) == spec_material(d, pos_it, st));
                    }
                    return Err(e);
                },
            }
        }
        let mut cursor = m.cursor;
        let count = match cursor.read_i32() {
            Ok(c) => c,
            Err(e) => return Err(e),
        };
        Ok(BoneReader { settings: m.settings, count, remaining: count, cursor, poison: false })
    }

    /// Decode one bone record, or yield `None` once the section is
    /// exhausted. The first error poisons the reader.
    pub fn next(&mut self) -> (r: Result<Option<Bone>, Error>)
        requires
            !old(self).poison,
        ensures
            final(self).settings == old(self).settings,
            final(self).count == old(self).count,
            final(self).cursor.data == old(self).cursor.data,
            old(self).remaining <= 0 ==> r == Ok::<Option<Bone>, Error>(None) && *final(self)
                == *old(self),
            old(self).remaining > 0 ==> (match spec_bone(
                old(self).cursor.data@,
                old(self).cursor.pos as int,
                old(self).settings,
            ) {
                Ok((v, p)) => r matches Ok(ov) && ov matches Some(b) && b@ == v
                    && final(self).cursor.pos as int == p
                    && final(self).remaining == old(self).remaining - 1
                    && !final(self).poison,
                Err(e) => r matches Err(er) && er@ == e && final(self).poison,
            }),
    {
        let r = self.next_impl();
        if r.is_err() {
            self.poison = true;
        }
        r
    }

    fn next_impl(&mut self) -> (r: Result<Option<Bone>, Error>)
        requires
            !old(self).poison,
        ensures
            final(self).settings == old(self).settings,
            final(self).count == old(self).count,
            final(self).cursor.data == old(self).cursor.data,
            final(self).poison == old(self).poison,
            old(self).remaining <= 0 ==> r == Ok::<Option<Bone>, Error>(None) && *final(self)
                == *old(self),
            old(self).remaining > 0 ==> (match spec_bone(
                old(self).cursor.data@,
                old(self).cursor.pos as int,
                old(self).settings,
            ) {
                Ok((v, p)) => r matches Ok(ov) && ov matches Some(b) && b@ == v
                    && final(self).cursor.pos as int == p
                    && final(self).remaining == old(self).remaining - 1,
                Err(e) => r matches Err(er) && er@ == e,
            }),
    {
        proof {
            reveal(crate::bone::spec_bone);
        }
        if self.remaining <= 0 {
            return Ok(None);
        }
        self.remaining = self.remaining - 1;
        let local_name = match self.cursor.read_text(self.settings.text_encoding) {
            Ok(v) => v,
            Err(e) => return Err(e),
        };
        let universal_name = match self.cursor.read_text(self.settings.text_encoding) {
            Ok(v) => v,
            Err(e) => return Err(e),
        };
        let position = match self.cursor.read_vec3() {
            Ok(v) => v,
            Err(e) => return Err(e),
        };
        let parent = match self.cursor.read_index_i32(self.settings.bone_index_size) {
            Ok(v) => v,
            Err(e) => return Err(e),
        };
        let transform_level = match self.cursor.read_i32() {
            Ok(v) => v,
            Err(e) => return Err(e),
        };
        let bone_flags = match self.cursor.read_u16() {
            Ok(v) => v,
            Err(e) => return Err(e),
        };
        let connection = match read_connection(&mut self.cursor, &self.settings, bone_flags) {
            Ok(v) => v,
            Err(e) => return Err(e),
        };
        let additional = match read_additional(&mut self.cursor, &self.settings, bone_flags) {
            Ok(v) => v,
            Err(e) => return Err(e),
        };
        let fixed_axis = match read_fixed_axis(&mut self.cursor, bone_flags) {
            Ok(v) => v,
            Err(e) => return Err(e),
        };
        let local_axis = match read_local_axis(&mut self.cursor, bone_flags) {
            Ok(v) => v,
            Err(e) => return Err(e),
        };
        let external_parent_transform = match read_external_parent(&mut self.cursor, bone_flags) {
            Ok(v) => v,
            Err(e) => return Err(e),
        };
        let inverse_kinematics = match read_ik(&mut self.cursor, &self.settings, bone_flags) {
            Ok(v) => v,
            Err(e) => return Err(e),
        };
        Ok(
            Some(
                Bone {
                    local_name,
                    universal_name,
                    position,
                    parent,
                    transform_level,
                    bone_flags,
                    connection,
                    additional,
                    fixed_axis,
                    local_axis,
                    external_parent_transform,
                    inverse_kinematics,
                },
            ),
        )
    }

    /// Decode all remaining bone records into a vector, stopping at the
    /// section end or at the first error.
    #[verifier::loop_isolation(false)]
    #[verifier::rlimit(100)]
    pub fn iter(&mut self) -> (r: Result<Vec<Bone>, Error>)
        requires
            !old(self).poison,
        ensures
            final(self).settings == old(self).settings,
            final(self).count == old(self).count,
            final(self).cursor.data == old(self).cursor.data,
            match spec_records(
                bone_step(old(self).cursor.data@, old(self).settings),
                old(self).cursor.pos as int,
                old(self).remaining as int,
            ) {
                Ok((vs, p)) => r matches Ok(v) && seq_views(v@) == vs && final(self).cursor.pos
                    as int == p && final(self).remaining <= 0 && !final(self).poison,
                Err(e) => r matches Err(er) && er@ == e && final(self).poison,
            },
    {
        let ghost self0 = *self;
        let ghost d = self.cursor.data@;
        let ghost step = bone_step(d, self0.settings);
        let ghost pos0 = self.cursor.pos as int;
        let ghost rem0 = self.remaining as int;
        let mut out: Vec<Bone> = Vec::new();
        while self.remaining > 0
            invariant
                !self.poison,
                self.settings == self0.settings,
                self.count == self0.count,
                self.cursor.data == self0.cursor.data,
                (match spec_records(step, self.cursor.pos as int, self.remaining as int) {
                    Ok((vs, p)) => spec_records(step, pos0, rem0) == Ok::<
                        (Seq<BoneView>, int),
                        ErrorView,
                    >((seq_views(out@) + vs, p)),
                    Err(e) => spec_records(step, pos0, rem0) == Err::<
                        (Seq<BoneView>, int),
                        ErrorView,
                    >(e),
                }),
            decreases self.remaining,
        {
            let ghost pos_it = self.cursor.pos as int;
            let ghost out_pre = out@;
            match self.next() {
                Ok(Some(b)) => {
                    out.push(b);
                    proof {
                        assert(step(pos_it) == spec_bone(d, pos_it, self0.settings));
                        assert(seq_views(out@) =~= seq_views(out_pre) + seq![out@.last()@]);
                        match spec_records(step, self.cursor.pos as int, self.remaining as int) {
                            Ok((vs2, p2)) => {
                                assert(seq_views(out_pre) + (seq![out@.last()@] + vs2)
                                    =~= seq_views(out@) + vs2);
                            },
                            Err(e2) => {},
                        }
                    }
                },
                Ok(None) => {
                    proof {
                        assert(false);
                    }
                },
                Err(e) => {
                    proof {
                        assert(step(pos_it) == spec_bone(d, pos_it, self0.settings));
                    }
                    return Err(e);
                },
            }
        }
        proof {
            assert(seq_views(out@) + Seq::<BoneView>::empty() =~= seq_views(out@));
        }
        Ok(out)
    }
}

} // verus!
