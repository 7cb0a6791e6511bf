//! The bone record: flags-conditional optional fields and the
//! inverse-kinematics sub-chain.

use vstd::prelude::*;

use crate::error::ErrorView;
use crate::parse::{spec_i32, spec_records, spec_u16, spec_u32, spec_u8};
use crate::settings::Settings;
use crate::text::spec_text;
use crate::types::{spec_index, spec_vec3, Vec3};

verus! {

/// The bits of the bone's 16-bit flags mask. Six of them gate optional
/// field runs of the record; the rest only describe the bone.
#[derive(Copy, Clone, Debug, PartialEq, Eq)]
pub enum BoneFlags {
    Connection,
    Rotatable,
    Movable,
    Display,
    CanOperate,
    InverseKinematics,
    Unknown6,
    AddLocalDeform,
    AddRotation,
    AddMovement,
    FixedAxis,
    LocalAxis,
    PhysicalTransform,
    ExternalParentTransform,
}

impl BoneFlags {
    /// The mask bit of this flag.
    pub open spec fn mask(self) -> u16 {
        match self {
            BoneFlags::Connection => 0x0001,
            BoneFlags::Rotatable => 0x0002,
            BoneFlags::Movable => 0x0004,
            BoneFlags::Display => 0x0008,
            BoneFlags::CanOperate => 0x0010,
            BoneFlags::InverseKinematics => 0x0020,
            BoneFlags::Unknown6 => 0x0040,
            BoneFlags::AddLocalDeform => 0x0080,
            BoneFlags::AddRotation => 0x0100,
            BoneFlags::AddMovement => 0x0200,
            BoneFlags::FixedAxis => 0x0400,
            BoneFlags::LocalAxis => 0x0800,
            BoneFlags::PhysicalTransform => 0x1000,
            BoneFlags::ExternalParentTransform => 0x2000,
        }
    }

    /// The mask bit of this flag.
    pub fn bit(self) -> (r: u16)
        ensures
            r == self.mask(),
    {
        match self {
            BoneFlags::Connection => 0x0001,
            BoneFlags::Rotatable => 0x0002,
            BoneFlags::Movable => 0x0004,
            BoneFlags::Display => 0x0008,
            BoneFlags::CanOperate => 0x0010,
            BoneFlags::InverseKinematics => 0x0020,
            BoneFlags::Unknown6 => 0x0040,
            BoneFlags::AddLocalDeform => 0x0080,
            BoneFlags::AddRotation => 0x0100,
            BoneFlags::AddMovement => 0x0200,
            BoneFlags::FixedAxis => 0x0400,
            BoneFlags::LocalAxis => 0x0800,
            BoneFlags::PhysicalTransform => 0x1000,
            BoneFlags::ExternalParentTransform => 0x2000,
        }
    }
}

/// What the bone's tail points at: another bone by index, or a plain
/// offset vector, selected by the Connection flag bit.
#[derive(Copy, Clone, Debug, PartialEq)]
pub enum Connection {
    Index(i32),
    Position(Vec3),
}

/// Inherited rotation or movement: the source bone and the rate (a raw
/// float bit pattern).
#[derive(Copy, Clone, Debug, PartialEq)]
pub struct Additional {
    pub parent: i32,
    pub rate: u32,
}

/// A local coordinate frame: the x and z axis vectors.
#[derive(Copy, Clone, Debug, PartialEq)]
pub struct LocalAxis {
    pub x: Vec3,
    pub z: Vec3,
}

/// One link of an inverse-kinematics chain: the linked bone and its
/// optional angle limits (low and high vectors).
#[derive(Copy, Clone, Debug, PartialEq)]
pub struct IKLink {
    pub ik_bone: i32,
    pub limits: Option<(Vec3, Vec3)>,
}

/// The inverse-kinematics block: target bone, iteration count, limit
/// angle (a raw float bit pattern) and the count-prefixed link chain.
#[derive(Clone, Debug, PartialEq)]
pub struct InverseKinematics {
    pub ik_bone: i32,
    pub iterations: u32,
    pub limit_angle: u32,
    pub links: Vec<IKLink>,
}

/// The mathematical shape of an `InverseKinematics`: links as a sequence.
pub struct InverseKinematicsView {
    pub ik_bone: i32,
    pub iterations: u32,
    pub limit_angle: u32,
    pub links: Seq<IKLink>,
}

impl View for InverseKinematics {
    type V = InverseKinematicsView;

    open spec fn view(&self) -> InverseKinematicsView {
        InverseKinematicsView {
            ik_bone: self.ik_bone,
            iterations: self.iterations,
            limit_angle: self.limit_angle,
            links: self.links@,
        }
    }
}

/// One bone: names, rest position, parent, transform level, the flags
/// mask, and the five flag-gated optional field runs in fixed on-disk
/// order.
#[derive(Clone, Debug, PartialEq)]
pub struct Bone {
    pub local_name: String,
    pub universal_name: String,
    pub position: Vec3,
    pub parent: i32,
    pub transform_level: i32,
    pub bone_flags: u16,
    pub connection: Connection,
    pub additional: Option<Additional>,
    pub fixed_axis: Option<Vec3>,
    pub local_axis: Option<LocalAxis>,
    pub external_parent_transform: Option<i32>,
    pub inverse_kinematics: Option<InverseKinematics>,
}

impl Bone {
    /// Whether the given flag is set in this bone's mask.
    pub fn has_flag(&self, flag: BoneFlags) -> (r: bool)
        ensures
            r == (self.bone_flags & flag.mask() != 0),
    {
        self.bone_flags & flag.bit() != 0
    }
}

/// The mathematical shape of a `Bone`.
pub struct BoneView {
    pub local_name: Seq<char>,
    pub universal_name: Seq<char>,
    pub position: Vec3,
    pub parent: i32,
    pub transform_level: i32,
    pub bone_flags: u16,
    pub connection: Connection,
    pub additional: Option<Additional>,
    pub fixed_axis: Option<Vec3>,
    pub local_axis: Option<LocalAxis>,
    pub external_parent_transform: Option<i32>,
    pub inverse_kinematics: Option<InverseKinematicsView>,
}

impl View for Bone {
    type V = BoneView;

    open spec fn view(&self) -> BoneView {
        BoneView {
            local_name: self.local_name@,
            universal_name: self.universal_name@,
            position: self.position,
            parent: self.parent,
            transform_level: self.transform_level,
            bone_flags: self.bone_flags,
            connection: self.connection,
            additional: self.additional,
            fixed_axis: self.fixed_axis,
            local_axis: self.local_axis,
            external_parent_transform: self.external_parent_transform,
            inverse_kinematics: match self.inverse_kinematics {
                Some(ik) => Some(ik@),
                None => None,
            },
        }
    }
}

/// One inverse-kinematics link at `pos`: the bone index, a presence byte,
/// and — when the byte is non-zero — the low and high limit vectors.
pub open spec fn spec_ik_link(d: Seq<u8>, pos: int, s: Settings) -> Result<
    (IKLink, int),
    ErrorView,
> {
    match spec_index(d, pos, s.bone_index_size) {
        Err(e) => Err(e),
        Ok((ik_bone, p1)) => match spec_u8(d, p1) {
            Err(e) => Err(e),
            Ok((has_limits, p2)) => if has_limits != 0 {
                match spec_vec3(d, p2) {
                    Err(e) => Err(e),
                    Ok((low, p3)) => match spec_vec3(d, p3) {
                        Err(e) => Err(e),
                        Ok((high, p4)) => Ok((IKLink { ik_bone, limits: Some((low, high)) }, p4)),
                    },
                }
            } else {
                Ok((IKLink { ik_bone, limits: None }, p2))
            },
        },
    }
}

/// The step that parses one inverse-kinematics link.
pub open spec fn ik_link_step(d: Seq<u8>, s: Settings) -> spec_fn(int) -> Result<
    (IKLink, int),
    ErrorView,
> {
    |pos: int| spec_ik_link(d, pos, s)
}

/// The bone's tail field: an index when the Connection flag is set, an
/// offset vector otherwise. Always present, in one of the two shapes.
pub open spec fn spec_bone_connection(d: Seq<u8>, pos: int, s: Settings, flags: u16) -> Result<
    (Connection, int),
    ErrorView,
> {
    if flags & BoneFlags::Connection.mask() != 0 {
        match spec_index(d, pos, s.bone_index_size) {
            Err(e) => Err(e),
            Ok((i, p)) => Ok((Connection::Index(i), p)),
        }
    } else {
        match spec_vec3(d, pos) {
            Err(e) => Err(e),
            Ok((v, p)) => Ok((Connection::Position(v), p)),
        }
    }
}

/// The inherited rotation/movement pair, present exactly when the
/// AddRotation or AddMovement bit is set.
pub open spec fn spec_bone_additional(d: Seq<u8>, pos: int, s: Settings, flags: u16) -> Result<
    (Option<Additional>, int),
    ErrorView,
> {
    if flags & (BoneFlags::AddRotation.mask() | BoneFlags::AddMovement.mask()) != 0 {
        match spec_index(d, pos, s.bone_index_size) {
            Err(e) => Err(e),
            Ok((parent, p1)) => match spec_u32(d, p1) {
                Err(e) => Err(e),
                Ok((rate, p2)) => Ok((Some(Additional { parent, rate }), p2)),
            },
        }
    } else {
        Ok((None, pos))
    }
}

/// The fixed-axis vector, present exactly when the FixedAxis bit is set.
pub open spec fn spec_bone_fixed_axis(d: Seq<u8>, pos: int, flags: u16) -> Result<
    (Option<Vec3>, int),
    ErrorView,
> {
    if flags & BoneFlags::FixedAxis.mask() != 0 {
        match spec_vec3(d, pos) {
            Err(e) => Err(e),
            Ok((v, p)) => Ok((Some(v), p)),
        }
    } else {
        Ok((None, pos))
    }
}

/// The local-axis pair, present exactly when the LocalAxis bit is set.
pub open spec fn spec_bone_local_axis(d: Seq<u8>, pos: int, flags: u16) -> Result<
    (Option<LocalAxis>, int),
    ErrorView,
> {
    if flags & BoneFlags::LocalAxis.mask() != 0 {
        match spec_vec3(d, pos) {
            Err(e) => Err(e),
            Ok((x, p1)) => match spec_vec3(d, p1) {
                Err(e) => Err(e),
                Ok((z, p2)) => Ok((Some(LocalAxis { x, z }), p2)),
            },
        }
    } else {
        Ok((None, pos))
    }
}

/// The external-parent-transform field, present exactly when the
/// ExternalParentTransform bit is set.
pub open spec fn spec_bone_external_parent(d: Seq<u8>, pos: int, flags: u16) -> Result<
    (Option<i32>, int),
    ErrorView,
> {
    if flags & BoneFlags::ExternalParentTransform.mask() != 0 {
        match spec_i32(d, pos) {
            Err(e) => Err(e),
            Ok((v, p)) => Ok((Some(v), p)),
        }
    } else {
        Ok((None, pos))
    }
}

/// The inverse-kinematics block, present exactly when the
/// InverseKinematics bit is set: target bone, iteration count, limit
/// angle, then the count-prefixed link chain.
pub open spec fn spec_bone_ik(d: Seq<u8>, pos: int, s: Settings, flags: u16) -> Result<
    (Option<InverseKinematicsView>, int),
    ErrorView,
> {
    if flags & BoneFlags::InverseKinematics.mask() != 0 {
        match spec_index(d, pos, s.bone_index_size) {
            Err(e) => Err(e),
            Ok((ik_bone, p1)) => match spec_u32(d, p1) {
                Err(e) => Err(e),
                Ok((iterations, p2)) => match spec_u32(d, p2) {
                    Err(e) => Err(e),
                    Ok((limit_angle, p3)) => match spec_u32(d, p3) {
                        Err(e) => Err(e),
                        Ok((link_count, p4)) => match spec_records(
                            ik_link_step(d, s),
                            p4,
                            link_count as int,
                        ) {
                            Err(e) => Err(e),
                            Ok((links, p5)) => Ok(
                                (
                                    Some(
                                        InverseKinematicsView {
                                            ik_bone,
                                            iterations,
                                            limit_angle,
                                            links,
                                        },
                                    ),
                                    p5,
                                ),
                            ),
                        },
                    },
                },
            },
        }
    } else {
        Ok((None, pos))
    }
}

/// One bone record at `pos`: the fixed prefix fields, the flags mask,
/// then the flag-gated fields in fixed order regardless of which bits are
/// set.
#[verifier::opaque]
pub open spec fn spec_bone(d: Seq<u8>, pos: int, s: Settings) -> Result<(BoneView, int), ErrorView> {
    match spec_text(d, pos, s.text_encoding) {
        Err(e) => Err(e),
        Ok((local_name, p1)) => match spec_text(d, p1, s.text_encoding) {
            Err(e) => Err(e),
            Ok((universal_name, p2)) => match spec_vec3(d, p2) {
                Err(e) => Err(e),
                Ok((position, p3)) => match spec_index(d, p3, s.bone_index_size) {
                    Err(e) => Err(e),
                    Ok((parent, p4)) => match spec_i32(d, p4) {
                        Err(e) => Err(e),
                        Ok((transform_level, p5)) => match spec_u16(d, p5) {
                            Err(e) => Err(e),
                            Ok((bone_flags, p6)) => match spec_bone_connection(
                                d,
                                p6,
                                s,
                                bone_flags,
                            ) {
                                Err(e) => Err(e),
                                Ok((connection, p7)) => match spec_bone_additional(
                                    d,
                                    p7,
                                    s,
                                    bone_flags,
                                ) {
                                    Err(e) => Err(e),
                                    Ok((additional, p8)) => match spec_bone_fixed_axis(
                                        d,
                                        p8,
                                        bone_flags,
                                    ) {
                                        Err(e) => Err(e),
                                        Ok((fixed_axis, p9)) => match spec_bone_local_axis(
                                            d,
                                            p9,
                                            bone_flags,
                                        ) {
                                            Err(e) => Err(e),
                                            Ok((local_axis, p10)) => match spec_bone_external_parent(
                                                d,
                                                p10,
                                                bone_flags,
                                            ) {
                                                Err(e) => Err(e),
                                                Ok(
                                                    (external_parent_transform, p11),
                                                ) => match spec_bone_ik(d, p11, s, bone_flags) {
                                                    Err(e) => Err(e),
                                                    Ok((inverse_kinematics, p12)) => Ok(
                                                        (
                                                            BoneView {
                                                                local_name,
                                                                universal_name,
                                                                position,
                                                                parent,
                                                                transform_level,
                                                                bone_flags,
                                                                connection,
                                                                additional,
                                                                fixed_axis,
                                                                local_axis,
                                                                external_parent_transform,
                                                                inverse_kinematics,
                                                            },
                                                            p12,
                                                        ),
                                                    ),
                                                },
                                            },
                                        },
                                    },
                                },
                            },
                        },
                    },
                },
            },
        },
    }
}

/// The per-record step of the bone section.
pub open spec fn bone_step(d: Seq<u8>, s: Settings) -> spec_fn(int) -> Result<
    (BoneView, int),
    ErrorView,
> {
    |pos: int| spec_bone(d, pos, s)
}

/// Bone flag independence: in every decoded bone, each of the optional
/// fields is present exactly when its own gating bits are set in the
/// decoded flags mask, independently of every other bit; and the tail is
/// an index exactly when the Connection bit is set.
pub proof fn lemma_bone_flag_gating(d: Seq<u8>, pos: int, s: Settings)
    ensures
        spec_bone(d, pos, s) matches Ok((b, p)) ==> {
            &&& (b.connection is Index <==> b.bone_flags & BoneFlags::Connection.mask() != 0)
            &&& (b.additional is Some <==> b.bone_flags & (BoneFlags::AddRotation.mask()
                | BoneFlags::AddMovement.mask()) != 0)
            &&& (b.fixed_axis is Some <==> b.bone_flags & BoneFlags::FixedAxis.mask() != 0)
            &&& (b.local_axis is Some <==> b.bone_flags & BoneFlags::LocalAxis.mask() != 0)
            &&& (b.external_parent_transform is Some <==> b.bone_flags
                & BoneFlags::ExternalParentTransform.mask() != 0)
            &&& (b.inverse_kinematics is Some <==> b.bone_flags
                & BoneFlags::InverseKinematics.mask() != 0)
        },
{
    reveal(spec_bone);
}

} // verus!
