//! The joint record and its kind enum; the terminal section of the
//! stream.

use vstd::prelude::*;

use crate::error::{Error, ErrorView};
use crate::parse::spec_u8;
use crate::settings::Settings;
use crate::text::spec_text;
use crate::types::{spec_index, spec_vec3, Vec3};

verus! {

/// The constraint kind of a joint.
#[derive(Copy, Clone, Debug, PartialEq, Eq)]
pub enum JointType {
    SpringFree,
    Free,
    P2P,
    ConeTwist,
    Slider,
    Hinge,
}

/// The meaning of the joint-type byte: 0 to 5 select the six kinds in
/// declaration order, anything else is rejected.
pub open spec fn spec_joint_type(value: u8) -> Result<JointType, ErrorView> {
    if value == 0 {
        Ok(JointType::SpringFree)
    } else if value == 1 {
        Ok(JointType::Free)
    } else if value == 2 {
        Ok(JointType::P2P)
    } else if value == 3 {
        Ok(JointType::ConeTwist)
    } else if value == 4 {
        Ok(JointType::Slider)
    } else if value == 5 {
        Ok(JointType::Hinge)
    } else {
        Err(ErrorView::InvalidJointType(value))
    }
}

impl JointType {
    /// Decode the joint-type byte.
    pub fn from_byte(value: u8) -> (r: Result<JointType, Error>)
        ensures
            match spec_joint_type(value) {
                Ok(t) => r == Ok::<JointType, Error>(t),
                Err(e) => r matches Err(er) && er@ == e,
            },
    {
        match value {
            0 => Ok(JointType::SpringFree),
            1 => Ok(JointType::Free),
            2 => Ok(JointType::P2P),
            3 => Ok(JointType::ConeTwist),
            4 => Ok(JointType::Slider),
            5 => Ok(JointType::Hinge),
            e => Err(Error::InvalidJointType(e)),
        }
    }
}

/// One physics joint: names, kind, the two rigid bodies it connects, and
/// its placement, limits and springs (raw float bit patterns).
#[derive(Clone, Debug, PartialEq)]
pub struct Joint {
    pub local_name: String,
    pub universal_name: String,
    pub joint_type: JointType,
    pub rigid_body_a: i32,
    pub rigid_body_b: i32,
    pub position: Vec3,
    pub rotation: Vec3,
    pub position_min: Vec3,
    pub position_max: Vec3,
    pub rotation_min: Vec3,
    pub rotation_max: Vec3,
    pub position_spring: Vec3,
    pub rotation_spring: Vec3,
}

/// The mathematical shape of a `Joint`.
pub struct JointView {
    pub local_name: Seq<char>,
    pub universal_name: Seq<char>,
    pub joint_type: JointType,
    pub rigid_body_a: i32,
    pub rigid_body_b: i32,
    pub position: Vec3,
    pub rotation: Vec3,
    pub position_min: Vec3,
    pub position_max: Vec3,
    pub rotation_min: Vec3,
    pub rotation_max: Vec3,
    pub position_spring: Vec3,
    pub rotation_spring: Vec3,
}

impl View for Joint {
    type V = JointView;

    open spec fn view(&self) -> JointView {
        JointView {
            local_name: self.local_name@,
            universal_name: self.universal_name@,
            joint_type: self.joint_type,
            rigid_body_a: self.rigid_body_a,
            rigid_body_b: self.rigid_body_b,
            position: self.position,
            rotation: self.rotation,
            position_min: self.position_min,
            position_max: self.position_max,
            rotation_min: self.rotation_min,
            rotation_max: self.rotation_max,
            position_spring: self.position_spring,
            rotation_spring: self.rotation_spring,
        }
    }
}

/// One joint record at `pos`, fields in fixed on-disk order.
#[verifier::opaque]
pub open spec fn spec_joint(d: Seq<u8>, pos: int, s: Settings) -> Result<
    (JointView, int),
    ErrorView,
> {
    match spec_text(d, pos, s.text_encoding) {
        Err(e) => Err(e),
        Ok((local_name, p1)) => match spec_text(d, p1, s.text_encoding) {
            Err(e) => Err(e),
            Ok((universal_name, p2)) => match spec_u8(d, p2) {
                Err(e) => Err(e),
                Ok((jb, p3)) => match spec_joint_type(jb) {
                    Err(e) => Err(e),
                    Ok(joint_type) => match spec_index(d, p3, s.rigidbody_index_size) {
                        Err(e) => Err(e),
                        Ok((rigid_body_a, p4)) => match spec_index(d, p4, s.rigidbody_index_size) {
                            Err(e) => Err(e),
                            Ok((rigid_body_b, p5)) => match spec_vec3(d, p5) {
                                Err(e) => Err(e),
                                Ok((position, p6)) => match spec_vec3(d, p6) {
                                    Err(e) => Err(e),
                                    Ok((rotation, p7)) => match spec_vec3(d, p7) {
                                        Err(e) => Err(e),
                                        Ok((position_min, p8)) => match spec_vec3(d, p8) {
                                            Err(e) => Err(e),
                                            Ok((position_max, p9)) => match spec_vec3(d, p9) {
                                                Err(e) => Err(e),
                                                Ok((rotation_min, p10)) => match spec_vec3(
                                                    d,
                                                    p10,
                                                ) {
                                                    Err(e) => Err(e),
                                                    Ok((rotation_max, p11)) => match spec_vec3(
                                                        d,
                                                        p11,
                                                    ) {
                                                        Err(e) => Err(e),
                                                        Ok(
                                                            (position_spring, p12),
                                                        ) => match spec_vec3(d, p12) {
                                                            Err(e) => Err(e),
                                                            Ok((rotation_spring, p13)) => Ok(
                                                                (
                                                                    JointView {
                                                                        local_name,
                                                                        universal_name,
                                                                        joint_type,
                                                                        rigid_body_a,
                                                                        rigid_body_b,
                                                                        position,
                                                                        rotation,
                                                                        position_min,
                                                                        position_max,
                                                                        rotation_min,
                                                                        rotation_max,
                                                                        position_spring,
                                                                        rotation_spring,
                                                                    },
                                                                    p13,
                                                                ),
                                                            ),
                                                        },
                                                    },
                                                },
                                            },
                                        },
                                    },
                                },
                            },
                        },
                    },
                },
            },
        },
    }
}

/// The per-record step of the joint section.
pub open spec fn joint_step(d: Seq<u8>, s: Settings) -> spec_fn(int) -> Result<
    (JointView, int),
    ErrorView,
> {
    |pos: int| spec_joint(d, pos, s)
}

} // verus!
