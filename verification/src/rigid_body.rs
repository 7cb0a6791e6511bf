//! The rigid-body record and its enums.

use vstd::prelude::*;

use crate::error::{Error, ErrorView};
use crate::parse::{spec_u16, spec_u32, spec_u8};
use crate::settings::Settings;
use crate::text::spec_text;
use crate::types::{spec_index, spec_vec3, Vec3};

verus! {

/// The collision shape of a rigid body.
#[derive(Copy, Clone, Debug, PartialEq, Eq)]
pub enum ShapeType {
    Sphere,
    Box,
    Capsule,
}

/// The meaning of the shape byte: 0 sphere, 1 box, 2 capsule, anything
/// else is rejected.
pub open spec fn spec_shape_type(value: u8) -> Result<ShapeType, ErrorView> {
    if value == 0 {
        Ok(ShapeType::Sphere)
    } else if value == 1 {
        Ok(ShapeType::Box)
    } else if value == 2 {
        Ok(ShapeType::Capsule)
    } else {
        Err(ErrorView::InvalidShapeType(value))
    }
}

impl ShapeType {
    /// Decode the shape byte.
    pub fn from_byte(value: u8) -> (r: Result<ShapeType, Error>)
        ensures
            match spec_shape_type(value) {
                Ok(t) => r == Ok::<ShapeType, Error>(t),
                Err(e) => r matches Err(er) && er@ == e,
            },
    {
        match value {
            0 => Ok(ShapeType::Sphere),
            1 => Ok(ShapeType::Box),
            2 => Ok(ShapeType::Capsule),
            e => Err(Error::InvalidShapeType(e)),
        }
    }
}

/// How the physics engine drives the rigid body.
#[derive(Copy, Clone, Debug, PartialEq, Eq)]
pub enum PhysicsMode {
    Static,
    Dynamic,
    DynamicPivoted,
}

/// The meaning of the physics-mode byte: 0 static, 1 dynamic, 2 dynamic
/// pivoted, anything else is rejected.
pub open spec fn spec_physics_mode(value: u8) -> Result<PhysicsMode, ErrorView> {
    if value == 0 {
        Ok(PhysicsMode::Static)
    } else if value == 1 {
        Ok(PhysicsMode::Dynamic)
    } else if value == 2 {
        Ok(PhysicsMode::DynamicPivoted)
    } else {
        Err(ErrorView::InvalidPhysicsMode(value))
    }
}

impl PhysicsMode {
    /// Decode the physics-mode byte.
    pub fn from_byte(value: u8) -> (r: Result<PhysicsMode, Error>)
        ensures
            match spec_physics_mode(value) {
                Ok(t) => r == Ok::<PhysicsMode, Error>(t),
                Err(e) => r matches Err(er) && er@ == e,
            },
    {
        match value {
            0 => Ok(PhysicsMode::Static),
            1 => Ok(PhysicsMode::Dynamic),
            2 => Ok(PhysicsMode::DynamicPivoted),
            e => Err(Error::InvalidPhysicsMode(e)),
        }
    }
}

/// One rigid body: names, the bound bone, collision group and mask, the
/// shape with its size and placement, the physics parameters (raw float
/// bit patterns) and the physics mode.
#[derive(Clone, Debug, PartialEq)]
pub struct RigidBody {
    pub local_name: String,
    pub universal_name: String,
    pub bone_index: i32,
    pub group_id: u8,
    pub non_collision_mask: u16,
    pub shape: ShapeType,
    pub shape_size: Vec3,
    pub shape_position: Vec3,
    pub shape_rotation: Vec3,
    pub mass: u32,
    pub move_attenuation: u32,
    pub rotation_damping: u32,
    pub repulsion: u32,
    pub fiction: u32,
    pub physics_mode: PhysicsMode,
}

/// The mathematical shape of a `RigidBody`.
pub struct RigidBodyView {
    pub local_name: Seq<char>,
    pub universal_name: Seq<char>,
    pub bone_index: i32,
    pub group_id: u8,
    pub non_collision_mask: u16,
    pub shape: ShapeType,
    pub shape_size: Vec3,
    pub shape_position: Vec3,
    pub shape_rotation: Vec3,
    pub mass: u32,
    pub move_attenuation: u32,
    pub rotation_damping: u32,
    pub repulsion: u32,
    pub fiction: u32,
    pub physics_mode: PhysicsMode,
}

impl View for RigidBody {
    type V = RigidBodyView;

    open spec fn view(&self) -> RigidBodyView {
        RigidBodyView {
            local_name: self.local_name@,
            universal_name: self.universal_name@,
            bone_index: self.bone_index,
            group_id: self.group_id,
            non_collision_mask: self.non_collision_mask,
            shape: self.shape,
            shape_size: self.shape_size,
            shape_position: self.shape_position,
            shape_rotation: self.shape_rotation,
            mass: self.mass,
            move_attenuation: self.move_attenuation,
            rotation_damping: self.rotation_damping,
            repulsion: self.repulsion,
            fiction: self.fiction,
            physics_mode: self.physics_mode,
        }
    }
}

/// One rigid-body record at `pos`, fields in fixed on-disk order.
#[verifier::opaque]
pub open spec fn spec_rigid_body(d: Seq<u8>, pos: int, s: Settings) -> Result<
    (RigidBodyView, int),
    ErrorView,
> {
    match spec_text(d, pos, s.text_encoding) {
        Err(e) => Err(e),
        Ok((local_name, p1)) => match spec_text(d, p1, s.text_encoding) {
            Err(e) => Err(e),
            Ok((universal_name, p2)) => match spec_index(d, p2, s.bone_index_size) {
                Err(e) => Err(e),
                Ok((bone_index, p3)) => match spec_u8(d, p3) {
                    Err(e) => Err(e),
                    Ok((group_id, p4)) => match spec_u16(d, p4) {
                        Err(e) => Err(e),
                        Ok((non_collision_mask, p5)) => match spec_u8(d, p5) {
                            Err(e) => Err(e),
                            Ok((sb, p6)) => match spec_shape_type(sb) {
                                Err(e) => Err(e),
                                Ok(shape) => match spec_vec3(d, p6) {
                                    Err(e) => Err(e),
                                    Ok((shape_size, p7)) => match spec_vec3(d, p7) {
                                        Err(e) => Err(e),
                                        Ok((shape_position, p8)) => match spec_vec3(d, p8) {
                                            Err(e) => Err(e),
                                            Ok((shape_rotation, p9)) => match spec_u32(d, p9) {
                                                Err(e) => Err(e),
                                                Ok((mass, p10)) => match spec_u32(d, p10) {
                                                    Err(e) => Err(e),
                                                    Ok((move_attenuation, p11)) => match spec_u32(
                                                        d,
                                                        p11,
                                                    ) {
                                                        Err(e) => Err(e),
                                                        Ok(
                                                            (rotation_damping, p12),
                                                        ) => match spec_u32(d, p12) {
                                                            Err(e) => Err(e),
                                                            Ok((repulsion, p13)) => match spec_u32(
                                                                d,
                                                                p13,
                                                            ) {
                                                                Err(e) => Err(e),
                                                                Ok((fiction, p14)) => match spec_u8(
                                                                    d,
                                                                    p14,
                                                                ) {
                                                                    Err(e) => Err(e),
                                                                    Ok(
                                                                        (pb, p15),
                                                                    ) => match spec_physics_mode(
                                                                        pb,
                                                                    ) {
                                                                        Err(e) => Err(e),
                                                                        Ok(physics_mode) => Ok(
                                                                            (
                                                                                RigidBodyView {
                                                                                    local_name,
                                                                                    universal_name,
                                                                                    bone_index,
                                                                                    group_id,
                                                                                    non_collision_mask,
                                                                                    shape,
                                                                                    shape_size,
                                                                                    shape_position,
                                                                                    shape_rotation,
                                                                                    mass,
                                                                                    move_attenuation,
                                                                                    rotation_damping,
                                                                                    repulsion,
                                                                                    fiction,
                                                                                    physics_mode,
                                                                                },
                                                                                p15,
                                                                            ),
                                                                        ),
                                                                    },
                                                                },
                                                            },
                                                        },
                                                    },
                                                },
                                            },
                                        },
                                    },
                                },
                            },
                        },
                    },
                },
            },
        },
    }
}

/// The per-record step of the rigid-body section.
pub open spec fn rigid_body_step(d: Seq<u8>, s: Settings) -> spec_fn(int) -> Result<
    (RigidBodyView, int),
    ErrorView,
> {
    |pos: int| spec_rigid_body(d, pos, s)
}

} // verus!
