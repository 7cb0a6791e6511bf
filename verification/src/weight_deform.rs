//! The vertex-to-bone binding union: five variants selected by a
//! discriminant byte, each with its own fixed field set.

use vstd::prelude::*;

use crate::error::ErrorView;
use crate::parse::{spec_u32, spec_u8};
use crate::settings::Settings;
use crate::types::{spec_index, spec_vec3, Vec3};

verus! {

/// Binding to a single bone.
#[derive(Copy, Clone, Debug, PartialEq)]
pub struct Bdef1 {
    pub bone_index: i32,
}

/// Binding to two bones; the second bone's weight is the complement of the
/// first.
#[derive(Copy, Clone, Debug, PartialEq)]
pub struct Bdef2 {
    pub bone_1_index: i32,
    pub bone_2_index: i32,
    pub bone_1_weight: u32,
}

/// Binding to four bones with one weight each.
#[derive(Copy, Clone, Debug, PartialEq)]
pub struct Bdef4 {
    pub bone_1_index: i32,
    pub bone_2_index: i32,
    pub bone_3_index: i32,
    pub bone_4_index: i32,
    pub bone_1_weight: u32,
    pub bone_2_weight: u32,
    pub bone_3_weight: u32,
    pub bone_4_weight: u32,
}

/// Spherical binding to two bones, with three extra correction vectors.
#[derive(Copy, Clone, Debug, PartialEq)]
pub struct Sdef {
    pub bone_1_index: i32,
    pub bone_2_index: i32,
    pub bone_1_weight: u32,
    pub c: Vec3,
    pub r0: Vec3,
    pub r1: Vec3,
}

/// Dual-quaternion binding to four bones with one weight each.
#[derive(Copy, Clone, Debug, PartialEq)]
pub struct Qdef {
    pub bone_1_index: i32,
    pub bone_2_index: i32,
    pub bone_3_index: i32,
    pub bone_4_index: i32,
    pub bone_1_weight: u32,
    pub bone_2_weight: u32,
    pub bone_3_weight: u32,
    pub bone_4_weight: u32,
}

/// The weight-deform union. On disk: one discriminant byte (0 to 4), then
/// the selected variant's fields.
#[derive(Copy, Clone, Debug, PartialEq)]
pub enum WeightDeform {
    Bdef1(Bdef1),
    Bdef2(Bdef2),
    Bdef4(Bdef4),
    Sdef(Sdef),
    Qdef(Qdef),
}

/// The discriminant byte that selects each variant.
pub open spec fn weight_deform_tag(w: WeightDeform) -> u8 {
    match w {
        WeightDeform::Bdef1(_) => 0,
        WeightDeform::Bdef2(_) => 1,
        WeightDeform::Bdef4(_) => 2,
        WeightDeform::Sdef(_) => 3,
        WeightDeform::Qdef(_) => 4,
    }
}

/// The weight-deform union at `pos`: the discriminant byte selects which
/// field run follows; a byte of 5 or more is an unknown-weight-type error
/// carrying that byte.
#[verifier::opaque]
pub open spec fn spec_weight_deform(d: Seq<u8>, pos: int, s: Settings) -> Result<
    (WeightDeform, int),
    ErrorView,
> {
    match spec_u8(d, pos) {
        Err(e) => Err(e),
        Ok((t, p)) => if t == 0 {
            match spec_index(d, p, s.bone_index_size) {
                Err(e) => Err(e),
                Ok((bone_index, p1)) => Ok((WeightDeform::Bdef1(Bdef1 { bone_index }), p1)),
            }
        } else if t == 1 {
            match spec_index(d, p, s.bone_index_size) {
                Err(e) => Err(e),
                Ok((bone_1_index, p1)) => match spec_index(d, p1, s.bone_index_size) {
                    Err(e) => Err(e),
                    Ok((bone_2_index, p2)) => match spec_u32(d, p2) {
                        Err(e) => Err(e),
                        Ok((bone_1_weight, p3)) => Ok(
                            (
                                WeightDeform::Bdef2(
                                    Bdef2 { bone_1_index, bone_2_index, bone_1_weight },
                                ),
                                p3,
                            ),
                        ),
                    },
                },
            }
        } else if t == 2 {
            match spec_index(d, p, s.bone_index_size) {
                Err(e) => Err(e),
                Ok((bone_1_index, p1)) => match spec_index(d, p1, s.bone_index_size) {
                    Err(e) => Err(e),
                    Ok((bone_2_index, p2)) => match spec_index(d, p2, s.bone_index_size) {
                        Err(e) => Err(e),
                        Ok((bone_3_index, p3)) => match spec_index(d, p3, s.bone_index_size) {
                            Err(e) => Err(e),
                            Ok((bone_4_index, p4)) => match spec_u32(d, p4) {
                                Err(e) => Err(e),
                                Ok((bone_1_weight, p5)) => match spec_u32(d, p5) {
                                    Err(e) => Err(e),
                                    Ok((bone_2_weight, p6)) => match spec_u32(d, p6) {
                                        Err(e) => Err(e),
                                        Ok((bone_3_weight, p7)) => match spec_u32(d, p7) {
                                            Err(e) => Err(e),
                                            Ok((bone_4_weight, p8)) => Ok(
                                                (
                                                    WeightDeform::Bdef4(
                                                        Bdef4 {
                                                            bone_1_index,
                                                            bone_2_index,
                                                            bone_3_index,
                                                            bone_4_index,
                                                            bone_1_weight,
                                                            bone_2_weight,
                                                            bone_3_weight,
                                                            bone_4_weight,
                                                        },
                                                    ),
                                                    p8,
                                                ),
                                            ),
                                        },
                                    },
                                },
                            },
                        },
                    },
                },
            }
        } else if t == 3 {
            match spec_index(d, p, s.bone_index_size) {
                Err(e) => Err(e),
                Ok((bone_1_index, p1)) => match spec_index(d, p1, s.bone_index_size) {
                    Err(e) => Err(e),
                    Ok((bone_2_index, p2)) => match spec_u32(d, p2) {
                        Err(e) => Err(e),
                        Ok((bone_1_weight, p3)) => match spec_vec3(d, p3) {
                            Err(e) => Err(e),
                            Ok((c, p4)) => match spec_vec3(d, p4) {
                                Err(e) => Err(e),
                                Ok((r0, p5)) => match spec_vec3(d, p5) {
                                    Err(e) => Err(e),
                                    Ok((r1, p6)) => Ok(
                                        (
                                            WeightDeform::Sdef(
                                                Sdef {
                                                    bone_1_index,
                                                    bone_2_index,
                                                    bone_1_weight,
                                                    c,
                                                    r0,
                                                    r1,
                                                },
                                            ),
                                            p6,
                                        ),
                                    ),
                                },
                            },
                        },
                    },
                },
            }
        } else if t == 4 {
            match spec_index(d, p, s.bone_index_size) {
                Err(e) => Err(e),
                Ok((bone_1_index, p1)) => match spec_index(d, p1, s.bone_index_size) {
                    Err(e) => Err(e),
                    Ok((bone_2_index, p2)) => match spec_index(d, p2, s.bone_index_size) {
                        Err(e) => Err(e),
                        Ok((bone_3_index, p3)) => match spec_index(d, p3, s.bone_index_size) {
                            Err(e) => Err(e),
                            Ok((bone_4_index, p4)) => match spec_u32(d, p4) {
                                Err(e) => Err(e),
                                Ok((bone_1_weight, p5)) => match spec_u32(d, p5) {
                                    Err(e) => Err(e),
                                    Ok((bone_2_weight, p6)) => match spec_u32(d, p6) {
                                        Err(e) => Err(e),
                                        Ok((bone_3_weight, p7)) => match spec_u32(d, p7) {
                                            Err(e) => Err(e),
                                            Ok((bone_4_weight, p8)) => Ok(
                                                (
                                                    WeightDeform::Qdef(
                                                        Qdef {
                                                            bone_1_index,
                                                            bone_2_index,
                                                            bone_3_index,
                                                            bone_4_index,
                                                            bone_1_weight,
                                                            bone_2_weight,
                                                            bone_3_weight,
                                                            bone_4_weight,
                                                        },
                                                    ),
                                                    p8,
                                                ),
                                            ),
                                        },
                                    },
                                },
                            },
                        },
                    },
                },
            }
        } else {
            Err(ErrorView::UnknownWeightType(t))
        },
    }
}

/// Each weight-deform discriminant byte 0 to 4 produces exactly the
/// matching variant, whatever else the stream holds; a byte of 5 or more
/// always yields the unknown-weight-type error carrying that byte.
pub proof fn lemma_weight_deform_dispatch(d: Seq<u8>, pos: int, s: Settings)
    ensures
        (match spec_u8(d, pos) {
            Ok((t, p)) => {
                &&& (spec_weight_deform(d, pos, s) matches Ok((w, pe)) ==> weight_deform_tag(w)
                    == t)
                &&& (t >= 5 ==> spec_weight_deform(d, pos, s) == Err::<
                    (WeightDeform, int),
                    ErrorView,
                >(ErrorView::UnknownWeightType(t)))
            },
            Err(e) => spec_weight_deform(d, pos, s) == Err::<(WeightDeform, int), ErrorView>(e),
        }),
{
    reveal(spec_weight_deform);
}

} // verus!
