//! The material record and its enums.

use vstd::prelude::*;

use crate::error::{Error, ErrorView};
use crate::parse::{spec_i32, spec_u32, spec_u8};
use crate::settings::Settings;
use crate::text::spec_text;
use crate::types::{spec_index, spec_vec3, spec_vec4, Vec3, Vec4};

verus! {

/// The bits of the material's 8-bit draw-flags mask.
#[derive(Copy, Clone, Debug, PartialEq, Eq)]
pub enum DrawingFlags {
    NoCull,
    GroundShadow,
    DrawShadow,
    ReceiveShadow,
    HasEdge,
    VertexColor,
    PointDrawing,
    LineDrawing,
}

impl DrawingFlags {
    /// The mask bit of this flag.
    pub open spec fn mask(self) -> u8 {
        match self {
            DrawingFlags::NoCull => 0x01,
            DrawingFlags::GroundShadow => 0x02,
            DrawingFlags::DrawShadow => 0x04,
            DrawingFlags::ReceiveShadow => 0x08,
            DrawingFlags::HasEdge => 0x10,
            DrawingFlags::VertexColor => 0x20,
            DrawingFlags::PointDrawing => 0x40,
            DrawingFlags::LineDrawing => 0x80,
        }
    }

    /// The mask bit of this flag.
    pub fn bit(self) -> (r: u8)
        ensures
            r == self.mask(),
    {
        match self {
            DrawingFlags::NoCull => 0x01,
            DrawingFlags::GroundShadow => 0x02,
            DrawingFlags::DrawShadow => 0x04,
            DrawingFlags::ReceiveShadow => 0x08,
            DrawingFlags::HasEdge => 0x10,
            DrawingFlags::VertexColor => 0x20,
            DrawingFlags::PointDrawing => 0x40,
            DrawingFlags::LineDrawing => 0x80,
        }
    }
}

/// How the environment (sphere) texture blends with the material.
#[derive(Copy, Clone, Debug, PartialEq, Eq)]
pub enum EnvironmentBlendMode {
    Disabled,
    Multiply,
    Additive,
    AdditionalVec4,
}

/// The meaning of the environment-blend-mode byte: 0 to 3 select the four
/// modes in order, anything else is rejected.
pub open spec fn spec_environment_blend_mode(value: u8) -> Result<
    EnvironmentBlendMode,
    ErrorView,
> {
    if value == 0 {
        Ok(EnvironmentBlendMode::Disabled)
    } else if value == 1 {
        Ok(EnvironmentBlendMode::Multiply)
    } else if value == 2 {
        Ok(EnvironmentBlendMode::Additive)
    } else if value == 3 {
        Ok(EnvironmentBlendMode::AdditionalVec4)
    } else {
        Err(ErrorView::InvalidEnvironmentBlendMode(value))
    }
}

impl EnvironmentBlendMode {
    /// Decode the environment-blend-mode byte.
    pub fn from_byte(value: u8) -> (r: Result<EnvironmentBlendMode, Error>)
        ensures
            match spec_environment_blend_mode(value) {
                Ok(t) => r == Ok::<EnvironmentBlendMode, Error>(t),
                Err(e) => r matches Err(er) && er@ == e,
            },
    {
        match value {
            0 => Ok(EnvironmentBlendMode::Disabled),
            1 => Ok(EnvironmentBlendMode::Multiply),
            2 => Ok(EnvironmentBlendMode::Additive),
            3 => Ok(EnvironmentBlendMode::AdditionalVec4),
            e => Err(Error::InvalidEnvironmentBlendMode(e)),
        }
    }
}

/// The material's toon reference: an indexed toon texture, or one of the
/// 256 internal toons.
#[derive(Copy, Clone, Debug, PartialEq, Eq)]
pub enum Toon {
    Texture(i32),
    Internal(u8),
}

/// One material: names, colors (raw float bit patterns), the draw-flags
/// mask, texture references, the toon reference, free-form metadata, and
/// the number of surface index slots this material covers.
#[derive(Clone, Debug, PartialEq)]
pub struct Material {
    pub local_name: String,
    pub universal_name: String,
    pub diffuse_color: Vec4,
    pub specular_color: Vec3,
    pub specular_strength: u32,
    pub ambient_color: Vec3,
    pub draw_flags: u8,
    pub edge_color: Vec4,
    pub edge_scale: u32,
    pub texture_index: i32,
    pub environment_index: i32,
    pub environment_blend_mode: EnvironmentBlendMode,
    pub toon: Toon,
    pub metadata: String,
    pub surface_count: i32,
}

impl Material {
    /// Whether the given draw flag is set in this material's mask.
    pub fn has_draw_flag(&self, flag: DrawingFlags) -> (r: bool)
        ensures
            r == (self.draw_flags & flag.mask() != 0),
    {
        self.draw_flags & flag.bit() != 0
    }
}

/// The mathematical shape of a `Material`: strings as character
/// sequences.
pub struct MaterialView {
    pub local_name: Seq<char>,
    pub universal_name: Seq<char>,
    pub diffuse_color: Vec4,
    pub specular_color: Vec3,
    pub specular_strength: u32,
    pub ambient_color: Vec3,
    pub draw_flags: u8,
    pub edge_color: Vec4,
    pub edge_scale: u32,
    pub texture_index: i32,
    pub environment_index: i32,
    pub environment_blend_mode: EnvironmentBlendMode,
    pub toon: Toon,
    pub metadata: Seq<char>,
    pub surface_count: i32,
}

impl View for Material {
    type V = MaterialView;

    open spec fn view(&self) -> MaterialView {
        MaterialView {
            local_name: self.local_name@,
            universal_name: self.universal_name@,
            diffuse_color: self.diffuse_color,
            specular_color: self.specular_color,
            specular_strength: self.specular_strength,
            ambient_color: self.ambient_color,
            draw_flags: self.draw_flags,
            edge_color: self.edge_color,
            edge_scale: self.edge_scale,
            texture_index: self.texture_index,
            environment_index: self.environment_index,
            environment_blend_mode: self.environment_blend_mode,
            toon: self.toon,
            metadata: self.metadata@,
            surface_count: self.surface_count,
        }
    }
}

/// One material record at `pos`, fields in fixed on-disk order; the toon
/// reference's discriminant byte selects an indexed texture (0) or an
/// internal toon id (1), anything else is rejected.
#[verifier::opaque]
pub open spec fn spec_material(d: Seq<u8>, pos: int, s: Settings) -> Result<
    (MaterialView, int),
    ErrorView,
> {
    match spec_text(d, pos, s.text_encoding) {
        Err(e) => Err(e),
        Ok((local_name, p1)) => match spec_text(d, p1, s.text_encoding) {
            Err(e) => Err(e),
            Ok((universal_name, p2)) => match spec_vec4(d, p2) {
                Err(e) => Err(e),
                Ok((diffuse_color, p3)) => match spec_vec3(d, p3) {
                    Err(e) => Err(e),
                    Ok((specular_color, p4)) => match spec_u32(d, p4) {
                        Err(e) => Err(e),
                        Ok((specular_strength, p5)) => match spec_vec3(d, p5) {
                            Err(e) => Err(e),
                            Ok((ambient_color, p6)) => match spec_u8(d, p6) {
                                Err(e) => Err(e),
                                Ok((draw_flags, p7)) => match spec_vec4(d, p7) {
                                    Err(e) => Err(e),
                                    Ok((edge_color, p8)) => match spec_u32(d, p8) {
                                        Err(e) => Err(e),
                                        Ok((edge_scale, p9)) => match spec_index(
                                            d,
                                            p9,
                                            s.texture_index_size,
                                        ) {
                                            Err(e) => Err(e),
                                            Ok((texture_index, p10)) => match spec_index(
                                                d,
                                                p10,
                                                s.texture_index_size,
                                            ) {
                                                Err(e) => Err(e),
                                                Ok((environment_index, p11)) => match spec_u8(
                                                    d,
                                                    p11,
                                                ) {
                                                    Err(e) => Err(e),
                                                    Ok((blend_byte, p12)) => match spec_environment_blend_mode(
                                                        blend_byte,
                                                    ) {
                                                        Err(e) => Err(e),
                                                        Ok(environment_blend_mode) => match spec_toon(
                                                            d,
                                                            p12,
                                                            s,
                                                        ) {
                                                            Err(e) => Err(e),
                                                            Ok((toon, p13)) => match spec_text(
                                                                d,
                                                                p13,
                                                                s.text_encoding,
                                                            ) {
                                                                Err(e) => Err(e),
                                                                Ok((metadata, p14)) => match spec_i32(
                                                                    d,
                                                                    p14,
                                                                ) {
                                                                    Err(e) => Err(e),
                                                                    Ok(
                                                                        (surface_count, p15),
                                                                    ) => Ok(
                                                                        (
                                                                            MaterialView {
                                                                                local_name,
                                                                                universal_name,
                                                                                diffuse_color,
                                                                                specular_color,
                                                                                specular_strength,
                                                                                ambient_color,
                                                                                draw_flags,
                                                                                edge_color,
                                                                                edge_scale,
                                                                                texture_index,
                                                                                environment_index,
                                                                                environment_blend_mode,
                                                                                toon,
                                                                                metadata,
                                                                                surface_count,
                                                                            },
                                                                            p15,
                                                                        ),
                                                                    ),
                                                                },
                                                            },
                                                        },
                                                    },
                                                },
                                            },
                                        },
                                    },
                                },
                            },
                        },
                    },
                },
            },
        },
    }
}

/// The toon reference at `pos`: a discriminant byte, then an indexed toon
/// texture (0) or an internal toon id byte (1).
pub open spec fn spec_toon(d: Seq<u8>, pos: int, s: Settings) -> Result<(Toon, int), ErrorView> {
    match spec_u8(d, pos) {
        Err(e) => Err(e),
        Ok((tb, p)) => if tb == 0 {
            match spec_index(d, p, s.texture_index_size) {
                Err(e) => Err(e),
                Ok((ti, p1)) => Ok((Toon::Texture(ti), p1)),
            }
        } else if tb == 1 {
            match spec_u8(d, p) {
                Err(e) => Err(e),
                Ok((id, p1)) => Ok((Toon::Internal(id), p1)),
            }
        } else {
            Err(ErrorView::InvalidToonReference(tb))
        },
    }
}

/// The per-record step of the material section.
pub open spec fn material_step(d: Seq<u8>, s: Settings) -> spec_fn(int) -> Result<
    (MaterialView, int),
    ErrorView,
> {
    |pos: int| spec_material(d, pos, s)
}

} // verus!
