//! The morph record: eleven offset-list variants selected by a
//! discriminant byte.

use vstd::prelude::*;

use crate::error::{Error, ErrorView};
use crate::parse::{lemma_spec_records_len, spec_records, spec_u32, spec_u8};
use crate::settings::Settings;
use crate::text::spec_text;
use crate::types::{spec_index, spec_vertex_index, spec_vec3, spec_vec4, Vec3, Vec4};

verus! {

/// The UI panel a morph is shown under. Bytes 0 to 4 select the named
/// panels; any other byte is kept as-is rather than rejected.
#[derive(Copy, Clone, Debug, PartialEq, Eq)]
pub enum Panel {
    Hidden,
    Eyebrows,
    Eyes,
    Mouth,
    Other,
    Unknown(u8),
}

/// The meaning of the panel byte. Total: unknown bytes map to
/// `Panel::Unknown`.
pub open spec fn spec_panel(value: u8) -> Panel {
    if value == 0 {
        Panel::Hidden
    } else if value == 1 {
        Panel::Eyebrows
    } else if value == 2 {
        Panel::Eyes
    } else if value == 3 {
        Panel::Mouth
    } else if value == 4 {
        Panel::Other
    } else {
        Panel::Unknown(value)
    }
}

impl Panel {
    /// Decode the panel byte; never fails.
    pub fn from_byte(value: u8) -> (r: Panel)
        ensures
            r == spec_panel(value),
    {
        match value {
            0 => Panel::Hidden,
            1 => Panel::Eyebrows,
            2 => Panel::Eyes,
            3 => Panel::Mouth,
            4 => Panel::Other,
            panel => Panel::Unknown(panel),
        }
    }
}

/// How a material offset combines with the material's own values.
#[derive(Copy, Clone, Debug, PartialEq, Eq)]
pub enum OffsetMethod {
    Multiply,
    Additive,
}

/// The meaning of the offset-method byte: 0 multiplies, 1 adds, anything
/// else is rejected.
pub open spec fn spec_offset_method(value: u8) -> Result<OffsetMethod, ErrorView> {
    if value == 0 {
        Ok(OffsetMethod::Multiply)
    } else if value == 1 {
        Ok(OffsetMethod::Additive)
    } else {
        Err(ErrorView::InvalidMaterialOffsetMethod(value))
    }
}

impl OffsetMethod {
    /// Decode the offset-method byte.
    pub fn from_byte(value: u8) -> (r: Result<OffsetMethod, Error>)
        ensures
            match spec_offset_method(value) {
                Ok(t) => r == Ok::<OffsetMethod, Error>(t),
                Err(e) => r matches Err(er) && er@ == e,
            },
    {
        match value {
            0 => Ok(OffsetMethod::Multiply),
            1 => Ok(OffsetMethod::Additive),
            e => Err(Error::InvalidMaterialOffsetMethod(e)),
        }
    }
}

/// A group (or flip) morph entry: another morph and its influence rate.
#[derive(Copy, Clone, Debug, PartialEq)]
pub struct GroupOffset {
    pub morph: i32,
    pub influence: u32,
}

/// A vertex morph entry: the vertex and its position offset.
#[derive(Copy, Clone, Debug, PartialEq)]
pub struct VertexOffset {
    pub vertex: i32,
    pub offset: Vec3,
}

/// A bone morph entry: the bone, its translation and its rotation.
#[derive(Copy, Clone, Debug, PartialEq)]
pub struct BoneOffset {
    pub bone: i32,
    pub translation: Vec3,
    pub rotation: Vec4,
}

/// A UV morph entry: the vertex and its UV offset.
#[derive(Copy, Clone, Debug, PartialEq)]
pub struct UVOffset {
    pub vertex: i32,
    pub offset: Vec4,
}

/// A material morph entry: the material and the color adjustments.
#[derive(Copy, Clone, Debug, PartialEq)]
pub struct MaterialOffset {
    pub material: i32,
    pub method: OffsetMethod,
    pub diffuse_color: Vec4,
    pub specular_color: Vec3,
    pub specular_strength: u32,
    pub ambient_color: Vec3,
    pub edge_color: Vec4,
    pub edge_scale: u32,
    pub texture_tint: Vec4,
    pub environment_tint: Vec4,
    pub toon_tint: Vec4,
}

/// An impulse morph entry: the rigid body, whether the impulse is in
/// local coordinates, and the velocity and torque to apply.
#[derive(Copy, Clone, Debug, PartialEq)]
pub struct ImpulseOffset {
    pub rigid_body: i32,
    pub local: bool,
    pub velocity: Vec3,
    pub torque: Vec3,
}

/// The morph's offset list, in the variant selected by the morph-type
/// discriminant byte (0 to 10 in declaration order).
#[derive(Clone, Debug, PartialEq)]
pub enum Offsets {
    Group(Vec<GroupOffset>),
    Vertex(Vec<VertexOffset>),
    Bone(Vec<BoneOffset>),
    UV(Vec<UVOffset>),
    AdditionalUV1(Vec<UVOffset>),
    AdditionalUV2(Vec<UVOffset>),
    AdditionalUV3(Vec<UVOffset>),
    AdditionalUV4(Vec<UVOffset>),
    Material(Vec<MaterialOffset>),
    Flip(Vec<GroupOffset>),
    Impulse(Vec<ImpulseOffset>),
}

/// The mathematical shape of `Offsets`: lists as sequences.
pub enum OffsetsView {
    Group(Seq<GroupOffset>),
    Vertex(Seq<VertexOffset>),
    Bone(Seq<BoneOffset>),
    UV(Seq<UVOffset>),
    AdditionalUV1(Seq<UVOffset>),
    AdditionalUV2(Seq<UVOffset>),
    AdditionalUV3(Seq<UVOffset>),
    AdditionalUV4(Seq<UVOffset>),
    Material(Seq<MaterialOffset>),
    Flip(Seq<GroupOffset>),
    Impulse(Seq<ImpulseOffset>),
}

impl View for Offsets {
    type V = OffsetsView;

    open spec fn view(&self) -> OffsetsView {
        match self {
            Offsets::Group(v) => OffsetsView::Group(v@),
            Offsets::Vertex(v) => OffsetsView::Vertex(v@),
            Offsets::Bone(v) => OffsetsView::Bone(v@),
            Offsets::UV(v) => OffsetsView::UV(v@),
            Offsets::AdditionalUV1(v) => OffsetsView::AdditionalUV1(v@),
            Offsets::AdditionalUV2(v) => OffsetsView::AdditionalUV2(v@),
            Offsets::AdditionalUV3(v) => OffsetsView::AdditionalUV3(v@),
            Offsets::AdditionalUV4(v) => OffsetsView::AdditionalUV4(v@),
            Offsets::Material(v) => OffsetsView::Material(v@),
            Offsets::Flip(v) => OffsetsView::Flip(v@),
            Offsets::Impulse(v) => OffsetsView::Impulse(v@),
        }
    }
}

/// The discriminant byte that selects each offset variant.
pub open spec fn offsets_tag(o: OffsetsView) -> u8 {
    match o {
        OffsetsView::Group(_) => 0,
        OffsetsView::Vertex(_) => 1,
        OffsetsView::Bone(_) => 2,
        OffsetsView::UV(_) => 3,
        OffsetsView::AdditionalUV1(_) => 4,
        OffsetsView::AdditionalUV2(_) => 5,
        OffsetsView::AdditionalUV3(_) => 6,
        OffsetsView::AdditionalUV4(_) => 7,
        OffsetsView::Material(_) => 8,
        OffsetsView::Flip(_) => 9,
        OffsetsView::Impulse(_) => 10,
    }
}

/// The number of entries an offset list holds.
pub open spec fn offsets_len(o: OffsetsView) -> nat {
    match o {
        OffsetsView::Group(v) => v.len(),
        OffsetsView::Vertex(v) => v.len(),
        OffsetsView::Bone(v) => v.len(),
        OffsetsView::UV(v) => v.len(),
        OffsetsView::AdditionalUV1(v) => v.len(),
        OffsetsView::AdditionalUV2(v) => v.len(),
        OffsetsView::AdditionalUV3(v) => v.len(),
        OffsetsView::AdditionalUV4(v) => v.len(),
        OffsetsView::Material(v) => v.len(),
        OffsetsView::Flip(v) => v.len(),
        OffsetsView::Impulse(v) => v.len(),
    }
}

/// One morph: names, panel, and the offset list.
#[derive(Clone, Debug, PartialEq)]
pub struct Morph {
    pub local_name: String,
    pub universal_name: String,
    pub panel: Panel,
    pub offsets: Offsets,
}

/// The mathematical shape of a `Morph`.
pub struct MorphView {
    pub local_name: Seq<char>,
    pub universal_name: Seq<char>,
    pub panel: Panel,
    pub offsets: OffsetsView,
}

impl View for Morph {
    type V = MorphView;

    open spec fn view(&self) -> MorphView {
        MorphView {
            local_name: self.local_name@,
            universal_name: self.universal_name@,
            panel: self.panel,
            offsets: self.offsets@,
        }
    }
}

/// One group (or flip) morph entry at `pos`.
pub open spec fn spec_group_offset(d: Seq<u8>, pos: int, s: Settings) -> Result<
    (GroupOffset, int),
    ErrorView,
> {
    match spec_index(d, pos, s.morph_index_size) {
        Err(e) => Err(e),
        Ok((morph, p1)) => match spec_u32(d, p1) {
            Err(e) => Err(e),
            Ok((influence, p2)) => Ok((GroupOffset { morph, influence }, p2)),
        },
    }
}

/// One vertex morph entry at `pos`.
pub open spec fn spec_vertex_offset(d: Seq<u8>, pos: int, s: Settings) -> Result<
    (VertexOffset, int),
    ErrorView,
> {
    match spec_vertex_index(d, pos, s.vertex_index_size) {
        Err(e) => Err(e),
        Ok((vertex, p1)) => match spec_vec3(d, p1) {
            Err(e) => Err(e),
            Ok((offset, p2)) => Ok((VertexOffset { vertex, offset }, p2)),
        },
    }
}

/// One bone morph entry at `pos`.
pub open spec fn spec_bone_offset(d: Seq<u8>, pos: int, s: Settings) -> Result<
    (BoneOffset, int),
    ErrorView,
> {
    match spec_index(d, pos, s.bone_index_size) {
        Err(e) => Err(e),
        Ok((bone, p1)) => match spec_vec3(d, p1) {
            Err(e) => Err(e),
            Ok((translation, p2)) => match spec_vec4(d, p2) {
                Err(e) => Err(e),
                Ok((rotation, p3)) => Ok((BoneOffset { bone, translation, rotation }, p3)),
            },
        },
    }
}

/// One UV morph entry at `pos`.
pub open spec fn spec_uv_offset(d: Seq<u8>, pos: int, s: Settings) -> Result<
    (UVOffset, int),
    ErrorView,
> {
    match spec_vertex_index(d, pos, s.vertex_index_size) {
        Err(e) => Err(e),
        Ok((vertex, p1)) => match spec_vec4(d, p1) {
            Err(e) => Err(e),
            Ok((offset, p2)) => Ok((UVOffset { vertex, offset }, p2)),
        },
    }
}

/// One material morph entry at `pos`.
pub open spec fn spec_material_offset(d: Seq<u8>, pos: int, s: Settings) -> Result<
    (MaterialOffset, int),
    ErrorView,
> {
    match spec_index(d, pos, s.material_index_size) {
        Err(e) => Err(e),
        Ok((material, p1)) => match spec_u8(d, p1) {
            Err(e) => Err(e),
            Ok((mb, p2)) => match spec_offset_method(mb) {
                Err(e) => Err(e),
                Ok(method) => match spec_vec4(d, p2) {
                    Err(e) => Err(e),
                    Ok((diffuse_color, p3)) => match spec_vec3(d, p3) {
                        Err(e) => Err(e),
                        Ok((specular_color, p4)) => match spec_u32(d, p4) {
                            Err(e) => Err(e),
                            Ok((specular_strength, p5)) => match spec_vec3(d, p5) {
                                Err(e) => Err(e),
                                Ok((ambient_color, p6)) => match spec_vec4(d, p6) {
                                    Err(e) => Err(e),
                                    Ok((edge_color, p7)) => match spec_u32(d, p7) {
                                        Err(e) => Err(e),
                                        Ok((edge_scale, p8)) => match spec_vec4(d, p8) {
                                            Err(e) => Err(e),
                                            Ok((texture_tint, p9)) => match spec_vec4(d, p9) {
                                                Err(e) => Err(e),
                                                Ok((environment_tint, p10)) => match spec_vec4(
                                                    d,
                                                    p10,
                                                ) {
                                                    Err(e) => Err(e),
                                                    Ok((toon_tint, p11)) => Ok(
                                                        (
                                                            MaterialOffset {
                                                                material,
                                                                method,
                                                                diffuse_color,
                                                                specular_color,
                                                                specular_strength,
                                                                ambient_color,
                                                                edge_color,
                                                                edge_scale,
                                                                texture_tint,
                                                                environment_tint,
                                                                toon_tint,
                                                            },
                                                            p11,
                                                        ),
                                                    ),
                                                },
                                            },
                                        },
                                    },
                                },
                            },
                        },
                    },
                },
            },
        },
    }
}

/// One impulse morph entry at `pos`.
pub open spec fn spec_impulse_offset(d: Seq<u8>, pos: int, s: Settings) -> Result<
    (ImpulseOffset, int),
    ErrorView,
> {
    match spec_index(d, pos, s.rigidbody_index_size) {
        Err(e) => Err(e),
        Ok((rigid_body, p1)) => match spec_u8(d, p1) {
            Err(e) => Err(e),
            Ok((lb, p2)) => match spec_vec3(d, p2) {
                Err(e) => Err(e),
                Ok((velocity, p3)) => match spec_vec3(d, p3) {
                    Err(e) => Err(e),
                    Ok((torque, p4)) => Ok(
                        (ImpulseOffset { rigid_body, local: lb != 0, velocity, torque }, p4),
                    ),
                },
            },
        },
    }
}

/// The step that parses one group (or flip) morph entry.
pub open spec fn group_offset_step(d: Seq<u8>, s: Settings) -> spec_fn(int) -> Result<
    (GroupOffset, int),
    ErrorView,
> {
    |pos: int| spec_group_offset(d, pos, s)
}

/// The step that parses one vertex morph entry.
pub open spec fn vertex_offset_step(d: Seq<u8>, s: Settings) -> spec_fn(int) -> Result<
    (VertexOffset, int),
    ErrorView,
> {
    |pos: int| spec_vertex_offset(d, pos, s)
}

/// The step that parses one bone morph entry.
pub open spec fn bone_offset_step(d: Seq<u8>, s: Settings) -> spec_fn(int) -> Result<
    (BoneOffset, int),
    ErrorView,
> {
    |pos: int| spec_bone_offset(d, pos, s)
}

/// The step that parses one UV morph entry.
pub open spec fn uv_offset_step(d: Seq<u8>, s: Settings) -> spec_fn(int) -> Result<
    (UVOffset, int),
    ErrorView,
> {
    |pos: int| spec_uv_offset(d, pos, s)
}

/// The step that parses one material morph entry.
pub open spec fn material_offset_step(d: Seq<u8>, s: Settings) -> spec_fn(int) -> Result<
    (MaterialOffset, int),
    ErrorView,
> {
    |pos: int| spec_material_offset(d, pos, s)
}

/// The step that parses one impulse morph entry.
pub open spec fn impulse_offset_step(d: Seq<u8>, s: Settings) -> spec_fn(int) -> Result<
    (ImpulseOffset, int),
    ErrorView,
> {
    |pos: int| spec_impulse_offset(d, pos, s)
}

/// The offset list at `pos` for morph-type byte `ty` and declared entry
/// count `count`: bytes 0 to 10 select the eleven list decoders in
/// declaration order; 11 and above is an invalid-morph-type error
/// carrying the byte.
pub open spec fn spec_offsets(d: Seq<u8>, pos: int, s: Settings, ty: u8, count: u32) -> Result<
    (OffsetsView, int),
    ErrorView,
> {
    if ty == 0 {
        match spec_records(group_offset_step(d, s), pos, count as int) {
            Err(e) => Err(e),
            Ok((os, p)) => Ok((OffsetsView::Group(os), p)),
        }
    } else if ty == 1 {
        match spec_records(vertex_offset_step(d, s), pos, count as int) {
            Err(e) => Err(e),
            Ok((os, p)) => Ok((OffsetsView::Vertex(os), p)),
        }
    } else if ty == 2 {
        match spec_records(bone_offset_step(d, s), pos, count as int) {
            Err(e) => Err(e),
            Ok((os, p)) => Ok((OffsetsView::Bone(os), p)),
        }
    } else if ty == 3 {
        match spec_records(uv_offset_step(d, s), pos, count as int) {
            Err(e) => Err(e),
            Ok((os, p)) => Ok((OffsetsView::UV(os), p)),
        }
    } else if ty == 4 {
        match spec_records(uv_offset_step(d, s), pos, count as int) {
            Err(e) => Err(e),
            Ok((os, p)) => Ok((OffsetsView::AdditionalUV1(os), p)),
        }
    } else if ty == 5 {
        match spec_records(uv_offset_step(d, s), pos, count as int) {
            Err(e) => Err(e),
            Ok((os, p)) => Ok((OffsetsView::AdditionalUV2(os), p)),
        }
    } else if ty == 6 {
        match spec_records(uv_offset_step(d, s), pos, count as int) {
            Err(e) => Err(e),
            Ok((os, p)) => Ok((OffsetsView::AdditionalUV3(os), p)),
        }
    } else if ty == 7 {
        match spec_records(uv_offset_step(d, s), pos, count as int) {
            Err(e) => Err(e),
            Ok((os, p)) => Ok((OffsetsView::AdditionalUV4(os), p)),
        }
    } else if ty == 8 {
        match spec_records(material_offset_step(d, s), pos, count as int) {
            Err(e) => Err(e),
            Ok((os, p)) => Ok((OffsetsView::Material(os), p)),
        }
    } else if ty == 9 {
        match spec_records(group_offset_step(d, s), pos, count as int) {
            Err(e) => Err(e),
            Ok((os, p)) => Ok((OffsetsView::Flip(os), p)),
        }
    } else if ty == 10 {
        match spec_records(impulse_offset_step(d, s), pos, count as int) {
            Err(e) => Err(e),
            Ok((os, p)) => Ok((OffsetsView::Impulse(os), p)),
        }
    } else {
        Err(ErrorView::InvalidMorphType(ty))
    }
}

/// One morph record at `pos`: names, the panel byte, the morph-type byte,
/// the entry count, then the offset list the type byte selects.
#[verifier::opaque]
pub open spec fn spec_morph(d: Seq<u8>, pos: int, s: Settings) -> Result<
    (MorphView, int),
    ErrorView,
> {
    match spec_text(d, pos, s.text_encoding) {
        Err(e) => Err(e),
        Ok((local_name, p1)) => match spec_text(d, p1, s.text_encoding) {
            Err(e) => Err(e),
            Ok((universal_name, p2)) => match spec_u8(d, p2) {
                Err(e) => Err(e),
                Ok((pb, p3)) => match spec_u8(d, p3) {
                    Err(e) => Err(e),
                    Ok((ty, p4)) => match spec_u32(d, p4) {
                        Err(e) => Err(e),
                        Ok((count, p5)) => match spec_offsets(d, p5, s, ty, count) {
                            Err(e) => Err(e),
                            Ok((offsets, p6)) => Ok(
                                (
                                    MorphView {
                                        local_name,
                                        universal_name,
                                        panel: spec_panel(pb),
                                        offsets,
                                    },
                                    p6,
                                ),
                            ),
                        },
                    },
                },
            },
        },
    }
}

/// The per-record step of the morph section.
pub open spec fn morph_step(d: Seq<u8>, s: Settings) -> spec_fn(int) -> Result<
    (MorphView, int),
    ErrorView,
> {
    |pos: int| spec_morph(d, pos, s)
}

/// Each morph-type byte 0 to 10 produces exactly the matching offset
/// variant with exactly the declared entry count, whatever else the
/// stream holds; a byte of 11 or more always yields the
/// invalid-morph-type error carrying that byte.
pub proof fn lemma_morph_offsets_dispatch(d: Seq<u8>, pos: int, s: Settings, ty: u8, count: u32)
    ensures
        spec_offsets(d, pos, s, ty, count) matches Ok((o, p)) ==> offsets_tag(o) == ty
            && offsets_len(o) == count,
        ty >= 11 ==> spec_offsets(d, pos, s, ty, count) == Err::<(OffsetsView, int), ErrorView>(
            ErrorView::InvalidMorphType(ty),
        ),
{
    if ty == 0 || ty == 9 {
        lemma_spec_records_len(group_offset_step(d, s), pos, count as int);
    } else if ty == 1 {
        lemma_spec_records_len(vertex_offset_step(d, s), pos, count as int);
    } else if ty == 2 {
        lemma_spec_records_len(bone_offset_step(d, s), pos, count as int);
    } else if ty == 3 || ty == 4 || ty == 5 || ty == 6 || ty == 7 {
        lemma_spec_records_len(uv_offset_step(d, s), pos, count as int);
    } else if ty == 8 {
        lemma_spec_records_len(material_offset_step(d, s), pos, count as int);
    } else if ty == 10 {
        lemma_spec_records_len(impulse_offset_step(d, s), pos, count as int);
    }
}

} // verus!
