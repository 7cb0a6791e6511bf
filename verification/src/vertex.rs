//! The vertex record.

use vstd::prelude::*;

use crate::error::ErrorView;
use crate::parse::{spec_records, spec_u32};
use crate::settings::Settings;
use crate::types::{spec_vec2, spec_vec3, spec_vec4, Vec2, Vec3, Vec4};
use crate::weight_deform::{spec_weight_deform, WeightDeform};

verus! {

/// One vertex: position, normal, texture coordinates, the
/// settings-determined run of additional four-float channels, the
/// weight-deform binding and the edge scale (a raw float bit pattern).
#[derive(Clone, Debug, PartialEq)]
pub struct Vertex {
    pub position: Vec3,
    pub normal: Vec3,
    pub uv: Vec2,
    pub additional: Vec<Vec4>,
    pub weight_deform: WeightDeform,
    pub edge_scale: u32,
}

/// The mathematical shape of a `Vertex`: the additional channels as a
/// sequence.
pub struct VertexView {
    pub position: Vec3,
    pub normal: Vec3,
    pub uv: Vec2,
    pub additional: Seq<Vec4>,
    pub weight_deform: WeightDeform,
    pub edge_scale: u32,
}

impl View for Vertex {
    type V = VertexView;

    open spec fn view(&self) -> VertexView {
        VertexView {
            position: self.position,
            normal: self.normal,
            uv: self.uv,
            additional: self.additional@,
            weight_deform: self.weight_deform,
            edge_scale: self.edge_scale,
        }
    }
}

/// The step that parses one additional four-float channel.
pub open spec fn vec4_list_step(d: Seq<u8>) -> spec_fn(int) -> Result<(Vec4, int), ErrorView> {
    |q: int| spec_vec4(d, q)
}

/// One vertex record at `pos`. The number of additional channels comes
/// from the settings, fixed for the whole section, never from the record.
pub open spec fn spec_vertex(d: Seq<u8>, pos: int, s: Settings) -> Result<
    (VertexView, int),
    ErrorView,
> {
    match spec_vec3(d, pos) {
        Err(e) => Err(e),
        Ok((position, p1)) => match spec_vec3(d, p1) {
            Err(e) => Err(e),
            Ok((normal, p2)) => match spec_vec2(d, p2) {
                Err(e) => Err(e),
                Ok((uv, p3)) => match spec_records(
                    vec4_list_step(d),
                    p3,
                    s.additional_vec4_count as int,
                ) {
                    Err(e) => Err(e),
                    Ok((additional, p4)) => match spec_weight_deform(d, p4, s) {
                        Err(e) => Err(e),
                        Ok((weight_deform, p5)) => match spec_u32(d, p5) {
                            Err(e) => Err(e),
                            Ok((edge_scale, p6)) => Ok(
                                (
                                    VertexView {
                                        position,
                                        normal,
                                        uv,
                                        additional,
                                        weight_deform,
                                        edge_scale,
                                    },
                                    p6,
                                ),
                            ),
                        },
                    },
                },
            },
        },
    }
}

/// The per-record step of the vertex section.
pub open spec fn vertex_step(d: Seq<u8>, s: Settings) -> spec_fn(int) -> Result<
    (VertexView, int),
    ErrorView,
> {
    |pos: int| spec_vertex(d, pos, s)
}

} // verus!
