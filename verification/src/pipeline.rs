//! The pipeline factory: a shader and its vertex layouts become an
//! immutable pipeline description under one fixed policy — triangle lists,
//! counter-clockwise front faces, back-face culling, fill mode, a single
//! sample, and, when a depth format is given, depth writes with a "less"
//! comparison. Compiling the description is the GPU backend's business;
//! the description itself is a pure function of its inputs, so pipelines
//! may be cached by shader and layout. Runtime switching picks among
//! prebuilt variants; nothing is recompiled.

use crate::layout::VertexBufferLayout;
use crate::surface::TextureFormat;
use vstd::prelude::*;

verus! {

#[derive(Clone, Copy, Debug, PartialEq, Eq, Structural)]
pub enum PrimitiveTopology {
    PointList,
    LineList,
    TriangleList,
}

#[derive(Clone, Copy, Debug, PartialEq, Eq, Structural)]
pub enum FrontFace {
    Ccw,
    Cw,
}

#[derive(Clone, Copy, Debug, PartialEq, Eq, Structural)]
pub enum CullMode {
    NoCull,
    Front,
    Back,
}

#[derive(Clone, Copy, Debug, PartialEq, Eq, Structural)]
pub enum PolygonMode {
    Fill,
    Line,
    Point,
}

#[derive(Clone, Copy, Debug, PartialEq, Eq, Structural)]
pub enum BlendMode {
    Replace,
    AlphaBlend,
}

#[derive(Clone, Copy, Debug, PartialEq, Eq, Structural)]
pub enum CompareFunction {
    Never,
    Less,
    Always,
}

/// Depth testing state: the buffer format, whether depth is written, and
/// the comparison that decides visibility.
#[derive(Clone, Copy, Debug, PartialEq, Eq, Structural)]
pub struct DepthState {
    pub format: TextureFormat,
    pub depth_write_enabled: bool,
    pub compare: CompareFunction,
}

/// An immutable compiled-pipeline description: the shader handle, vertex
/// layouts, color target and fixed-function state.
pub struct PipelineDescriptor {
    pub shader: usize,
    pub vertex_layouts: Vec<VertexBufferLayout>,
    pub color_format: TextureFormat,
    pub blend: BlendMode,
    pub topology: PrimitiveTopology,
    pub front_face: FrontFace,
    pub cull_mode: CullMode,
    pub polygon_mode: PolygonMode,
    pub sample_count: u32,
    pub depth: Option<DepthState>,
}

/// The fixed policy every pipeline of this renderer is built under.
pub open spec fn policy_holds(p: PipelineDescriptor) -> bool {
    &&& p.topology == PrimitiveTopology::TriangleList
    &&& p.front_face == FrontFace::Ccw
    &&& p.cull_mode == CullMode::Back
    &&& p.polygon_mode == PolygonMode::Fill
    &&& p.blend == BlendMode::Replace
    &&& p.sample_count == 1
    &&& match p.depth {
        Some(d) => d.depth_write_enabled && d.compare == CompareFunction::Less,
        None => true,
    }
}

/// Build a pipeline description from a shader handle, its vertex layouts
/// and the target formats, under the fixed policy.
pub fn build(
    shader: usize,
    vertex_layouts: Vec<VertexBufferLayout>,
    color_format: TextureFormat,
    depth_format: Option<TextureFormat>,
) -> (r: PipelineDescriptor)
    ensures
        policy_holds(r),
        r.shader == shader,
        r.vertex_layouts == vertex_layouts,
        r.color_format == color_format,
        match depth_format {
            Some(f) => r.depth == Some(
                DepthState { format: f, depth_write_enabled: true, compare: CompareFunction::Less },
            ),
            None => r.depth is None,
        },
{
    let depth = match depth_format {
        Some(f) => Some(
            DepthState { format: f, depth_write_enabled: true, compare: CompareFunction::Less },
        ),
        None => None,
    };
    PipelineDescriptor {
        shader,
        vertex_layouts,
        color_format,
        blend: BlendMode::Replace,
        topology: PrimitiveTopology::TriangleList,
        front_face: FrontFace::Ccw,
        cull_mode: CullMode::Back,
        polygon_mode: PolygonMode::Fill,
        sample_count: 1,
        depth,
    }
}

/// The runtime pipeline switch: a tagged choice between prebuilt variants.
#[derive(Clone, Copy, Debug, PartialEq, Eq, Structural)]
pub enum PipelineChoice {
    Standard,
    Challenge,
}

/// Which prebuilt pipeline the toggle flag selects.
pub fn select_pipeline(change_pipeline: bool) -> (r: PipelineChoice)
    ensures
        r == if change_pipeline {
            PipelineChoice::Challenge
        } else {
            PipelineChoice::Standard
        },
{
    if change_pipeline {
        PipelineChoice::Challenge
    } else {
        PipelineChoice::Standard
    }
}

} // verus!
