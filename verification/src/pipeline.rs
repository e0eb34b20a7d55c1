//! The one render pipeline: an immutable fixed-function descriptor whose
//! color target format is pinned to the surface's chosen format.

use vstd::prelude::*;
use crate::surface::ColorFormat;

verus! {

/// The compiled shader program handed in as an opaque asset. The host only
/// tracks its identity; the collaborator that owns the device holds the text.
/// The asset must export the two fixed entry points, `vs_main` (vertex stage,
/// synthesizing three clip-space positions from the vertex index) and
/// `fs_main` (fragment stage, one RGBA output).
#[derive(Clone, Copy, PartialEq, Eq, Structural, Debug)]
pub struct ShaderAsset {
    pub id: u64,
}

/// How vertices are assembled into primitives.
#[derive(Clone, Copy, PartialEq, Eq, Structural, Debug)]
pub enum Topology {
    PointList,
    LineList,
    LineStrip,
    TriangleList,
    TriangleStrip,
}

/// Which winding order counts as the front of a triangle.
#[derive(Clone, Copy, PartialEq, Eq, Structural, Debug)]
pub enum FrontFace {
    Ccw,
    Cw,
}

/// Which faces are culled before rasterization.
#[derive(Clone, Copy, PartialEq, Eq, Structural, Debug)]
pub enum CullMode {
    NoCulling,
    Front,
    Back,
}

/// How polygons are rasterized.
#[derive(Clone, Copy, PartialEq, Eq, Structural, Debug)]
pub enum PolygonMode {
    Fill,
    Line,
    Point,
}

/// How fragment output is combined with the color target.
#[derive(Clone, Copy, PartialEq, Eq, Structural, Debug)]
pub enum BlendMode {
    Replace,
    AlphaBlending,
}

/// All four color channels written.
pub const WRITE_MASK_ALL: u32 = 15;

/// Every sample of the multisample mask enabled.
pub const SAMPLE_MASK_ALL: u64 = 0xFFFF_FFFF_FFFF_FFFF;

/// The fixed-function state of the pipeline, all of it plain data.
#[derive(Clone, Copy, PartialEq, Eq, Structural, Debug)]
pub struct PipelineDesc {
    pub shader: ShaderAsset,
    pub color_format: ColorFormat,
    pub topology: Topology,
    pub front_face: FrontFace,
    pub cull_mode: CullMode,
    pub polygon_mode: PolygonMode,
    pub has_depth_stencil: bool,
    pub sample_count: u32,
    pub sample_mask: u64,
    pub blend: BlendMode,
    pub write_mask: u32,
    pub bind_group_layout_count: u32,
    pub push_constant_range_count: u32,
}

/// The one descriptor this host ever builds: triangle list, counter-clockwise
/// front faces, back-face culling, solid fill, no depth/stencil, a single
/// sample, one color target in the given format with replace blending and all
/// channels written, and an empty layout (no bind groups, no push constants).
pub open spec fn pipeline_desc_spec(format: ColorFormat, shader: ShaderAsset) -> PipelineDesc {
    PipelineDesc {
        shader,
        color_format: format,
        topology: Topology::TriangleList,
        front_face: FrontFace::Ccw,
        cull_mode: CullMode::Back,
        polygon_mode: PolygonMode::Fill,
        has_depth_stencil: false,
        sample_count: 1,
        sample_mask: SAMPLE_MASK_ALL,
        blend: BlendMode::Replace,
        write_mask: WRITE_MASK_ALL,
        bind_group_layout_count: 0,
        push_constant_range_count: 0,
    }
}

/// An immutable compiled pipeline. Rebuilding is not supported: the color
/// target format is pinned at construction time, so the pipeline goes stale
/// if the surface is ever reconfigured to a different format (which this host
/// never does after construction).
#[derive(Clone, Copy, PartialEq, Eq, Structural, Debug)]
pub struct RenderPipeline {
    pub desc: PipelineDesc,
}

impl RenderPipeline {
    /// Build the pipeline for the given color target format and shader asset.
    pub fn build(format: ColorFormat, shader: ShaderAsset) -> (p: Self)
        ensures
            p.desc == pipeline_desc_spec(format, shader),
    {
        RenderPipeline {
            desc: PipelineDesc {
                shader,
                color_format: format,
                topology: Topology::TriangleList,
                front_face: FrontFace::Ccw,
                cull_mode: CullMode::Back,
                polygon_mode: PolygonMode::Fill,
                has_depth_stencil: false,
                sample_count: 1,
                sample_mask: SAMPLE_MASK_ALL,
                blend: BlendMode::Replace,
                write_mask: WRITE_MASK_ALL,
                bind_group_layout_count: 0,
                push_constant_range_count: 0,
            },
        }
    }
}

/// Law: pipeline construction is deterministic. Two pipelines built from the
/// same color format and shader asset are equal in every fixed-function
/// setting — in particular in topology, culling and blending.
pub proof fn lemma_build_deterministic(
    a: RenderPipeline,
    b: RenderPipeline,
    format: ColorFormat,
    shader: ShaderAsset,
)
    requires
        a.desc == pipeline_desc_spec(format, shader),
        b.desc == pipeline_desc_spec(format, shader),
    ensures
        a == b,
        a.desc.topology == b.desc.topology,
        a.desc.cull_mode == b.desc.cull_mode,
        a.desc.blend == b.desc.blend,
{
}

} // verus!
