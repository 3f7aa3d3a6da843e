//! Render graph planning: the single-subpass render pass and the
//! fixed-function graphics pipeline bound to it, as plain configuration
//! values. The shell turns each plan into the driver's creation calls.

use vstd::prelude::*;

use crate::surface::Extent2d;

verus! {

/// Raw code of the clear-on-load attachment operation.
pub const LOAD_OP_CLEAR: u32 = 1;
/// Raw code of the ignore-on-load attachment operation.
pub const LOAD_OP_DONT_CARE: u32 = 2;
/// Raw code of the keep-on-store attachment operation.
pub const STORE_OP_STORE: u32 = 0;
/// Raw code of the ignore-on-store attachment operation.
pub const STORE_OP_DONT_CARE: u32 = 1;
/// Raw code of the undefined image layout.
pub const LAYOUT_UNDEFINED: u32 = 0;
/// Raw code of the color-attachment-optimal image layout.
pub const LAYOUT_COLOR_ATTACHMENT_OPTIMAL: u32 = 2;
/// Raw code of the presentation-ready image layout.
pub const LAYOUT_PRESENT_SRC: u32 = 1000001002;
/// Single-sample bit.
pub const SAMPLE_COUNT_1: u32 = 1;
/// Raw code of triangle-list topology.
pub const TOPOLOGY_TRIANGLE_LIST: u32 = 3;
/// Raw code of fill-mode rasterization.
pub const POLYGON_MODE_FILL: u32 = 0;
/// Cull-mode bit for back faces.
pub const CULL_MODE_BACK: u32 = 2;
/// Raw code of the clockwise front face.
pub const FRONT_FACE_CLOCKWISE: u32 = 1;
/// Write mask with all four color channels writable.
pub const COLOR_WRITE_MASK_ALL: u32 = 15;

/// The declared render pass: exactly one color attachment (cleared on
/// load, kept on store, stencil ignored, entering undefined and leaving
/// presentation-ready) and one subpass referencing it as the sole color
/// target.
#[derive(Clone, Copy, Debug, PartialEq, Eq, Structural)]
pub struct RenderPassPlan {
    pub color_format: u32,
    pub sample_count: u32,
    pub load_op: u32,
    pub store_op: u32,
    pub stencil_load_op: u32,
    pub stencil_store_op: u32,
    pub initial_layout: u32,
    pub final_layout: u32,
    pub subpass_color_attachment: u32,
    pub subpass_attachment_layout: u32,
}

/// The fixed-function graphics pipeline: the fixed vertex/fragment stage
/// pair, no vertex input, triangle-list topology without restart, a
/// single dynamic viewport and scissor initialized from the chain
/// extent, fill rasterization with back-face culling and clockwise
/// front face, no depth bias, single-sample, blending disabled with all
/// channels writable, bound to subpass 0.
#[derive(Clone, Copy, Debug, PartialEq, Eq, Structural)]
pub struct PipelinePlan {
    pub has_vertex_stage: bool,
    pub has_fragment_stage: bool,
    pub vertex_binding_count: u32,
    pub vertex_attribute_count: u32,
    pub topology: u32,
    pub primitive_restart: bool,
    pub dynamic_viewport: bool,
    pub dynamic_scissor: bool,
    pub viewport_extent: Extent2d,
    pub scissor_extent: Extent2d,
    pub polygon_mode: u32,
    pub cull_mode: u32,
    pub front_face: u32,
    pub depth_bias: bool,
    pub sample_count: u32,
    pub sample_shading: bool,
    pub blend_enable: bool,
    pub color_write_mask: u32,
    pub subpass: u32,
}

/// The render pass declared for a chain of the given color format.
pub open spec fn spec_render_pass_plan(color_format: u32) -> RenderPassPlan {
    RenderPassPlan {
        color_format,
        sample_count: SAMPLE_COUNT_1,
        load_op: LOAD_OP_CLEAR,
        store_op: STORE_OP_STORE,
        stencil_load_op: LOAD_OP_DONT_CARE,
        stencil_store_op: STORE_OP_DONT_CARE,
        initial_layout: LAYOUT_UNDEFINED,
        final_layout: LAYOUT_PRESENT_SRC,
        subpass_color_attachment: 0,
        subpass_attachment_layout: LAYOUT_COLOR_ATTACHMENT_OPTIMAL,
    }
}

/// The pipeline declared for the given initial viewport extent.
pub open spec fn spec_pipeline_plan(viewport_extent: Extent2d) -> PipelinePlan {
    PipelinePlan {
        has_vertex_stage: true,
        has_fragment_stage: true,
        vertex_binding_count: 0,
        vertex_attribute_count: 0,
        topology: TOPOLOGY_TRIANGLE_LIST,
        primitive_restart: false,
        dynamic_viewport: true,
        dynamic_scissor: true,
        viewport_extent,
        scissor_extent: viewport_extent,
        polygon_mode: POLYGON_MODE_FILL,
        cull_mode: CULL_MODE_BACK,
        front_face: FRONT_FACE_CLOCKWISE,
        depth_bias: false,
        sample_count: SAMPLE_COUNT_1,
        sample_shading: false,
        blend_enable: false,
        color_write_mask: COLOR_WRITE_MASK_ALL,
        subpass: 0,
    }
}

/// Declares the single-attachment, single-subpass render pass for the
/// chain's color format.
pub fn plan_render_pass(color_format: u32) -> (r: RenderPassPlan)
    ensures
        r == spec_render_pass_plan(color_format),
{
    RenderPassPlan {
        color_format,
        sample_count: SAMPLE_COUNT_1,
        load_op: LOAD_OP_CLEAR,
        store_op: STORE_OP_STORE,
        stencil_load_op: LOAD_OP_DONT_CARE,
        stencil_store_op: STORE_OP_DONT_CARE,
        initial_layout: LAYOUT_UNDEFINED,
        final_layout: LAYOUT_PRESENT_SRC,
        subpass_color_attachment: 0,
        subpass_attachment_layout: LAYOUT_COLOR_ATTACHMENT_OPTIMAL,
    }
}

/// Declares the fixed-function pipeline, its dynamic viewport and
/// scissor initialized from the chain extent but mutable per frame.
pub fn plan_pipeline(viewport_extent: Extent2d) -> (r: PipelinePlan)
    ensures
        r == spec_pipeline_plan(viewport_extent),
{
    PipelinePlan {
        has_vertex_stage: true,
        has_fragment_stage: true,
        vertex_binding_count: 0,
        vertex_attribute_count: 0,
        topology: TOPOLOGY_TRIANGLE_LIST,
        primitive_restart: false,
        dynamic_viewport: true,
        dynamic_scissor: true,
        viewport_extent,
        scissor_extent: viewport_extent,
        polygon_mode: POLYGON_MODE_FILL,
        cull_mode: CULL_MODE_BACK,
        front_face: FRONT_FACE_CLOCKWISE,
        depth_bias: false,
        sample_count: SAMPLE_COUNT_1,
        sample_shading: false,
        blend_enable: false,
        color_write_mask: COLOR_WRITE_MASK_ALL,
        subpass: 0,
    }
}

/// Pipeline and render pass are compatible by construction: the pipeline
/// is bound to subpass 0, which is exactly the one subpass the render
/// pass declares, and both agree on single-sample rasterization.
pub proof fn lemma_render_graph_compatible(color_format: u32, viewport_extent: Extent2d)
    ensures
        spec_pipeline_plan(viewport_extent).subpass == spec_render_pass_plan(
            color_format,
        ).subpass_color_attachment,
        spec_pipeline_plan(viewport_extent).sample_count == spec_render_pass_plan(
            color_format,
        ).sample_count,
{
}

} // verus!
