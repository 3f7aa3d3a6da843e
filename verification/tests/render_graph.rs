use render_boot::render_graph::{
    plan_pipeline, plan_render_pass, COLOR_WRITE_MASK_ALL, CULL_MODE_BACK, FRONT_FACE_CLOCKWISE,
    LAYOUT_COLOR_ATTACHMENT_OPTIMAL, LAYOUT_PRESENT_SRC, LAYOUT_UNDEFINED, LOAD_OP_CLEAR,
    LOAD_OP_DONT_CARE, POLYGON_MODE_FILL, SAMPLE_COUNT_1, STORE_OP_DONT_CARE, STORE_OP_STORE,
    TOPOLOGY_TRIANGLE_LIST,
};
use render_boot::surface::Extent2d;
use render_boot::swapchain::FORMAT_B8G8R8A8_SRGB;

#[test]
fn render_pass_declares_one_presentable_color_attachment() {
    let plan = plan_render_pass(FORMAT_B8G8R8A8_SRGB);
    assert_eq!(plan.color_format, FORMAT_B8G8R8A8_SRGB);
    assert_eq!(plan.sample_count, SAMPLE_COUNT_1);
    assert_eq!(plan.load_op, LOAD_OP_CLEAR);
    assert_eq!(plan.store_op, STORE_OP_STORE);
    assert_eq!(plan.stencil_load_op, LOAD_OP_DONT_CARE);
    assert_eq!(plan.stencil_store_op, STORE_OP_DONT_CARE);
    assert_eq!(plan.initial_layout, LAYOUT_UNDEFINED);
    assert_eq!(plan.final_layout, LAYOUT_PRESENT_SRC);
    assert_eq!(plan.subpass_color_attachment, 0);
    assert_eq!(plan.subpass_attachment_layout, LAYOUT_COLOR_ATTACHMENT_OPTIMAL);
}

#[test]
fn pipeline_is_fixed_function_with_dynamic_viewport() {
    let extent = Extent2d { width: 1920, height: 1080 };
    let plan = plan_pipeline(extent);
    assert!(plan.has_vertex_stage);
    assert!(plan.has_fragment_stage);
    assert_eq!(plan.vertex_binding_count, 0);
    assert_eq!(plan.vertex_attribute_count, 0);
    assert_eq!(plan.topology, TOPOLOGY_TRIANGLE_LIST);
    assert!(!plan.primitive_restart);
    assert!(plan.dynamic_viewport);
    assert!(plan.dynamic_scissor);
    assert_eq!(plan.viewport_extent, extent);
    assert_eq!(plan.scissor_extent, extent);
    assert_eq!(plan.polygon_mode, POLYGON_MODE_FILL);
    assert_eq!(plan.cull_mode, CULL_MODE_BACK);
    assert_eq!(plan.front_face, FRONT_FACE_CLOCKWISE);
    assert!(!plan.depth_bias);
    assert_eq!(plan.sample_count, SAMPLE_COUNT_1);
    assert!(!plan.sample_shading);
    assert!(!plan.blend_enable);
    assert_eq!(plan.color_write_mask, COLOR_WRITE_MASK_ALL);
    assert_eq!(plan.subpass, 0);
}

#[test]
fn pipeline_binds_to_the_declared_subpass() {
    let extent = Extent2d { width: 800, height: 600 };
    let pass = plan_render_pass(FORMAT_B8G8R8A8_SRGB);
    let pipeline = plan_pipeline(extent);
    assert_eq!(pipeline.subpass, pass.subpass_color_attachment);
    assert_eq!(pipeline.sample_count, pass.sample_count);
}
