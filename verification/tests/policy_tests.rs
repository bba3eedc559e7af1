use hexthing::buffer::{upload_type_for, BufferState, MemoryTypeInfo};
use hexthing::definitions::{hex_definition, PrimitiveMode};
use hexthing::descriptor::{uniform_binding, uniform_pool_plan, DescSetLayout};
use hexthing::device::{select_adapter, select_queue_family};
use hexthing::pipeline::{PipelineState, RG32_FLOAT_CODE, VERTEX_STRIDE};
use hexthing::render_pass::{ImageLayout, LoadOp, RenderPassState, StoreOp};
use hexthing::swapchain::{ChannelKind, PixelFormat};

#[test]
fn upload_type_picks_first_visible_allowed_type() {
    let types = vec![
        MemoryTypeInfo { cpu_visible: false },
        MemoryTypeInfo { cpu_visible: true },
        MemoryTypeInfo { cpu_visible: true },
    ];
    // Mask allows types 1 and 2; the first qualifying is 1.
    assert_eq!(upload_type_for(0b110, &types), Some(1));
    // Mask allows only type 0, which the host cannot map.
    assert_eq!(upload_type_for(0b001, &types), None);
    // Mask allows type 2 only.
    assert_eq!(upload_type_for(0b100, &types), Some(2));
}

#[test]
fn upload_type_respects_the_mask_over_visibility() {
    let types = vec![
        MemoryTypeInfo { cpu_visible: true },
        MemoryTypeInfo { cpu_visible: false },
    ];
    assert_eq!(upload_type_for(0b10, &types), None);
    assert_eq!(upload_type_for(0b11, &types), Some(0));
}

#[test]
fn buffer_accounts_upload_and_allocation() {
    let b = BufferState::new(18, 8, 256);
    assert_eq!(b.upload_size, 144);
    assert_eq!(b.size, 256);
    assert!(b.update_fits(0, 18, 8));
    assert!(b.update_fits(112, 18, 8));
    assert!(!b.update_fits(120, 18, 8));
}

#[test]
fn first_adapter_and_first_presenting_family_are_chosen() {
    assert_eq!(select_adapter(2), Some(0));
    assert_eq!(select_adapter(0), None);
    assert_eq!(select_queue_family(&vec![false, true, true]), Some(1));
    assert_eq!(select_queue_family(&vec![false, false]), None);
    assert_eq!(select_queue_family(&Vec::new()), None);
}

#[test]
fn render_pass_clears_stores_and_presents() {
    let format = PixelFormat { code: 43, channel: ChannelKind::Srgb };
    let rp = RenderPassState::new(format);
    assert_eq!(rp.attachment.format, format);
    assert_eq!(rp.attachment.samples, 1);
    assert_eq!(rp.attachment.load_op, LoadOp::Clear);
    assert_eq!(rp.attachment.store_op, StoreOp::Store);
    assert_eq!(rp.attachment.stencil_load_op, LoadOp::DontCare);
    assert_eq!(rp.attachment.stencil_store_op, StoreOp::DontCare);
    assert_eq!(rp.attachment.initial_layout, ImageLayout::Undefined);
    assert_eq!(rp.attachment.final_layout, ImageLayout::Present);
    assert_eq!(rp.subpass_color_layout, ImageLayout::ColorAttachmentOptimal);
}

#[test]
fn pipeline_feeds_one_two_float_attribute() {
    let format = PixelFormat { code: 43, channel: ChannelKind::Srgb };
    let p = PipelineState::new(format, 1);
    assert_eq!(p.vertex_buffer.binding, 0);
    assert_eq!(p.vertex_buffer.stride, VERTEX_STRIDE);
    assert_eq!(VERTEX_STRIDE, 8);
    assert_eq!(p.attribute.location, 0);
    assert_eq!(p.attribute.offset, 0);
    assert_eq!(p.attribute.format_code, RG32_FLOAT_CODE);
    assert_eq!(p.push_constants.vertex_stage, true);
    assert_eq!(p.push_constants.start, 0);
    assert_eq!(p.push_constants.end, 8);
    assert!(p.triangle_list);
    assert!(p.fill_rasterization);
    assert!(p.alpha_blending);
}

#[test]
fn uniform_wiring_targets_binding_zero() {
    let b = uniform_binding();
    assert_eq!(b.binding, 0);
    assert!(b.uniform_buffer);
    assert_eq!(b.count, 1);
    assert!(b.fragment_stage);
    let pool = uniform_pool_plan();
    assert_eq!(pool.max_sets, 1);
    assert_eq!(pool.uniform_buffers, 1);
    let layout = DescSetLayout::new(vec![b]);
    let set = layout.create_desc_set();
    let w = set.write_to_state(0);
    assert_eq!(w.binding, 0);
    assert_eq!(w.array_offset, 0);
    assert_eq!(set.get_layout().len(), 1);
}

#[test]
fn hex_definition_draws_eighteen_vertices_as_triangles() {
    let d = hex_definition("vert src".to_string(), "frag src".to_string());
    assert_eq!(d.id, "hex");
    assert_eq!(d.vertices_to_render, 18);
    assert_eq!(d.draw_mode, PrimitiveMode::TriangleList);
    assert!(d.inputs.is_empty());
    assert_eq!(d.vertex_shader, "vert src");
    assert_eq!(d.fragment_shader, "frag src");
}
