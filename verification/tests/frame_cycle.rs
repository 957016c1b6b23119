use render_core::frame_sync::{AcquireResult, FrameResult, PresentResult};
use render_core::renderer::{create_renderer_data, plan_element_draws, DrawCommand, FrameStep};
use render_core::render_target::RenderTargetType;
use render_core::vk_types::RenderObjectType;

fn acquired(image_index: u32) -> AcquireResult {
    AcquireResult::Acquired { image_index, suboptimal: false }
}

#[test]
fn frame_slots_rotate_through_two_slots() {
    let mut renderer = create_renderer_data(1024, 768);
    assert_eq!(renderer.get_frame_index(), 0);
    assert_eq!(
        renderer.render_frame(acquired(0), PresentResult::Success),
        FrameResult::Rendered
    );
    assert_eq!(renderer.get_frame_index(), 1);
    assert_eq!(
        renderer.render_frame(acquired(1), PresentResult::Success),
        FrameResult::Rendered
    );
    assert_eq!(renderer.get_frame_index(), 0);
}

#[test]
fn end_to_end_three_frames_then_out_of_date_then_resize() {
    let mut renderer = create_renderer_data(1024, 768);

    // Three successful frames: each renders, the frame-slot index cycles
    // 0, 1, 0, and no recreation is asked for.
    let mut slots: Vec<usize> = Vec::new();
    for frame in 0..3u32 {
        assert!(!renderer.get_need_recreate_swapchain());
        slots.push(renderer.get_frame_index());
        let result = renderer.render_frame(acquired(frame % 3), PresentResult::Success);
        assert_eq!(result, FrameResult::Rendered);
    }
    assert_eq!(slots, vec![0, 1, 0]);
    assert!(!renderer.get_need_recreate_swapchain());

    // Frame 4 presents out of date: the frame still rendered, but the
    // recreate flag is raised.
    let result = renderer.render_frame(acquired(0), PresentResult::OutOfDate);
    assert_eq!(result, FrameResult::Rendered);
    assert!(renderer.get_need_recreate_swapchain());

    // The loop observes the flag and runs the recreation protocol exactly
    // once, at the new extent.
    renderer.resize_window(800, 600);
    assert!(!renderer.get_need_recreate_swapchain());
    assert_eq!(renderer._swapchain_width, 800);
    assert_eq!(renderer._swapchain_height, 600);

    // Frame 5 renders at the new extent without re-running the protocol.
    let result = renderer.render_frame(acquired(1), PresentResult::Success);
    assert_eq!(result, FrameResult::Rendered);
    assert!(!renderer.get_need_recreate_swapchain());
}

#[test]
fn suboptimal_acquire_skips_the_frame() {
    let mut renderer = create_renderer_data(1024, 768);
    let result = renderer.render_frame(
        AcquireResult::Acquired { image_index: 2, suboptimal: true },
        PresentResult::Success,
    );
    assert_eq!(result, FrameResult::NeedsRetry);
    assert!(renderer.get_need_recreate_swapchain());
    assert_eq!(renderer.get_swap_chain_index(), 2);
    // The frame slot still advances so the slot's fence pairing stays even.
    assert_eq!(renderer.get_frame_index(), 1);
}

#[test]
fn out_of_date_acquire_skips_the_frame() {
    let mut renderer = create_renderer_data(1024, 768);
    let result = renderer.render_frame(AcquireResult::OutOfDate, PresentResult::Success);
    assert_eq!(result, FrameResult::NeedsRetry);
    assert!(renderer.get_need_recreate_swapchain());
    assert_eq!(renderer.get_swap_chain_index(), 0);
}

#[test]
fn device_lost_is_surfaced_distinctly() {
    let mut renderer = create_renderer_data(1024, 768);
    let result = renderer.render_frame(acquired(0), PresentResult::DeviceLost);
    assert_eq!(result, FrameResult::DeviceLost);
    assert!(!renderer.get_need_recreate_swapchain());
}

#[test]
fn resize_with_same_extent_keeps_the_table_identical() {
    let mut renderer = create_renderer_data(1024, 768);
    let before = renderer._render_target_data_map.clone();
    renderer.resize_window(1024, 768);
    assert_eq!(renderer._render_target_data_map, before);
}

#[test]
fn plan_frame_orders_the_fixed_sequence() {
    let renderer = create_renderer_data(1024, 768);
    let steps = renderer.plan_frame(true, false);
    assert_eq!(steps[0], FrameStep::UploadUniformBuffers);
    assert_eq!(steps[1], FrameStep::RenderShadow(RenderObjectType::Static));
    assert_eq!(steps[2], FrameStep::RenderSolid(RenderObjectType::Static));
    assert!(matches!(steps[3], FrameStep::RenderPipeline(_)));
    assert_eq!(steps.len(), 7);

    // Empty element lists skip their passes; a selected debug target
    // appends the overlay.
    let mut renderer = renderer;
    renderer.next_debug_render_target();
    let steps = renderer.plan_frame(false, false);
    assert_eq!(steps.len(), 6);
    assert_eq!(
        steps[5],
        FrameStep::RenderDebug(RenderTargetType::BackBufferCopy)
    );
}

#[test]
fn element_draws_rebind_only_on_binding_changes() {
    let commands = plan_element_draws(&vec![7, 7, 3, 3, 3, 7]);
    assert_eq!(
        commands,
        vec![
            DrawCommand::BindDescriptors(7),
            DrawCommand::Draw(0),
            DrawCommand::Draw(1),
            DrawCommand::BindDescriptors(3),
            DrawCommand::Draw(2),
            DrawCommand::Draw(3),
            DrawCommand::Draw(4),
            DrawCommand::BindDescriptors(7),
            DrawCommand::Draw(5),
        ]
    );
    assert!(plan_element_draws(&vec![]).is_empty());
}
