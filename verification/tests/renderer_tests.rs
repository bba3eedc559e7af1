use hexthing::renderer::{
    AcquireResult, LoopState, Phase, PresentOutcome, RenderCommand, RendererState, TeardownStep,
    Viewport, WindowEvent,
};
use hexthing::swapchain::{ChannelKind, Extent2D, PixelFormat, SurfaceCaps, RGBA8_SRGB_CODE};

fn caps(width: u32, height: u32) -> SurfaceCaps {
    SurfaceCaps {
        image_count_min: 2,
        image_count_max: 8,
        current_extent: Some(Extent2D { width, height }),
        extent_min: Extent2D { width: 0, height: 0 },
        extent_max: Extent2D { width: 4096, height: 4096 },
    }
}

fn fresh_renderer(image_count: usize) -> RendererState {
    RendererState::new(
        &caps(768, 768),
        &None,
        Extent2D { width: 768, height: 768 },
        image_count,
    )
}

/// Runs one full successful frame: poll (no events), acquire the given
/// image, prepare, record, submit, present.
fn render_frame(r: &mut RendererState, image_index: usize) {
    r.handle_events(&Vec::new());
    assert!(!r.needs_recreate());
    let sync_index = r.begin_frame();
    r.complete_acquire(AcquireResult::Image(image_index));
    r.prepare_frame();
    let sub = r.record_and_submit();
    assert_eq!(sub.wait_semaphore, sync_index);
    assert_eq!(sub.signal_semaphore, sync_index);
    assert_eq!(sub.image_index, image_index);
    r.complete_present(PresentOutcome::Presented);
}

#[test]
fn new_renderer_starts_running() {
    let r = fresh_renderer(3);
    assert_eq!(r.loop_state(), LoopState::Running);
    assert_eq!(r.phase, Phase::Polling);
    assert!(!r.pending_recreate);
    assert_eq!(r.framebuffer.slots.len(), 3);
    assert_eq!(r.image_count, 3);
    assert_eq!(r.swapchain.format.code, RGBA8_SRGB_CODE);
    assert_eq!(r.viewport, Viewport { x: 0, y: 0, w: 768, h: 768 });
}

#[test]
fn pool_counts_match_image_count_in_ledger() {
    for n in [0usize, 1, 2, 3] {
        let r = fresh_renderer(n);
        let slots = if n == 0 { 1 } else { n } as u64;
        assert_eq!(r.ledger.created.fences - r.ledger.destroyed.fences, slots);
        assert_eq!(
            r.ledger.created.command_pools - r.ledger.destroyed.command_pools,
            slots
        );
        assert_eq!(
            r.ledger.created.acquire_semaphores - r.ledger.destroyed.acquire_semaphores,
            slots
        );
        assert_eq!(
            r.ledger.created.present_semaphores - r.ledger.destroyed.present_semaphores,
            slots
        );
        assert_eq!(
            r.ledger.created.framebuffers - r.ledger.destroyed.framebuffers,
            slots
        );
        assert_eq!(
            r.ledger.created.image_views - r.ledger.destroyed.image_views,
            n as u64
        );
        assert_eq!(
            r.ledger.created.shader_modules,
            r.ledger.destroyed.shader_modules
        );
    }
}

#[test]
fn close_request_moves_to_shutdown() {
    let mut r = fresh_renderer(2);
    r.handle_events(&vec![WindowEvent::Other, WindowEvent::CloseRequested]);
    assert_eq!(r.phase, Phase::ShuttingDown);
    assert_eq!(r.loop_state(), LoopState::Exiting);
}

#[test]
fn escape_key_moves_to_shutdown() {
    let mut r = fresh_renderer(2);
    r.handle_events(&vec![WindowEvent::EscapePressed]);
    assert_eq!(r.phase, Phase::ShuttingDown);
}

#[test]
fn resize_only_sets_the_pending_flag() {
    let mut r = fresh_renderer(2);
    r.handle_events(&vec![WindowEvent::Resized(Extent2D { width: 10, height: 10 })]);
    assert_eq!(r.phase, Phase::PreFrame);
    assert!(r.needs_recreate());
    assert_eq!(r.loop_state(), LoopState::AwaitingRecreate);
}

#[test]
fn recorded_commands_follow_the_fixed_sequence() {
    let mut r = fresh_renderer(2);
    r.handle_events(&Vec::new());
    r.begin_frame();
    r.complete_acquire(AcquireResult::Image(1));
    r.prepare_frame();
    let sub = r.record_and_submit();
    let vp = Viewport { x: 0, y: 0, w: 768, h: 768 };
    assert_eq!(
        sub.commands,
        vec![
            RenderCommand::SetViewport(vp),
            RenderCommand::SetScissor(vp),
            RenderCommand::BindPipeline,
            RenderCommand::BindVertexBuffer { binding: 0 },
            RenderCommand::BindDescriptorSet,
            RenderCommand::BeginRenderPass { framebuffer: 1, clear_values: 1 },
            RenderCommand::Draw {
                first_vertex: 0,
                vertex_count: 18,
                first_instance: 0,
                instance_count: 1
            },
            RenderCommand::EndRenderPass,
            RenderCommand::FinishRecording,
        ]
    );
}

#[test]
fn sync_indices_cycle_across_frames() {
    let mut r = fresh_renderer(3);
    let mut seen = Vec::new();
    for frame in 0..6 {
        r.handle_events(&Vec::new());
        let s = r.begin_frame();
        seen.push(s);
        r.complete_acquire(AcquireResult::Image(frame % 3));
        r.prepare_frame();
        r.record_and_submit();
        r.complete_present(PresentOutcome::Presented);
    }
    assert_eq!(seen, vec![0, 1, 2, 0, 1, 2]);
}

#[test]
fn failed_acquisition_consumes_exactly_one_sync_index() {
    let mut r = fresh_renderer(3);
    r.handle_events(&Vec::new());
    assert_eq!(r.begin_frame(), 0);
    r.complete_acquire(AcquireResult::Retry);
    // The failed frame consumed exactly one counter call: the cursor
    // advanced from 0 to 1 and the failure did not touch it again.
    assert_eq!(r.framebuffer.last_ref, 1);
    // The recreation that the failure forces rebuilds the pool, and the
    // fresh pool's counter starts its cycle at 0 again — the same
    // policy, kept invariant across recreations.
    r.handle_events(&Vec::new());
    r.recreate_swapchain(&caps(768, 768), &None, Extent2D { width: 768, height: 768 }, 3);
    assert_eq!(r.framebuffer.last_ref, 0);
    assert_eq!(r.begin_frame(), 0);
}

#[test]
fn out_of_date_acquisition_recreates_and_renders_next_frame() {
    // Frames 1 to 4 render; frame 5's acquisition reports out-of-date;
    // the orchestrator recreates and renders frame 6 without leaking.
    let mut r = fresh_renderer(2);
    for frame in 0..4 {
        render_frame(&mut r, frame % 2);
    }
    r.handle_events(&Vec::new());
    r.begin_frame();
    r.complete_acquire(AcquireResult::Retry);
    assert_eq!(r.phase, Phase::Polling);
    assert_eq!(r.loop_state(), LoopState::AwaitingRecreate);

    r.handle_events(&Vec::new());
    assert!(r.needs_recreate());
    r.recreate_swapchain(&caps(800, 600), &None, Extent2D { width: 768, height: 768 }, 3);
    assert!(!r.needs_recreate());
    assert_eq!(r.swapchain.extent, Extent2D { width: 800, height: 600 });
    assert_eq!(r.framebuffer.slots.len(), 3);
    assert_eq!(r.framebuffer.last_ref, 0);

    // The previous generation was fully released: exactly one of each
    // singleton and one slot set remain live.
    assert_eq!(r.ledger.created.swapchains, 2);
    assert_eq!(r.ledger.destroyed.swapchains, 1);
    assert_eq!(r.ledger.created.fences - r.ledger.destroyed.fences, 3);
    assert_eq!(r.ledger.created.pipelines - r.ledger.destroyed.pipelines, 1);
    assert_eq!(
        r.ledger.created.image_views - r.ledger.destroyed.image_views,
        3
    );

    let s = r.begin_frame();
    assert_eq!(s, 0);
    r.complete_acquire(AcquireResult::Image(1));
    r.prepare_frame();
    let sub = r.record_and_submit();
    assert_eq!(sub.image_index, 1);
    r.complete_present(PresentOutcome::Presented);
    assert_eq!(r.loop_state(), LoopState::Running);
}

#[test]
fn minimized_window_keeps_polling_without_failing() {
    // Resized to 0x0: every acquisition reports out-of-date and every
    // recreation sees a zero extent; the loop must keep polling and
    // retry recreation each iteration until a size returns.
    let mut r = fresh_renderer(2);
    r.handle_events(&vec![WindowEvent::Resized(Extent2D { width: 0, height: 0 })]);
    for _ in 0..10 {
        assert!(r.needs_recreate());
        r.recreate_swapchain(&caps(0, 0), &None, Extent2D { width: 768, height: 768 }, 2);
        assert_eq!(r.swapchain.extent, Extent2D { width: 0, height: 0 });
        r.begin_frame();
        r.complete_acquire(AcquireResult::Retry);
        assert_ne!(r.loop_state(), LoopState::Exiting);
        assert_eq!(r.phase, Phase::Polling);
        r.handle_events(&Vec::new());
    }
    // The size comes back: recreation succeeds and a frame renders.
    r.recreate_swapchain(&caps(768, 768), &None, Extent2D { width: 768, height: 768 }, 2);
    r.begin_frame();
    r.complete_acquire(AcquireResult::Image(0));
    r.prepare_frame();
    r.record_and_submit();
    r.complete_present(PresentOutcome::Presented);
    assert_eq!(r.loop_state(), LoopState::Running);
}

#[test]
fn close_during_frame_lets_submission_finish_before_teardown() {
    // The close arrives while the frame is being recorded; it is only
    // seen at the next poll, so the in-flight frame completes its
    // submission and presentation, and teardown waits for the GPU
    // before destroying anything.
    let mut r = fresh_renderer(2);
    r.handle_events(&Vec::new());
    r.begin_frame();
    r.complete_acquire(AcquireResult::Image(0));
    r.prepare_frame();
    // Close requested here, mid-recording: the loop finishes the frame.
    let sub = r.record_and_submit();
    assert_eq!(sub.image_index, 0);
    r.complete_present(PresentOutcome::Presented);
    // The next poll sees the close.
    r.handle_events(&vec![WindowEvent::CloseRequested]);
    assert_eq!(r.phase, Phase::ShuttingDown);
    let plan = r.teardown();
    assert_eq!(plan[0], TeardownStep::WaitIdle);
    assert_eq!(plan[2], TeardownStep::WaitSlotFences { slots: 2 });
    assert_eq!(plan[4], TeardownStep::DestroyCommandPools { slots: 2 });
    assert_eq!(plan.len(), 19);
    assert_eq!(*plan.last().unwrap(), TeardownStep::DestroyDevice);
    // Every creation is matched by a destruction, kind by kind.
    assert_eq!(r.ledger.created, r.ledger.destroyed);
    assert_eq!(r.loop_state(), LoopState::Exiting);
}

#[test]
fn present_failure_sets_pending_recreate() {
    let mut r = fresh_renderer(2);
    r.handle_events(&Vec::new());
    r.begin_frame();
    r.complete_acquire(AcquireResult::Image(0));
    r.prepare_frame();
    r.record_and_submit();
    r.complete_present(PresentOutcome::Retry);
    assert_eq!(r.phase, Phase::Polling);
    assert!(r.needs_recreate());
    assert_eq!(r.loop_state(), LoopState::AwaitingRecreate);
}

#[test]
fn fatal_acquisition_aborts() {
    let mut r = fresh_renderer(2);
    r.handle_events(&Vec::new());
    r.begin_frame();
    r.complete_acquire(AcquireResult::Fatal);
    assert_eq!(r.phase, Phase::Aborted);
    assert_eq!(r.loop_state(), LoopState::Exiting);
}

#[test]
fn recreation_is_idempotent_at_the_orchestrator() {
    let mut r = fresh_renderer(2);
    r.handle_events(&vec![WindowEvent::Resized(Extent2D { width: 768, height: 768 })]);
    r.recreate_swapchain(&caps(768, 768), &None, Extent2D { width: 768, height: 768 }, 2);
    let first_extent = r.swapchain.extent;
    let first_format = r.swapchain.format;
    r.pending_recreate = true;
    r.recreate_swapchain(&caps(768, 768), &None, Extent2D { width: 768, height: 768 }, 2);
    assert_eq!(r.swapchain.extent, first_extent);
    assert_eq!(r.swapchain.format, first_format);
}

#[test]
fn zero_image_backend_still_renders_through_one_slot() {
    let mut r = fresh_renderer(0);
    assert_eq!(r.framebuffer.slots.len(), 1);
    r.handle_events(&Vec::new());
    assert_eq!(r.begin_frame(), 0);
    r.complete_acquire(AcquireResult::Image(0));
    r.prepare_frame();
    let sub = r.record_and_submit();
    assert_eq!(sub.signal_fence_slot, 0);
    r.complete_present(PresentOutcome::Presented);
    assert_eq!(r.loop_state(), LoopState::Running);
}

#[test]
fn uniform_format_wiring_matches_the_swapchain() {
    let formats = Some(vec![
        PixelFormat { code: 30, channel: ChannelKind::Unorm },
        PixelFormat { code: 43, channel: ChannelKind::Srgb },
    ]);
    let r = RendererState::new(
        &caps(768, 768),
        &formats,
        Extent2D { width: 768, height: 768 },
        2,
    );
    assert_eq!(r.swapchain.format.code, 43);
    assert_eq!(r.render_pass.attachment.format, r.swapchain.format);
    assert_eq!(r.pipeline.pass_format, r.swapchain.format);
}
