//! The frame loop orchestrator: the state machine that ties the
//! swapchain, the frame resource pool, the pipeline and the ledger
//! together under the recreate-on-resize policy.
//!
//! The loop shell that performs device calls lives outside the library;
//! each externally driven step of one iteration — poll events, recreate
//! if pending, acquire, wait and reset the slot, record and submit,
//! present — is one method here, and the phase field makes the calling
//! order a checked precondition. Recoverable acquisition and
//! presentation failures set the pending-recreate flag and never leave
//! the running states; only missing capability aborts.

use vstd::prelude::*;
use crate::framebuffer::{FramebufferState, SlotState, spec_slot_count, spec_sync_ret};
use crate::ledger::ResourceLedger;
use crate::pipeline::{PipelineState, spec_pipeline};
use crate::render_pass::{RenderPassState, spec_render_pass};
use crate::swapchain::{Extent2D, PixelFormat, SurfaceCaps, SwapchainState, spec_swapchain};

verus! {

/// An event the window system can deliver while the loop polls.
#[derive(Clone, Copy, PartialEq, Eq, Structural, Debug)]
pub enum WindowEvent {
    /// The user asked the window to close.
    CloseRequested,
    /// The escape key was pressed: treated as a close request.
    EscapePressed,
    /// The window was resized; the new size is read back from the
    /// surface when the swapchain is recreated.
    Resized(Extent2D),
    /// Anything else: ignored.
    Other,
}

/// What image acquisition reported.
#[derive(Clone, Copy, PartialEq, Eq, Structural, Debug)]
pub enum AcquireResult {
    /// An image is available at this index.
    Image(usize),
    /// The swapchain is out of date or suboptimal: recreate and skip
    /// the current frame; never fatal.
    Retry,
    /// A missing capability: the loop aborts.
    Fatal,
}

/// What presentation reported.
#[derive(Clone, Copy, PartialEq, Eq, Structural, Debug)]
pub enum PresentOutcome {
    /// The image was handed to the presentation engine.
    Presented,
    /// The swapchain is out of date: recreate and continue; never
    /// fatal.
    Retry,
}

/// Where the loop stands between two externally driven steps.
#[derive(Clone, Copy, PartialEq, Eq, Structural, Debug)]
pub enum Phase {
    /// Top of an iteration: events must be polled next.
    Polling,
    /// Events handled; a pending recreate must run before acquisition.
    PreFrame,
    /// An acquisition using this semaphore pair is outstanding.
    AwaitingAcquire { sync_index: usize },
    /// An image was acquired; its slot's fence must be waited and the
    /// slot reset before recording.
    FramePrep { sync_index: usize, image_index: usize },
    /// The slot is reset; commands are recorded and submitted next.
    ReadyToRecord { sync_index: usize, image_index: usize },
    /// The frame was submitted; the presentation outcome is pending.
    AwaitingPresent { sync_index: usize, image_index: usize },
    /// A close was requested: teardown must run.
    ShuttingDown,
    /// Torn down; every resource released.
    Finished,
    /// A fatal error was reported; the process exits.
    Aborted,
}

/// The loop's coarse state.
#[derive(Clone, Copy, PartialEq, Eq, Structural, Debug)]
pub enum LoopState {
    /// Rendering frames.
    Running,
    /// Rendering, with a recreation owed before the next acquisition.
    AwaitingRecreate,
    /// Closing down (or closed, or aborted).
    Exiting,
}

/// The viewport, derived from the current swapchain extent and
/// recomputed on every recreation. The depth range is the fixed unit
/// interval and is supplied by the device-facing shell.
#[derive(Clone, Copy, PartialEq, Eq, Structural, Debug)]
pub struct Viewport {
    pub x: u32,
    pub y: u32,
    pub w: u32,
    pub h: u32,
}

/// The viewport covering the given extent.
pub open spec fn spec_viewport(extent: Extent2D) -> Viewport {
    Viewport { x: 0u32, y: 0u32, w: extent.width, h: extent.height }
}

/// One command of the recorded frame, in recording order.
#[derive(Clone, Copy, PartialEq, Eq, Structural, Debug)]
pub enum RenderCommand {
    SetViewport(Viewport),
    SetScissor(Viewport),
    BindPipeline,
    BindVertexBuffer { binding: u32 },
    BindDescriptorSet,
    BeginRenderPass { framebuffer: usize, clear_values: usize },
    Draw { first_vertex: u32, vertex_count: u32, first_instance: u32, instance_count: u32 },
    EndRenderPass,
    FinishRecording,
}

/// The pipeline stage a submission waits at.
#[derive(Clone, Copy, PartialEq, Eq, Structural, Debug)]
pub enum PipelineStage {
    ColorAttachmentOutput,
    BottomOfPipe,
}

/// One frame's submission: the recorded commands and the semaphores and
/// fence wired around them.
pub struct Submission {
    /// The commands, in recording order.
    pub commands: Vec<RenderCommand>,
    /// Semaphore pair index whose acquire semaphore the submission
    /// waits on.
    pub wait_semaphore: usize,
    /// Stage the wait applies at.
    pub wait_stage: PipelineStage,
    /// Semaphore pair index whose present semaphore the submission
    /// signals.
    pub signal_semaphore: usize,
    /// Frame slot whose fence the submission signals on retirement.
    pub signal_fence_slot: usize,
    /// Image index to present once the present semaphore signals.
    pub image_index: usize,
}

/// The commands one frame records: viewport and scissor from the
/// current viewport, the pipeline, the vertex buffer at binding 0, the
/// descriptor set, one render pass on the acquired image's framebuffer
/// with a single clear value, and one unindexed draw covering all
/// eighteen vertices as six triangles.
pub open spec fn spec_commands(vp: Viewport, image_index: usize) -> Seq<RenderCommand> {
    seq![
        RenderCommand::SetViewport(vp),
        RenderCommand::SetScissor(vp),
        RenderCommand::BindPipeline,
        RenderCommand::BindVertexBuffer { binding: 0u32 },
        RenderCommand::BindDescriptorSet,
        RenderCommand::BeginRenderPass { framebuffer: image_index, clear_values: 1usize },
        RenderCommand::Draw {
            first_vertex: 0u32,
            vertex_count: 18u32,
            first_instance: 0u32,
            instance_count: 1u32,
        },
        RenderCommand::EndRenderPass,
        RenderCommand::FinishRecording,
    ]
}

/// The single draw covers the whole static geometry: it starts at
/// vertex 0 and its vertex count equals the length of the eighteen
/// point sequence, in one instance.
pub proof fn lemma_draw_covers_geometry(vp: Viewport, image_index: usize)
    ensures
        spec_commands(vp, image_index)[6] matches RenderCommand::Draw {
            first_vertex,
            vertex_count,
            first_instance,
            instance_count,
        } && first_vertex == 0 && vertex_count == crate::geometry::hex_seq().len()
            && first_instance == 0 && instance_count == 1,
{
    assert(crate::geometry::hex_seq().len() == 18);
}

/// A close was asked for somewhere in the polled events: either a
/// close request or the escape key.
pub open spec fn spec_close_requested(events: Seq<WindowEvent>) -> bool
    decreases events.len(),
{
    if events.len() == 0 {
        false
    } else {
        spec_close_requested(events.drop_last()) || events.last() is CloseRequested
            || events.last() is EscapePressed
    }
}

/// A resize was delivered somewhere in the polled events.
pub open spec fn spec_resize_requested(events: Seq<WindowEvent>) -> bool
    decreases events.len(),
{
    if events.len() == 0 {
        false
    } else {
        spec_resize_requested(events.drop_last()) || events.last() is Resized
    }
}

/// `spec_close_requested` holds exactly when some polled event is a
/// close request or an escape press.
pub proof fn lemma_close_requested_exists(events: Seq<WindowEvent>)
    ensures
        spec_close_requested(events) <==> exists|i: int|
            0 <= i < events.len() && (#[trigger] events[i] is CloseRequested
                || events[i] is EscapePressed),
    decreases events.len(),
{
    if events.len() > 0 {
        lemma_close_requested_exists(events.drop_last());
        let prefix = events.drop_last();
        if spec_close_requested(prefix) {
            let i = choose|i: int|
                0 <= i < prefix.len() && (#[trigger] prefix[i] is CloseRequested
                    || prefix[i] is EscapePressed);
            assert(events[i] is CloseRequested || events[i] is EscapePressed);
        }
        if events.last() is CloseRequested || events.last() is EscapePressed {
            assert(events[events.len() - 1] is CloseRequested || events[events.len() - 1]
                is EscapePressed);
        }
        if exists|i: int|
            0 <= i < events.len() && (#[trigger] events[i] is CloseRequested || events[i]
                is EscapePressed) {
            let i = choose|i: int|
                0 <= i < events.len() && (#[trigger] events[i] is CloseRequested || events[i]
                    is EscapePressed);
            if i < events.len() - 1 {
                assert(prefix[i] is CloseRequested || prefix[i] is EscapePressed);
            }
        }
    }
}

/// `spec_resize_requested` holds exactly when some polled event is a
/// resize.
pub proof fn lemma_resize_requested_exists(events: Seq<WindowEvent>)
    ensures
        spec_resize_requested(events) <==> exists|i: int|
            0 <= i < events.len() && #[trigger] events[i] is Resized,
    decreases events.len(),
{
    if events.len() > 0 {
        lemma_resize_requested_exists(events.drop_last());
        let prefix = events.drop_last();
        if spec_resize_requested(prefix) {
            let i = choose|i: int| 0 <= i < prefix.len() && #[trigger] prefix[i] is Resized;
            assert(events[i] is Resized);
        }
        if events.last() is Resized {
            assert(events[events.len() - 1] is Resized);
        }
        if exists|i: int| 0 <= i < events.len() && #[trigger] events[i] is Resized {
            let i = choose|i: int| 0 <= i < events.len() && #[trigger] events[i] is Resized;
            if i < events.len() - 1 {
                assert(prefix[i] is Resized);
            }
        }
    }
}

/// One ordered step of final teardown, for the device-facing shell to
/// execute.
#[derive(Clone, Copy, PartialEq, Eq, Structural, Debug)]
pub enum TeardownStep {
    /// Block until all outstanding GPU work on the device completes.
    WaitIdle,
    DestroyDescriptorPool,
    /// Wait each slot's fence in turn.
    WaitSlotFences { slots: usize },
    DestroyFences { slots: usize },
    DestroyCommandPools { slots: usize },
    DestroyAcquireSemaphores { slots: usize },
    DestroyPresentSemaphores { slots: usize },
    DestroyFramebuffers { slots: usize },
    DestroyImageViews { views: usize },
    DestroyPipeline,
    DestroyPipelineLayout,
    DestroyRenderPass,
    DestroySwapchain,
    DestroyVertexBuffer,
    FreeVertexBufferMemory,
    DestroyUniformBuffer,
    FreeUniformBufferMemory,
    DestroyDescriptorSetLayout,
    DestroyDevice,
}

/// The fixed teardown order: the idle wait first, then reverse
/// dependency order — descriptor pool, the frame resource pool (each
/// fence waited before the command pools go), pipeline bundle, render
/// target pass, swapchain, the static buffers, and the device last.
pub open spec fn spec_teardown_plan(slots: usize, views: usize) -> Seq<TeardownStep> {
    seq![
        TeardownStep::WaitIdle,
        TeardownStep::DestroyDescriptorPool,
        TeardownStep::WaitSlotFences { slots },
        TeardownStep::DestroyFences { slots },
        TeardownStep::DestroyCommandPools { slots },
        TeardownStep::DestroyAcquireSemaphores { slots },
        TeardownStep::DestroyPresentSemaphores { slots },
        TeardownStep::DestroyFramebuffers { slots },
        TeardownStep::DestroyImageViews { views },
        TeardownStep::DestroyPipeline,
        TeardownStep::DestroyPipelineLayout,
        TeardownStep::DestroyRenderPass,
        TeardownStep::DestroySwapchain,
        TeardownStep::DestroyVertexBuffer,
        TeardownStep::FreeVertexBufferMemory,
        TeardownStep::DestroyUniformBuffer,
        TeardownStep::FreeUniformBufferMemory,
        TeardownStep::DestroyDescriptorSetLayout,
        TeardownStep::DestroyDevice,
    ]
}

/// Teardown lets in-flight work finish before anything is destroyed:
/// the idle wait is the very first step, the slot fences are waited
/// before the command pools are destroyed, and no step after the first
/// is another wait-for-idle.
pub proof fn lemma_teardown_waits_before_destroying(slots: usize, views: usize)
    ensures
        spec_teardown_plan(slots, views).len() == 19,
        spec_teardown_plan(slots, views)[0] is WaitIdle,
        spec_teardown_plan(slots, views)[2] == (TeardownStep::WaitSlotFences { slots }),
        spec_teardown_plan(slots, views)[4] == (TeardownStep::DestroyCommandPools { slots }),
        spec_teardown_plan(slots, views)[18] is DestroyDevice,
{
}

/// In every well-formed loop state, a slot is mid-recording only while
/// the loop stands between that slot's reset and its submission, and it
/// is the acquired slot. Since the only way into `Recording` is the
/// pool's reset, whose precondition is a signaled fence, a slot's
/// command pool is never reused before the GPU work of its previous use
/// has retired.
pub proof fn lemma_recording_only_for_acquired_slot(r: RendererState)
    requires
        r.wf(),
    ensures
        forall|j: int|
            0 <= j < r.framebuffer.slot_count() && #[trigger] r.framebuffer.slots@[j] is Recording
                ==> (r.phase matches Phase::ReadyToRecord { image_index, .. } && image_index == j),
{
}

/// The frame loop's entire state: the current phase, the
/// extent/format-coupled resource group, and the ledger that balances
/// every creation against its destruction.
pub struct RendererState {
    /// Where the loop stands.
    pub phase: Phase,
    /// A resize or a recoverable failure asked for recreation; it runs
    /// before the next acquisition.
    pub pending_recreate: bool,
    /// The current swapchain configuration.
    pub swapchain: SwapchainState,
    /// How many presentable images the backend actually returned for
    /// the current swapchain (possibly zero).
    pub image_count: usize,
    /// The render target pass, tied to the swapchain's format.
    pub render_pass: RenderPassState,
    /// The pipeline bundle, tied to the render pass.
    pub pipeline: PipelineState,
    /// The frame resource pool, one slot per image (at least one).
    pub framebuffer: FramebufferState,
    /// The viewport, derived from the swapchain's extent.
    pub viewport: Viewport,
    /// The resource ledger.
    pub ledger: ResourceLedger,
}

impl RendererState {
    /// The coarse loop state: `Exiting` once a close or a fatal error
    /// was seen, `AwaitingRecreate` while a recreation is owed,
    /// `Running` otherwise.
    pub open spec fn spec_loop_state(self) -> LoopState {
        if self.phase is ShuttingDown || self.phase is Finished || self.phase is Aborted {
            LoopState::Exiting
        } else if self.pending_recreate {
            LoopState::AwaitingRecreate
        } else {
            LoopState::Running
        }
    }

    /// The live ledger counts equal exactly what the current resource
    /// graph owns: no leak and no double free, at every step.
    pub open spec fn ledger_matches(self) -> bool {
        let n = self.framebuffer.slot_count();
        &&& self.ledger.live_fences() == n
        &&& self.ledger.live_command_pools() == n
        &&& self.ledger.live_acquire_semaphores() == n
        &&& self.ledger.live_present_semaphores() == n
        &&& self.ledger.live_framebuffers() == n
        &&& self.ledger.live_image_views() == self.image_count
        &&& self.ledger.live_swapchains() == 1
        &&& self.ledger.live_render_passes() == 1
        &&& self.ledger.live_pipelines() == 1
        &&& self.ledger.live_pipeline_layouts() == 1
        &&& self.ledger.live_shader_modules() == 0
        &&& self.ledger.live_buffers() == 2
        &&& self.ledger.live_memories() == 2
        &&& self.ledger.live_descriptor_pools() == 1
        &&& self.ledger.live_descriptor_set_layouts() == 1
    }

    /// The phase's indices are in range and the pool's slot states fit
    /// the phase: a slot is mid-recording exactly while the loop is
    /// between reset and submission, and only the acquired slot is.
    pub open spec fn slots_coherent(self) -> bool {
        match self.phase {
            Phase::AwaitingAcquire { sync_index } => {
                &&& sync_index < self.framebuffer.sync_pair_count()
                &&& self.framebuffer.no_slot_recording()
            },
            Phase::FramePrep { sync_index, image_index } => {
                &&& sync_index < self.framebuffer.sync_pair_count()
                &&& image_index < self.framebuffer.slot_count()
                &&& self.framebuffer.no_slot_recording()
            },
            Phase::ReadyToRecord { sync_index, image_index } => {
                &&& sync_index < self.framebuffer.sync_pair_count()
                &&& image_index < self.framebuffer.slot_count()
                &&& self.framebuffer.slots@[image_index as int] is Recording
                &&& forall|j: int|
                    0 <= j < self.framebuffer.slot_count() && j != image_index ==> !(
                    #[trigger] self.framebuffer.slots@[j] is Recording)
            },
            Phase::AwaitingPresent { sync_index, image_index } => {
                &&& sync_index < self.framebuffer.sync_pair_count()
                &&& image_index < self.framebuffer.slot_count()
                &&& self.framebuffer.no_slot_recording()
            },
            _ => self.framebuffer.no_slot_recording(),
        }
    }

    /// Well-formedness: the pool matches the image count, every
    /// format/extent-coupled description is derived from the current
    /// swapchain, the phase and the slots agree, and the ledger
    /// balances — fully released once torn down, matching the live
    /// graph otherwise.
    pub open spec fn wf(self) -> bool {
        &&& self.framebuffer.wf()
        &&& self.framebuffer.slot_count() == spec_slot_count(self.image_count as int)
        &&& self.render_pass == spec_render_pass(self.swapchain.format)
        &&& self.pipeline == spec_pipeline(self.swapchain.format, 1)
        &&& self.viewport == spec_viewport(self.swapchain.extent)
        &&& self.ledger.wf()
        &&& self.slots_coherent()
        &&& if self.phase is Finished {
            self.ledger.all_released()
        } else {
            self.ledger_matches()
        }
    }

    /// The viewport for the given swapchain: the full extent, at the
    /// origin.
    pub fn create_viewport(swapchain: &SwapchainState) -> (vp: Viewport)
        ensures
            vp == spec_viewport(swapchain.extent),
    {
        Viewport { x: 0, y: 0, w: swapchain.extent.width, h: swapchain.extent.height }
    }

    /// Builds the initial state from the surface's first report:
    /// derives the swapchain configuration, builds the render pass,
    /// pipeline and viewport against it, sizes the frame resource pool
    /// by the image count the backend returned (`image_count`, possibly
    /// zero — the pool still gets one slot), and opens the ledger with
    /// exactly one generation plus the static resources. The loop
    /// starts at the top of its first iteration, with nothing pending.
    pub fn new(
        caps: &SurfaceCaps,
        formats: &Option<Vec<PixelFormat>>,
        default_extent: Extent2D,
        image_count: usize,
    ) -> (r: RendererState)
        requires
            formats matches Some(v) ==> v@.len() > 0,
            caps.extent_max.width >= 1,
            caps.extent_max.height >= 1,
        ensures
            r.wf(),
            r.phase is Polling,
            !r.pending_recreate,
            r.spec_loop_state() is Running,
            r.swapchain == spec_swapchain(
                *caps,
                match *formats {
                    Some(v) => Some(v@),
                    None => None,
                },
                default_extent,
            ),
            r.image_count == image_count,
            r.framebuffer.slot_count() == spec_slot_count(image_count as int),
            r.framebuffer.sync_pair_count() == r.framebuffer.slot_count(),
            r.framebuffer.last_ref == 0,
            forall|i: int| 0 <= i < r.framebuffer.slot_count() ==> r.framebuffer.fence_signaled(i),
    {
        let swapchain = SwapchainState::new(caps, formats, default_extent);
        let render_pass = RenderPassState::new(swapchain.format);
        let pipeline = PipelineState::new(swapchain.format, 1);
        let viewport = RendererState::create_viewport(&swapchain);
        let framebuffer = FramebufferState::new(image_count);
        let slots = framebuffer.slots.len();
        let mut ledger = ResourceLedger::new();
        ledger.create_static();
        ledger.create_generation(slots as u64, image_count as u64);
        proof {
            assert forall|i: int|
                0 <= i < framebuffer.slot_count() implies !(#[trigger] framebuffer.slots@[i]
                is Recording) by {
                assert(framebuffer.fence_signaled(i));
            }
        }
        RendererState {
            phase: Phase::Polling,
            pending_recreate: false,
            swapchain,
            image_count,
            render_pass,
            pipeline,
            framebuffer,
            viewport,
            ledger,
        }
    }

    /// Handles one batch of polled events, at the top of an iteration:
    /// a close request or an escape press moves the loop to shutdown
    /// (after the previous iteration already finished cleanly); a
    /// resize only sets the pending-recreate flag. Nothing else — no
    /// resource, no counter — changes.
    pub fn handle_events(&mut self, events: &Vec<WindowEvent>)
        requires
            old(self).wf(),
            old(self).phase is Polling,
        ensures
            final(self).wf(),
            final(self).phase == if spec_close_requested(events@) {
                Phase::ShuttingDown
            } else {
                Phase::PreFrame
            },
            final(self).pending_recreate == (old(self).pending_recreate || spec_resize_requested(
                events@,
            )),
            final(self).swapchain == old(self).swapchain,
            final(self).image_count == old(self).image_count,
            final(self).framebuffer == old(self).framebuffer,
            final(self).ledger == old(self).ledger,
            final(self).render_pass == old(self).render_pass,
            final(self).pipeline == old(self).pipeline,
            final(self).viewport == old(self).viewport,
    {
        let mut close = false;
        let mut resize = false;
        let mut idx: usize = 0;
        while idx < events.len()
            invariant
                idx <= events@.len(),
                close == spec_close_requested(events@.subrange(0, idx as int)),
                resize == spec_resize_requested(events@.subrange(0, idx as int)),
            decreases events@.len() - idx,
        {
            proof {
                assert(events@.subrange(0, idx + 1).drop_last() =~= events@.subrange(
                    0,
                    idx as int,
                ));
                assert(events@.subrange(0, idx + 1).last() == events@[idx as int]);
            }
            match events[idx] {
                WindowEvent::CloseRequested => {
                    close = true;
                },
                WindowEvent::EscapePressed => {
                    close = true;
                },
                WindowEvent::Resized(_) => {
                    resize = true;
                },
                WindowEvent::Other => {},
            }
            idx = idx + 1;
        }
        proof {
            assert(events@.subrange(0, events@.len() as int) =~= events@);
        }
        if resize {
            self.pending_recreate = true;
        }
        if close {
            self.phase = Phase::ShuttingDown;
        } else {
            self.phase = Phase::PreFrame;
        }
    }

    /// Whether a recreation is owed before the next acquisition.
    pub fn needs_recreate(&self) -> (b: bool)
        ensures
            b == self.pending_recreate,
    {
        self.pending_recreate
    }

    /// Performs the pending recreation as one atomic group, after the
    /// shell's idle wait: the swapchain configuration is derived anew
    /// from the surface's fresh report, and the render pass, frame
    /// resource pool, pipeline and viewport are rebuilt against it
    /// together. The old generation is released in full — the ledger
    /// owes it — and the new pool starts with every fence signaled and
    /// the semaphore cursor back at pair 0. The new configuration
    /// depends on nothing but the arguments, which is what makes
    /// recreation idempotent under a no-op resize.
    pub fn recreate_swapchain(
        &mut self,
        caps: &SurfaceCaps,
        formats: &Option<Vec<PixelFormat>>,
        default_extent: Extent2D,
        image_count: usize,
    )
        requires
            old(self).wf(),
            old(self).phase is PreFrame,
            old(self).pending_recreate,
            formats matches Some(v) ==> v@.len() > 0,
            caps.extent_max.width >= 1,
            caps.extent_max.height >= 1,
            old(self).ledger.can_create_generation(
                spec_slot_count(image_count as int) as u64,
                image_count as u64,
            ),
        ensures
            final(self).wf(),
            final(self).phase is PreFrame,
            !final(self).pending_recreate,
            final(self).swapchain == spec_swapchain(
                *caps,
                match *formats {
                    Some(v) => Some(v@),
                    None => None,
                },
                default_extent,
            ),
            final(self).image_count == image_count,
            final(self).framebuffer.slot_count() == spec_slot_count(image_count as int),
            final(self).framebuffer.sync_pair_count() == final(self).framebuffer.slot_count(),
            final(self).framebuffer.last_ref == 0,
            forall|i: int|
                0 <= i < final(self).framebuffer.slot_count()
                    ==> final(self).framebuffer.fence_signaled(i),
            final(self).ledger.created.swapchains == old(self).ledger.created.swapchains + 1,
            final(self).ledger.destroyed.swapchains == old(self).ledger.destroyed.swapchains + 1,
            final(self).ledger.created.fences == old(self).ledger.created.fences + spec_slot_count(
                image_count as int,
            ),
            final(self).ledger.destroyed.fences == old(self).ledger.destroyed.fences + old(
                self,
            ).framebuffer.slot_count(),
            final(self).ledger.created.image_views == old(self).ledger.created.image_views
                + image_count,
            final(self).ledger.destroyed.image_views == old(self).ledger.destroyed.image_views
                + old(self).image_count,
    {
        let old_slots = self.framebuffer.slots.len();
        let old_views = self.image_count;
        self.framebuffer.wait_all_fences();
        self.ledger.destroy_generation(old_slots as u64, old_views as u64);
        let swapchain = SwapchainState::new(caps, formats, default_extent);
        let render_pass = RenderPassState::new(swapchain.format);
        let pipeline = PipelineState::new(swapchain.format, 1);
        let viewport = RendererState::create_viewport(&swapchain);
        let framebuffer = FramebufferState::new(image_count);
        let new_slots = framebuffer.slots.len();
        self.ledger.create_generation(new_slots as u64, image_count as u64);
        self.swapchain = swapchain;
        self.render_pass = render_pass;
        self.pipeline = pipeline;
        self.viewport = viewport;
        self.framebuffer = framebuffer;
        self.image_count = image_count;
        self.pending_recreate = false;
        proof {
            assert forall|i: int|
                0 <= i < self.framebuffer.slot_count() implies !(#[trigger] self.framebuffer.slots@[i]
                is Recording) by {
                assert(self.framebuffer.fence_signaled(i));
            }
        }
    }

    /// Obtains the sync pair for this frame, before acquisition: the
    /// round-robin counter advances by exactly one, whatever the
    /// acquisition will report. No recreation may be owed here.
    pub fn begin_frame(&mut self) -> (sync_index: usize)
        requires
            old(self).wf(),
            old(self).phase is PreFrame,
            !old(self).pending_recreate,
        ensures
            final(self).wf(),
            final(self).phase == (Phase::AwaitingAcquire { sync_index }),
            sync_index == spec_sync_ret(
                old(self).framebuffer.last_ref as int,
                old(self).framebuffer.sync_pair_count(),
            ),
            sync_index < old(self).framebuffer.sync_pair_count(),
            final(self).framebuffer.last_ref == sync_index + 1,
            final(self).framebuffer.slots@ == old(self).framebuffer.slots@,
            !final(self).pending_recreate,
            final(self).swapchain == old(self).swapchain,
            final(self).image_count == old(self).image_count,
            final(self).ledger == old(self).ledger,
    {
        let sync_index = self.framebuffer.next_acq_pre_pair_index();
        self.phase = Phase::AwaitingAcquire { sync_index };
        sync_index
    }

    /// Feeds back what acquisition reported. An image index moves the
    /// frame on to slot preparation (the index must be in range: the
    /// pool is sized to the image count, and a miss would be a
    /// programming error the shell fails loudly on). `Retry` — out of
    /// date or suboptimal — sets the pending-recreate flag and skips
    /// the rest of the frame; the loop keeps running and the counter is
    /// not consumed again. Only `Fatal` aborts.
    pub fn complete_acquire(&mut self, outcome: AcquireResult)
        requires
            old(self).wf(),
            old(self).phase matches Phase::AwaitingAcquire { sync_index },
            outcome matches AcquireResult::Image(i) ==> i < old(self).framebuffer.slot_count(),
        ensures
            final(self).wf(),
            final(self).phase == match outcome {
                AcquireResult::Image(i) => (Phase::FramePrep {
                    sync_index: old(self).phase->AwaitingAcquire_sync_index,
                    image_index: i,
                }),
                AcquireResult::Retry => Phase::Polling,
                AcquireResult::Fatal => Phase::Aborted,
            },
            final(self).pending_recreate == (old(self).pending_recreate || outcome
                is Retry),
            outcome is Retry ==> final(self).spec_loop_state() is AwaitingRecreate,
            final(self).framebuffer == old(self).framebuffer,
            final(self).swapchain == old(self).swapchain,
            final(self).image_count == old(self).image_count,
            final(self).ledger == old(self).ledger,
    {
        match outcome {
            AcquireResult::Image(image_index) => {
                let sync_index = match self.phase {
                    Phase::AwaitingAcquire { sync_index } => sync_index,
                    _ => {
                        proof {
                            assert(false);
                        }
                        0
                    },
                };
                self.phase = Phase::FramePrep { sync_index, image_index };
            },
            AcquireResult::Retry => {
                self.pending_recreate = true;
                self.phase = Phase::Polling;
            },
            AcquireResult::Fatal => {
                self.phase = Phase::Aborted;
            },
        }
    }

    /// Prepares the acquired slot for recording: blocks on the slot's
    /// fence until the GPU work of the slot's previous use has retired,
    /// and only then resets the fence and the slot's command pool. The
    /// wait comes first by construction, so a pool is never reused
    /// before retirement.
    pub fn prepare_frame(&mut self)
        requires
            old(self).wf(),
            old(self).phase matches Phase::FramePrep { sync_index, image_index },
        ensures
            final(self).wf(),
            final(self).phase == (Phase::ReadyToRecord {
                sync_index: old(self).phase->FramePrep_sync_index,
                image_index: old(self).phase->FramePrep_image_index,
            }),
            final(self).framebuffer.slots@ == old(self).framebuffer.slots@.update(
                old(self).phase->FramePrep_image_index as int,
                SlotState::Recording,
            ),
            final(self).framebuffer.last_ref == old(self).framebuffer.last_ref,
            final(self).pending_recreate == old(self).pending_recreate,
            final(self).swapchain == old(self).swapchain,
            final(self).image_count == old(self).image_count,
            final(self).ledger == old(self).ledger,
    {
        let (sync_index, image_index) = match self.phase {
            Phase::FramePrep { sync_index, image_index } => (sync_index, image_index),
            _ => {
                proof {
                    assert(false);
                }
                (0, 0)
            },
        };
        self.framebuffer.wait_fence(image_index);
        self.framebuffer.begin_recording(image_index);
        self.phase = Phase::ReadyToRecord { sync_index, image_index };
        proof {
            let fb = self.framebuffer;
            assert forall|j: int|
                0 <= j < fb.slot_count() && j != image_index implies !(#[trigger] fb.slots@[j]
                is Recording) by {
                assert(old(self).framebuffer.slots@[j] == fb.slots@[j]);
            }
        }
    }

    /// Records and submits the frame: the fixed command sequence —
    /// viewport, scissor, pipeline, vertex buffer at binding 0, the
    /// descriptor set, one render pass on the acquired image's
    /// framebuffer with a single clear, one unindexed draw of all
    /// eighteen vertices — submitted waiting on the pair's acquire
    /// semaphore at the color-attachment-output stage, signaling the
    /// pair's present semaphore and the slot's fence. The slot is in
    /// flight from here until its fence is next waited.
    pub fn record_and_submit(&mut self) -> (sub: Submission)
        requires
            old(self).wf(),
            old(self).phase matches Phase::ReadyToRecord { sync_index, image_index },
        ensures
            final(self).wf(),
            final(self).phase == (Phase::AwaitingPresent {
                sync_index: old(self).phase->ReadyToRecord_sync_index,
                image_index: old(self).phase->ReadyToRecord_image_index,
            }),
            sub.commands@ == spec_commands(
                old(self).viewport,
                old(self).phase->ReadyToRecord_image_index,
            ),
            sub.wait_semaphore == old(self).phase->ReadyToRecord_sync_index,
            sub.wait_stage is ColorAttachmentOutput,
            sub.signal_semaphore == old(self).phase->ReadyToRecord_sync_index,
            sub.signal_fence_slot == old(self).phase->ReadyToRecord_image_index,
            sub.image_index == old(self).phase->ReadyToRecord_image_index,
            final(self).framebuffer.slots@ == old(self).framebuffer.slots@.update(
                old(self).phase->ReadyToRecord_image_index as int,
                SlotState::InFlight,
            ),
            final(self).framebuffer.last_ref == old(self).framebuffer.last_ref,
            final(self).pending_recreate == old(self).pending_recreate,
            final(self).swapchain == old(self).swapchain,
            final(self).image_count == old(self).image_count,
            final(self).ledger == old(self).ledger,
    {
        let (sync_index, image_index) = match self.phase {
            Phase::ReadyToRecord { sync_index, image_index } => (sync_index, image_index),
            _ => {
                proof {
                    assert(false);
                }
                (0, 0)
            },
        };
        let mut commands: Vec<RenderCommand> = Vec::new();
        commands.push(RenderCommand::SetViewport(self.viewport));
        commands.push(RenderCommand::SetScissor(self.viewport));
        commands.push(RenderCommand::BindPipeline);
        commands.push(RenderCommand::BindVertexBuffer { binding: 0 });
        commands.push(RenderCommand::BindDescriptorSet);
        commands.push(RenderCommand::BeginRenderPass { framebuffer: image_index, clear_values: 1 });
        commands.push(
            RenderCommand::Draw {
                first_vertex: 0,
                vertex_count: 18,
                first_instance: 0,
                instance_count: 1,
            },
        );
        commands.push(RenderCommand::EndRenderPass);
        commands.push(RenderCommand::FinishRecording);
        proof {
            assert(commands@ =~= spec_commands(self.viewport, image_index));
        }
        self.framebuffer.mark_submitted(image_index);
        self.phase = Phase::AwaitingPresent { sync_index, image_index };
        proof {
            let fb = self.framebuffer;
            assert forall|j: int|
                0 <= j < fb.slot_count() implies !(#[trigger] fb.slots@[j] is Recording) by {
                if j != image_index {
                    assert(old(self).framebuffer.slots@[j] == fb.slots@[j]);
                }
            }
        }
        Submission {
            commands,
            wait_semaphore: sync_index,
            wait_stage: PipelineStage::ColorAttachmentOutput,
            signal_semaphore: sync_index,
            signal_fence_slot: image_index,
            image_index,
        }
    }

    /// Feeds back what presentation reported, closing the iteration:
    /// the loop returns to polling either way, and an out-of-date
    /// result only sets the pending-recreate flag — presentation
    /// failures are expected under resize and never crash the loop.
    pub fn complete_present(&mut self, outcome: PresentOutcome)
        requires
            old(self).wf(),
            old(self).phase matches Phase::AwaitingPresent { sync_index, image_index },
        ensures
            final(self).wf(),
            final(self).phase is Polling,
            final(self).pending_recreate == (old(self).pending_recreate || outcome
                is Retry),
            final(self).framebuffer == old(self).framebuffer,
            final(self).swapchain == old(self).swapchain,
            final(self).image_count == old(self).image_count,
            final(self).ledger == old(self).ledger,
    {
        match outcome {
            PresentOutcome::Presented => {},
            PresentOutcome::Retry => {
                self.pending_recreate = true;
            },
        }
        self.phase = Phase::Polling;
    }

    /// Tears everything down after a close: the in-flight work is
    /// waited for first — the idle wait and the per-slot fence waits
    /// precede every destruction — and then the whole resource graph is
    /// released in reverse dependency order. The returned plan is the
    /// exact ordered step list for the shell to execute; afterwards the
    /// ledger shows every creation matched by a destruction.
    pub fn teardown(&mut self) -> (plan: Vec<TeardownStep>)
        requires
            old(self).wf(),
            old(self).phase is ShuttingDown,
        ensures
            final(self).wf(),
            final(self).phase is Finished,
            final(self).spec_loop_state() is Exiting,
            final(self).ledger.all_released(),
            plan@ == spec_teardown_plan(
                old(self).framebuffer.slots@.len() as usize,
                old(self).image_count,
            ),
            plan@[0] is WaitIdle,
    {
        let slots = self.framebuffer.slots.len();
        let views = self.image_count;
        self.framebuffer.wait_all_fences();
        self.ledger.destroy_generation(slots as u64, views as u64);
        self.ledger.destroy_static();
        self.phase = Phase::Finished;
        proof {
            assert(self.ledger.destroyed == self.ledger.created);
            let fb = self.framebuffer;
            assert forall|i: int|
                0 <= i < fb.slot_count() implies !(#[trigger] fb.slots@[i] is Recording) by {
                assert(fb.fence_signaled(i));
            }
        }
        let mut plan: Vec<TeardownStep> = Vec::new();
        plan.push(TeardownStep::WaitIdle);
        plan.push(TeardownStep::DestroyDescriptorPool);
        plan.push(TeardownStep::WaitSlotFences { slots });
        plan.push(TeardownStep::DestroyFences { slots });
        plan.push(TeardownStep::DestroyCommandPools { slots });
        plan.push(TeardownStep::DestroyAcquireSemaphores { slots });
        plan.push(TeardownStep::DestroyPresentSemaphores { slots });
        plan.push(TeardownStep::DestroyFramebuffers { slots });
        plan.push(TeardownStep::DestroyImageViews { views });
        plan.push(TeardownStep::DestroyPipeline);
        plan.push(TeardownStep::DestroyPipelineLayout);
        plan.push(TeardownStep::DestroyRenderPass);
        plan.push(TeardownStep::DestroySwapchain);
        plan.push(TeardownStep::DestroyVertexBuffer);
        plan.push(TeardownStep::FreeVertexBufferMemory);
        plan.push(TeardownStep::DestroyUniformBuffer);
        plan.push(TeardownStep::FreeUniformBufferMemory);
        plan.push(TeardownStep::DestroyDescriptorSetLayout);
        plan.push(TeardownStep::DestroyDevice);
        proof {
            assert(plan@ =~= spec_teardown_plan(slots, views));
        }
        plan
    }

    /// The coarse loop state, for the shell and for tests.
    pub fn loop_state(&self) -> (s: LoopState)
        ensures
            s == self.spec_loop_state(),
    {
        match self.phase {
            Phase::ShuttingDown => LoopState::Exiting,
            Phase::Finished => LoopState::Exiting,
            Phase::Aborted => LoopState::Exiting,
            _ => {
                if self.pending_recreate {
                    LoopState::AwaitingRecreate
                } else {
                    LoopState::Running
                }
            },
        }
    }
}

} // verus!
