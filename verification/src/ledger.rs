//! The resource ledger: every GPU object creation balanced against its
//! destruction, per kind. The frame loop carries the ledger through
//! startup, every swapchain recreation and final teardown, so "nothing
//! leaks" is not a convention but an invariant: at every step the live
//! count of each kind equals what the current resource graph owns, and
//! after teardown every count returns to zero.

use vstd::prelude::*;

verus! {

/// Cumulative counts of GPU objects, one field per kind.
#[derive(Clone, Copy, PartialEq, Eq, Structural, Debug)]
pub struct ResourceCounts {
    pub fences: u64,
    pub command_pools: u64,
    pub acquire_semaphores: u64,
    pub present_semaphores: u64,
    pub framebuffers: u64,
    pub image_views: u64,
    pub swapchains: u64,
    pub render_passes: u64,
    pub pipelines: u64,
    pub pipeline_layouts: u64,
    pub shader_modules: u64,
    pub buffers: u64,
    pub memories: u64,
    pub descriptor_pools: u64,
    pub descriptor_set_layouts: u64,
}

/// All counts zero.
pub open spec fn spec_zero_counts() -> ResourceCounts {
    ResourceCounts {
        fences: 0u64,
        command_pools: 0u64,
        acquire_semaphores: 0u64,
        present_semaphores: 0u64,
        framebuffers: 0u64,
        image_views: 0u64,
        swapchains: 0u64,
        render_passes: 0u64,
        pipelines: 0u64,
        pipeline_layouts: 0u64,
        shader_modules: 0u64,
        buffers: 0u64,
        memories: 0u64,
        descriptor_pools: 0u64,
        descriptor_set_layouts: 0u64,
    }
}

/// Creations on the left, destructions on the right.
#[derive(Clone, Copy, PartialEq, Eq, Structural, Debug)]
pub struct ResourceLedger {
    /// How many objects of each kind were ever created.
    pub created: ResourceCounts,
    /// How many objects of each kind were destroyed again.
    pub destroyed: ResourceCounts,
}

impl ResourceLedger {
    /// Nothing is destroyed before it is created.
    pub open spec fn wf(self) -> bool {
        &&& self.destroyed.fences <= self.created.fences
        &&& self.destroyed.command_pools <= self.created.command_pools
        &&& self.destroyed.acquire_semaphores <= self.created.acquire_semaphores
        &&& self.destroyed.present_semaphores <= self.created.present_semaphores
        &&& self.destroyed.framebuffers <= self.created.framebuffers
        &&& self.destroyed.image_views <= self.created.image_views
        &&& self.destroyed.swapchains <= self.created.swapchains
        &&& self.destroyed.render_passes <= self.created.render_passes
        &&& self.destroyed.pipelines <= self.created.pipelines
        &&& self.destroyed.pipeline_layouts <= self.created.pipeline_layouts
        &&& self.destroyed.shader_modules <= self.created.shader_modules
        &&& self.destroyed.buffers <= self.created.buffers
        &&& self.destroyed.memories <= self.created.memories
        &&& self.destroyed.descriptor_pools <= self.created.descriptor_pools
        &&& self.destroyed.descriptor_set_layouts <= self.created.descriptor_set_layouts
    }

    /// Every creation has been matched by a destruction: the destroy
    /// counts equal the create counts, kind by kind.
    pub open spec fn all_released(self) -> bool {
        self.destroyed == self.created
    }

    pub open spec fn live_fences(self) -> int {
        self.created.fences - self.destroyed.fences
    }

    pub open spec fn live_command_pools(self) -> int {
        self.created.command_pools - self.destroyed.command_pools
    }

    pub open spec fn live_acquire_semaphores(self) -> int {
        self.created.acquire_semaphores - self.destroyed.acquire_semaphores
    }

    pub open spec fn live_present_semaphores(self) -> int {
        self.created.present_semaphores - self.destroyed.present_semaphores
    }

    pub open spec fn live_framebuffers(self) -> int {
        self.created.framebuffers - self.destroyed.framebuffers
    }

    pub open spec fn live_image_views(self) -> int {
        self.created.image_views - self.destroyed.image_views
    }

    pub open spec fn live_swapchains(self) -> int {
        self.created.swapchains - self.destroyed.swapchains
    }

    pub open spec fn live_render_passes(self) -> int {
        self.created.render_passes - self.destroyed.render_passes
    }

    pub open spec fn live_pipelines(self) -> int {
        self.created.pipelines - self.destroyed.pipelines
    }

    pub open spec fn live_pipeline_layouts(self) -> int {
        self.created.pipeline_layouts - self.destroyed.pipeline_layouts
    }

    pub open spec fn live_shader_modules(self) -> int {
        self.created.shader_modules - self.destroyed.shader_modules
    }

    pub open spec fn live_buffers(self) -> int {
        self.created.buffers - self.destroyed.buffers
    }

    pub open spec fn live_memories(self) -> int {
        self.created.memories - self.destroyed.memories
    }

    pub open spec fn live_descriptor_pools(self) -> int {
        self.created.descriptor_pools - self.destroyed.descriptor_pools
    }

    pub open spec fn live_descriptor_set_layouts(self) -> int {
        self.created.descriptor_set_layouts - self.destroyed.descriptor_set_layouts
    }

    /// There is room to account one more swapchain generation of
    /// `slots` frame slots and `views` image views.
    pub open spec fn can_create_generation(self, slots: u64, views: u64) -> bool {
        &&& self.created.fences + slots <= u64::MAX
        &&& self.created.command_pools + slots <= u64::MAX
        &&& self.created.acquire_semaphores + slots <= u64::MAX
        &&& self.created.present_semaphores + slots <= u64::MAX
        &&& self.created.framebuffers + slots <= u64::MAX
        &&& self.created.image_views + views <= u64::MAX
        &&& self.created.swapchains + 1 <= u64::MAX
        &&& self.created.render_passes + 1 <= u64::MAX
        &&& self.created.pipelines + 1 <= u64::MAX
        &&& self.created.pipeline_layouts + 1 <= u64::MAX
        &&& self.created.shader_modules + 2 <= u64::MAX
        &&& self.destroyed.shader_modules + 2 <= u64::MAX
    }

    /// At least one swapchain generation of `slots` frame slots and
    /// `views` image views is live and can be released.
    pub open spec fn can_destroy_generation(self, slots: u64, views: u64) -> bool {
        &&& self.destroyed.fences + slots <= self.created.fences
        &&& self.destroyed.command_pools + slots <= self.created.command_pools
        &&& self.destroyed.acquire_semaphores + slots <= self.created.acquire_semaphores
        &&& self.destroyed.present_semaphores + slots <= self.created.present_semaphores
        &&& self.destroyed.framebuffers + slots <= self.created.framebuffers
        &&& self.destroyed.image_views + views <= self.created.image_views
        &&& self.destroyed.swapchains + 1 <= self.created.swapchains
        &&& self.destroyed.render_passes + 1 <= self.created.render_passes
        &&& self.destroyed.pipelines + 1 <= self.created.pipelines
        &&& self.destroyed.pipeline_layouts + 1 <= self.created.pipeline_layouts
    }

    /// An empty ledger: nothing created, nothing destroyed, nothing
    /// owed.
    pub fn new() -> (l: ResourceLedger)
        ensures
            l.wf(),
            l.all_released(),
            l.created == spec_zero_counts(),
            l.destroyed == spec_zero_counts(),
    {
        let zero = ResourceCounts {
            fences: 0,
            command_pools: 0,
            acquire_semaphores: 0,
            present_semaphores: 0,
            framebuffers: 0,
            image_views: 0,
            swapchains: 0,
            render_passes: 0,
            pipelines: 0,
            pipeline_layouts: 0,
            shader_modules: 0,
            buffers: 0,
            memories: 0,
            descriptor_pools: 0,
            descriptor_set_layouts: 0,
        };
        ResourceLedger { created: zero, destroyed: zero }
    }

    /// Accounts the creation of one swapchain generation: `slots`
    /// fences, command pools, semaphore pairs and framebuffers, `views`
    /// image views, the swapchain itself, its render pass, and the
    /// pipeline with its layout. The two shader modules are transient:
    /// created for pipeline assembly and destroyed at once, so they are
    /// recorded on both sides.
    pub fn create_generation(&mut self, slots: u64, views: u64)
        requires
            old(self).can_create_generation(slots, views),
        ensures
            final(self).created == (ResourceCounts {
                fences: (old(self).created.fences + slots) as u64,
                command_pools: (old(self).created.command_pools + slots) as u64,
                acquire_semaphores: (old(self).created.acquire_semaphores + slots) as u64,
                present_semaphores: (old(self).created.present_semaphores + slots) as u64,
                framebuffers: (old(self).created.framebuffers + slots) as u64,
                image_views: (old(self).created.image_views + views) as u64,
                swapchains: (old(self).created.swapchains + 1) as u64,
                render_passes: (old(self).created.render_passes + 1) as u64,
                pipelines: (old(self).created.pipelines + 1) as u64,
                pipeline_layouts: (old(self).created.pipeline_layouts + 1) as u64,
                shader_modules: (old(self).created.shader_modules + 2) as u64,
                ..old(self).created
            }),
            final(self).destroyed == (ResourceCounts {
                shader_modules: (old(self).destroyed.shader_modules + 2) as u64,
                ..old(self).destroyed
            }),
    {
        self.created.fences = self.created.fences + slots;
        self.created.command_pools = self.created.command_pools + slots;
        self.created.acquire_semaphores = self.created.acquire_semaphores + slots;
        self.created.present_semaphores = self.created.present_semaphores + slots;
        self.created.framebuffers = self.created.framebuffers + slots;
        self.created.image_views = self.created.image_views + views;
        self.created.swapchains = self.created.swapchains + 1;
        self.created.render_passes = self.created.render_passes + 1;
        self.created.pipelines = self.created.pipelines + 1;
        self.created.pipeline_layouts = self.created.pipeline_layouts + 1;
        self.created.shader_modules = self.created.shader_modules + 2;
        self.destroyed.shader_modules = self.destroyed.shader_modules + 2;
    }

    /// Accounts the destruction of one swapchain generation, the step
    /// that recreation and teardown owe for every generation they
    /// retire.
    pub fn destroy_generation(&mut self, slots: u64, views: u64)
        requires
            old(self).can_destroy_generation(slots, views),
        ensures
            final(self).destroyed == (ResourceCounts {
                fences: (old(self).destroyed.fences + slots) as u64,
                command_pools: (old(self).destroyed.command_pools + slots) as u64,
                acquire_semaphores: (old(self).destroyed.acquire_semaphores + slots) as u64,
                present_semaphores: (old(self).destroyed.present_semaphores + slots) as u64,
                framebuffers: (old(self).destroyed.framebuffers + slots) as u64,
                image_views: (old(self).destroyed.image_views + views) as u64,
                swapchains: (old(self).destroyed.swapchains + 1) as u64,
                render_passes: (old(self).destroyed.render_passes + 1) as u64,
                pipelines: (old(self).destroyed.pipelines + 1) as u64,
                pipeline_layouts: (old(self).destroyed.pipeline_layouts + 1) as u64,
                ..old(self).destroyed
            }),
            final(self).created == old(self).created,
    {
        self.destroyed.fences = self.destroyed.fences + slots;
        self.destroyed.command_pools = self.destroyed.command_pools + slots;
        self.destroyed.acquire_semaphores = self.destroyed.acquire_semaphores + slots;
        self.destroyed.present_semaphores = self.destroyed.present_semaphores + slots;
        self.destroyed.framebuffers = self.destroyed.framebuffers + slots;
        self.destroyed.image_views = self.destroyed.image_views + views;
        self.destroyed.swapchains = self.destroyed.swapchains + 1;
        self.destroyed.render_passes = self.destroyed.render_passes + 1;
        self.destroyed.pipelines = self.destroyed.pipelines + 1;
        self.destroyed.pipeline_layouts = self.destroyed.pipeline_layouts + 1;
    }

    /// Accounts the startup-only resources: the vertex and uniform
    /// buffers with their memory, the descriptor pool and the
    /// descriptor set layout.
    pub fn create_static(&mut self)
        requires
            old(self).created.buffers + 2 <= u64::MAX,
            old(self).created.memories + 2 <= u64::MAX,
            old(self).created.descriptor_pools + 1 <= u64::MAX,
            old(self).created.descriptor_set_layouts + 1 <= u64::MAX,
        ensures
            final(self).created == (ResourceCounts {
                buffers: (old(self).created.buffers + 2) as u64,
                memories: (old(self).created.memories + 2) as u64,
                descriptor_pools: (old(self).created.descriptor_pools + 1) as u64,
                descriptor_set_layouts: (old(self).created.descriptor_set_layouts + 1) as u64,
                ..old(self).created
            }),
            final(self).destroyed == old(self).destroyed,
    {
        self.created.buffers = self.created.buffers + 2;
        self.created.memories = self.created.memories + 2;
        self.created.descriptor_pools = self.created.descriptor_pools + 1;
        self.created.descriptor_set_layouts = self.created.descriptor_set_layouts + 1;
    }

    /// Accounts the destruction of the startup-only resources, owed by
    /// final teardown.
    pub fn destroy_static(&mut self)
        requires
            old(self).destroyed.buffers + 2 <= old(self).created.buffers,
            old(self).destroyed.memories + 2 <= old(self).created.memories,
            old(self).destroyed.descriptor_pools + 1 <= old(self).created.descriptor_pools,
            old(self).destroyed.descriptor_set_layouts + 1 <= old(
                self,
            ).created.descriptor_set_layouts,
        ensures
            final(self).destroyed == (ResourceCounts {
                buffers: (old(self).destroyed.buffers + 2) as u64,
                memories: (old(self).destroyed.memories + 2) as u64,
                descriptor_pools: (old(self).destroyed.descriptor_pools + 1) as u64,
                descriptor_set_layouts: (old(self).destroyed.descriptor_set_layouts + 1) as u64,
                ..old(self).destroyed
            }),
            final(self).created == old(self).created,
    {
        self.destroyed.buffers = self.destroyed.buffers + 2;
        self.destroyed.memories = self.destroyed.memories + 2;
        self.destroyed.descriptor_pools = self.destroyed.descriptor_pools + 1;
        self.destroyed.descriptor_set_layouts = self.destroyed.descriptor_set_layouts + 1;
    }
}

} // verus!
