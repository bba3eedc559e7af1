//! Descriptor wiring for the single uniform buffer: the one binding
//! the pipeline reads, the pool sized for exactly one set, and the
//! write that points the set at the buffer.

use vstd::prelude::*;

verus! {

/// One descriptor set layout binding.
#[derive(Clone, Copy, PartialEq, Eq, Structural, Debug)]
pub struct DescriptorBinding {
    /// Binding slot inside the set.
    pub binding: u32,
    /// The descriptor is a uniform buffer.
    pub uniform_buffer: bool,
    /// Number of descriptors in the binding.
    pub count: u32,
    /// The fragment stage reads the binding.
    pub fragment_stage: bool,
}

/// The single uniform-buffer binding: slot 0, one descriptor, read by
/// the fragment stage.
pub open spec fn spec_uniform_binding() -> DescriptorBinding {
    DescriptorBinding { binding: 0u32, uniform_buffer: true, count: 1u32, fragment_stage: true }
}

/// The descriptor pool's one range: room for a single uniform-buffer
/// descriptor, and the pool holds a single set.
#[derive(Clone, Copy, PartialEq, Eq, Structural, Debug)]
pub struct DescriptorPoolPlan {
    /// How many sets the pool can allocate.
    pub max_sets: u32,
    /// How many uniform-buffer descriptors the pool can hand out.
    pub uniform_buffers: u32,
}

/// The descriptor set layout: what the device is asked to create.
#[derive(Clone, PartialEq, Eq, Debug)]
pub struct DescSetLayout {
    /// The layout's bindings.
    pub bindings: Vec<DescriptorBinding>,
}

/// A descriptor set allocated against a layout.
#[derive(Clone, PartialEq, Eq, Debug)]
pub struct DescSet {
    /// The layout the set was allocated from.
    pub layout: DescSetLayout,
}

/// One descriptor write: where in the set the buffer lands.
#[derive(Clone, Copy, PartialEq, Eq, Structural, Debug)]
pub struct DescSetWrite {
    /// Binding slot written.
    pub binding: u32,
    /// Offset into the binding's descriptor array.
    pub array_offset: usize,
}

impl DescSetLayout {
    /// Describes a descriptor set layout with the given bindings.
    pub fn new(bindings: Vec<DescriptorBinding>) -> (s: DescSetLayout)
        ensures
            s.bindings@ == bindings@,
    {
        DescSetLayout { bindings }
    }

    /// Allocates (in the model: consumes the layout into) a descriptor
    /// set against a pool.
    pub fn create_desc_set(self) -> (s: DescSet)
        ensures
            s.layout.bindings@ == self.bindings@,
    {
        DescSet { layout: self }
    }
}

impl DescSet {
    /// The write that points the set's binding at the uniform buffer:
    /// the given binding slot, at array offset 0.
    pub fn write_to_state(&self, binding: u32) -> (w: DescSetWrite)
        ensures
            w == (DescSetWrite { binding, array_offset: 0usize }),
    {
        DescSetWrite { binding, array_offset: 0 }
    }

    /// The layout the set was allocated from.
    pub fn get_layout(&self) -> (bindings: &Vec<DescriptorBinding>)
        ensures
            bindings@ == self.layout.bindings@,
    {
        &self.layout.bindings
    }
}

/// The uniform descriptor set layout binding the renderer creates:
/// exactly the single fragment-stage uniform buffer at slot 0.
pub fn uniform_binding() -> (b: DescriptorBinding)
    ensures
        b == spec_uniform_binding(),
{
    DescriptorBinding { binding: 0, uniform_buffer: true, count: 1, fragment_stage: true }
}

/// The descriptor pool the renderer creates: one set, one
/// uniform-buffer descriptor.
pub fn uniform_pool_plan() -> (p: DescriptorPoolPlan)
    ensures
        p == (DescriptorPoolPlan { max_sets: 1u32, uniform_buffers: 1u32 }),
{
    DescriptorPoolPlan { max_sets: 1, uniform_buffers: 1 }
}

} // verus!
