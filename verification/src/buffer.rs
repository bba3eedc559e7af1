//! Buffer upload policy: how large an upload is, and which memory type
//! it goes to — the first type the device allows for the buffer that
//! the host can map directly.

use vstd::prelude::*;

verus! {

/// What the upload policy reads of one device memory type.
#[derive(Clone, Copy, PartialEq, Eq, Structural, Debug)]
pub struct MemoryTypeInfo {
    /// The host can map and write this memory directly.
    pub cpu_visible: bool,
}

/// Memory type `j` is usable for the buffer: the device's requirement
/// mask has bit `j` set and the type is host-mappable.
pub open spec fn spec_usable(type_mask: u64, types: Seq<MemoryTypeInfo>, j: int) -> bool {
    &&& type_mask & (1u64 << (j as u64)) != 0
    &&& types[j].cpu_visible
}

/// Picks the upload memory type: the first type whose bit is set in the
/// device's requirement mask and that the host can map, or `None` when
/// no type qualifies (the device cannot take a direct upload — fatal at
/// startup).
pub fn upload_type_for(type_mask: u64, types: &Vec<MemoryTypeInfo>) -> (r: Option<usize>)
    requires
        types@.len() <= 64,
    ensures
        match r {
            Some(i) => i < types@.len() && spec_usable(type_mask, types@, i as int) && forall|
                j: int,
            |
                0 <= j < i ==> !spec_usable(type_mask, types@, j),
            None => forall|j: int| 0 <= j < types@.len() ==> !spec_usable(type_mask, types@, j),
        },
{
    let mut idx: usize = 0;
    while idx < types.len()
        invariant
            idx <= types@.len(),
            types@.len() <= 64,
            forall|j: int| 0 <= j < idx ==> !spec_usable(type_mask, types@, j),
        decreases types@.len() - idx,
    {
        let bit_set = type_mask & (1u64 << (idx as u64)) != 0;
        if bit_set && types[idx].cpu_visible {
            return Some(idx);
        }
        proof {
            assert(!spec_usable(type_mask, types@, idx as int));
        }
        idx = idx + 1;
    }
    None
}

/// The model of one uploaded buffer: how many bytes were asked for and
/// how many the device allocated.
#[derive(Clone, Copy, PartialEq, Eq, Structural, Debug)]
pub struct BufferState {
    /// Bytes of payload: element count times stride.
    pub upload_size: u64,
    /// Bytes the device actually allocated; at least `upload_size`.
    pub size: u64,
}

impl BufferState {
    /// Every byte of the payload fits in the allocation.
    pub open spec fn wf(self) -> bool {
        self.upload_size <= self.size
    }

    /// Accounts for a buffer of `count` elements of `stride` bytes,
    /// backed by an allocation of `allocated` bytes as the device
    /// required.
    pub fn new(count: usize, stride: u64, allocated: u64) -> (b: BufferState)
        requires
            stride > 0,
            count as u64 <= u64::MAX / stride,
            count as u64 * stride <= allocated,
        ensures
            b.wf(),
            b.upload_size == count as u64 * stride,
            b.size == allocated,
    {
        proof {
            lemma_mul_fits(count as u64, stride);
        }
        let upload_size = (count as u64) * stride;
        BufferState { upload_size, size: allocated }
    }

    /// Whether a later write of `count` elements of `stride` bytes at
    /// byte `offset` stays inside the allocation — the bound that must
    /// hold before the mapping is touched.
    pub fn update_fits(&self, offset: u64, count: usize, stride: u64) -> (ok: bool)
        requires
            stride > 0,
            count as u64 <= u64::MAX / stride,
            offset <= u64::MAX - count as u64 * stride,
        ensures
            ok <==> offset + count as u64 * stride <= self.size,
    {
        proof {
            lemma_mul_fits(count as u64, stride);
        }
        let upload = (count as u64) * stride;
        offset + upload <= self.size
    }
}

/// `a <= MAX / b` bounds the product `a * b` for positive `b`.
proof fn lemma_mul_fits(a: u64, b: u64)
    requires
        b > 0,
        a <= u64::MAX / b,
    ensures
        a * b <= u64::MAX,
{
    assert(a * b <= (u64::MAX as int / b as int) * b) by (nonlinear_arith)
        requires
            b > 0,
            a <= u64::MAX / b,
    ;
    assert((u64::MAX as int / b as int) * b <= u64::MAX) by (nonlinear_arith)
        requires
            b > 0,
    ;
}

} // verus!
