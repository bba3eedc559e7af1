//! The frame resource pool: one fence and one command pool per swap
//! image, plus a round-robin set of acquire/present semaphore pairs.
//!
//! The pool enforces the reuse discipline that keeps CPU-side resource
//! reuse behind GPU-side completion: a slot's command pool may only be
//! reset after its fence has signaled, and the semaphore-pair counter
//! advances by exactly one per frame no matter which image acquisition
//! returns.

use vstd::prelude::*;

verus! {

/// The synchronization state of one frame slot (its fence and command
/// pool together).
#[derive(Clone, Copy, PartialEq, Eq, Structural, Debug)]
pub enum SlotState {
    /// The slot's previous GPU work has retired: the fence is signaled
    /// and the command pool holds only stale recordings. Fences are
    /// created in this state so the first wait returns immediately.
    Retired,
    /// The fence has been reset and the command pool emptied; a new
    /// command buffer is being recorded into the slot.
    Recording,
    /// A submission referencing the slot's command buffers is in
    /// flight; the fence will signal when the GPU retires it.
    InFlight,
}

/// The per-image frame resources and the round-robin semaphore cursor.
///
/// There is one semaphore pair per slot: the pair count always equals
/// the slot count, which the recreation path re-establishes explicitly.
pub struct FramebufferState {
    /// One entry per swap image (at least one even when the backend
    /// reports zero images): the slot's fence/command-pool state.
    pub slots: Vec<SlotState>,
    /// Cursor of the round-robin semaphore-pair cycle: the next pair to
    /// hand out, advanced by exactly one per frame.
    pub last_ref: usize,
}

/// How many slots a pool built over `image_count` swap images has: one
/// per image, and at least one (a backend may report zero images).
pub open spec fn spec_slot_count(image_count: int) -> int {
    if image_count == 0 {
        1
    } else {
        image_count
    }
}

/// What one call of the round-robin counter returns when the stored
/// cursor is `last` and there are `n` pairs: the cursor, wrapped to 0
/// once it has walked past the last pair.
pub open spec fn spec_sync_ret(last: int, n: int) -> int {
    if last >= n {
        0
    } else {
        last
    }
}

/// The stored cursor after `k` calls of the counter, starting from
/// `start`, with `n` pairs: each call stores its return value plus one.
pub open spec fn spec_cursor_after(start: int, k: nat, n: int) -> int
    decreases k,
{
    if k == 0 {
        start
    } else {
        spec_sync_ret(spec_cursor_after(start, (k - 1) as nat, n), n) + 1
    }
}

/// What the `k`-th call (counting from 0) of the counter returns,
/// starting from cursor `start`, with `n` pairs.
pub open spec fn spec_ret_at(start: int, k: nat, n: int) -> int {
    spec_sync_ret(spec_cursor_after(start, k, n), n)
}

impl FramebufferState {
    /// Number of frame slots, equal to the number of fences, command
    /// pools and framebuffers the pool owns.
    pub open spec fn slot_count(self) -> int {
        self.slots@.len() as int
    }

    /// Number of acquire/present semaphore pairs: always equal to the
    /// slot count.
    pub open spec fn sync_pair_count(self) -> int {
        self.slots@.len() as int
    }

    /// Well-formedness: at least one slot, and the cursor never more
    /// than one full walk ahead.
    pub open spec fn wf(self) -> bool {
        &&& self.slots@.len() >= 1
        &&& self.last_ref <= self.slots@.len()
    }

    /// The fence of slot `i` is signaled: its previous GPU work has
    /// retired.
    pub open spec fn fence_signaled(self, i: int) -> bool {
        self.slots@[i] is Retired
    }

    /// No slot is mid-recording.
    pub open spec fn no_slot_recording(self) -> bool {
        forall|i: int| 0 <= i < self.slots@.len() ==> !(#[trigger] self.slots@[i] is Recording)
    }

    /// Builds the pool for a swapchain with `image_count` presentable
    /// images: exactly one fence, one command pool and one framebuffer
    /// per slot, and as many semaphore pairs as slots — at least one of
    /// each even when the backend reports zero images. Every fence
    /// starts signaled, so the first wait on it returns immediately,
    /// and the semaphore cursor starts at pair 0.
    pub fn new(image_count: usize) -> (fb: FramebufferState)
        ensures
            fb.wf(),
            fb.slot_count() == spec_slot_count(image_count as int),
            fb.sync_pair_count() == fb.slot_count(),
            fb.last_ref == 0,
            forall|i: int| 0 <= i < fb.slot_count() ==> fb.fence_signaled(i),
    {
        let n = if image_count == 0 {
            1
        } else {
            image_count
        };
        let mut slots: Vec<SlotState> = Vec::new();
        let mut k: usize = 0;
        while k < n
            invariant
                k <= n,
                slots@.len() == k,
                forall|i: int| 0 <= i < k ==> slots@[i] is Retired,
            decreases n - k,
        {
            slots.push(SlotState::Retired);
            k = k + 1;
        }
        FramebufferState { slots, last_ref: 0 }
    }

    /// Hands out the next acquire/present semaphore pair: a
    /// monotonically cycling index in `[0, N)`, independent of any
    /// acquired image index, advancing by exactly one per call and
    /// wrapping to 0. Slot states are untouched.
    pub fn next_acq_pre_pair_index(&mut self) -> (i: usize)
        requires
            old(self).wf(),
        ensures
            final(self).wf(),
            final(self).slots@ == old(self).slots@,
            i < old(self).sync_pair_count(),
            i == spec_sync_ret(old(self).last_ref as int, old(self).sync_pair_count()),
            final(self).last_ref == i + 1,
    {
        if self.last_ref >= self.slots.len() {
            self.last_ref = 0;
        }
        let ret = self.last_ref;
        self.last_ref = self.last_ref + 1;
        ret
    }

    /// Direct indexed lookup of a slot's state and a semaphore pair:
    /// no search, and indices must be in range (a miss would be a
    /// programming error, ruled out by construction).
    pub fn get_frame_data(&self, frame_id: Option<usize>, sem_index: Option<usize>) -> (r: (
        Option<SlotState>,
        Option<usize>,
    ))
        requires
            frame_id matches Some(f) ==> f < self.slot_count(),
            sem_index matches Some(s) ==> s < self.sync_pair_count(),
        ensures
            r.0 == match frame_id {
                Some(f) => Some(self.slots@[f as int]),
                None => None::<SlotState>,
            },
            r.1 == sem_index,
    {
        let slot = match frame_id {
            Some(f) => Some(self.slots[f]),
            None => None,
        };
        (slot, sem_index)
    }

    /// Blocks until slot `i`'s fence signals, i.e. until the GPU work
    /// of the slot's previous use has retired. Waiting on a slot that
    /// is mid-recording would never return (nothing has been submitted
    /// that could signal the fence), so that state is excluded.
    pub fn wait_fence(&mut self, i: usize)
        requires
            old(self).wf(),
            i < old(self).slot_count(),
            !(old(self).slots@[i as int] is Recording),
        ensures
            final(self).wf(),
            final(self).slots@ == old(self).slots@.update(i as int, SlotState::Retired),
            final(self).last_ref == old(self).last_ref,
            final(self).fence_signaled(i as int),
    {
        self.slots.set(i, SlotState::Retired);
    }

    /// Resets slot `i`'s fence and command pool for a new recording.
    /// The slot must be retired: its fence is signaled, so the GPU work
    /// of the slot's previous use cannot still reference the pool —
    /// reuse never precedes retirement.
    pub fn begin_recording(&mut self, i: usize)
        requires
            old(self).wf(),
            i < old(self).slot_count(),
            old(self).fence_signaled(i as int),
        ensures
            final(self).wf(),
            final(self).slots@ == old(self).slots@.update(i as int, SlotState::Recording),
            final(self).last_ref == old(self).last_ref,
    {
        self.slots.set(i, SlotState::Recording);
    }

    /// Marks slot `i` submitted: its command buffers are now referenced
    /// by in-flight GPU work, and its fence will signal on retirement.
    pub fn mark_submitted(&mut self, i: usize)
        requires
            old(self).wf(),
            i < old(self).slot_count(),
            old(self).slots@[i as int] is Recording,
        ensures
            final(self).wf(),
            final(self).slots@ == old(self).slots@.update(i as int, SlotState::InFlight),
            final(self).last_ref == old(self).last_ref,
    {
        self.slots.set(i, SlotState::InFlight);
    }

    /// Waits every slot's fence in turn, the mandatory step before the
    /// pool's command pools may be destroyed or the swapchain rebuilt.
    /// No slot may be mid-recording (its fence could never signal).
    pub fn wait_all_fences(&mut self)
        requires
            old(self).wf(),
            old(self).no_slot_recording(),
        ensures
            final(self).wf(),
            final(self).slots@.len() == old(self).slots@.len(),
            final(self).last_ref == old(self).last_ref,
            forall|i: int| 0 <= i < final(self).slot_count() ==> final(self).fence_signaled(i),
    {
        let mut k: usize = 0;
        let n = self.slots.len();
        while k < n
            invariant
                k <= n,
                n == self.slots@.len(),
                self.wf(),
                self.last_ref == old(self).last_ref,
                forall|i: int| 0 <= i < k ==> #[trigger] self.slots@[i] is Retired,
                forall|i: int|
                    k <= i < self.slots@.len() ==> !(#[trigger] self.slots@[i] is Recording),
            decreases n - k,
        {
            self.wait_fence(k);
            k = k + 1;
        }
    }
}

/// Calling the round-robin counter exactly N times in a row on a fresh
/// pool returns the permutation 0, 1, ..., N-1: no index is skipped and
/// none repeats, whatever the acquisition outcomes in between (the
/// counter is consumed exactly once per frame, successful or not).
pub proof fn lemma_round_robin_permutation(k: nat, n: int)
    requires
        n >= 1,
        k < n,
    ensures
        spec_cursor_after(0, k, n) == k,
        spec_ret_at(0, k, n) == k,
    decreases k,
{
    if k > 0 {
        lemma_round_robin_permutation((k - 1) as nat, n);
    }
}

/// The call after a full walk wraps back to pair 0: the cycle repeats
/// with period N.
pub proof fn lemma_round_robin_wraps(n: int)
    requires
        n >= 1,
    ensures
        spec_ret_at(0, n as nat, n) == 0,
{
    lemma_round_robin_permutation((n - 1) as nat, n);
}

} // verus!
