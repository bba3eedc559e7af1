use hexthing::framebuffer::{FramebufferState, SlotState};

#[test]
fn pool_has_one_slot_set_per_image() {
    for n in [1usize, 2, 3, 7] {
        let fb = FramebufferState::new(n);
        assert_eq!(fb.slots.len(), n);
        assert_eq!(fb.last_ref, 0);
        for s in &fb.slots {
            assert_eq!(*s, SlotState::Retired);
        }
    }
}

#[test]
fn zero_images_still_get_one_slot() {
    let fb = FramebufferState::new(0);
    assert_eq!(fb.slots.len(), 1);
    assert_eq!(fb.slots[0], SlotState::Retired);
}

#[test]
fn counter_walks_the_full_permutation() {
    for n in [1usize, 2, 3, 5] {
        let mut fb = FramebufferState::new(n);
        let mut seen = Vec::new();
        for _ in 0..n {
            seen.push(fb.next_acq_pre_pair_index());
        }
        let expected: Vec<usize> = (0..n).collect();
        assert_eq!(seen, expected);
    }
}

#[test]
fn counter_wraps_to_zero_after_a_full_walk() {
    let mut fb = FramebufferState::new(3);
    for _ in 0..3 {
        fb.next_acq_pre_pair_index();
    }
    assert_eq!(fb.next_acq_pre_pair_index(), 0);
    assert_eq!(fb.next_acq_pre_pair_index(), 1);
}

#[test]
fn counter_ignores_slot_states() {
    let mut fb = FramebufferState::new(2);
    assert_eq!(fb.next_acq_pre_pair_index(), 0);
    fb.wait_fence(1);
    fb.begin_recording(1);
    fb.mark_submitted(1);
    assert_eq!(fb.next_acq_pre_pair_index(), 1);
    assert_eq!(fb.next_acq_pre_pair_index(), 0);
}

#[test]
fn frame_data_is_a_direct_lookup() {
    let mut fb = FramebufferState::new(3);
    fb.wait_fence(2);
    fb.begin_recording(2);
    let (slot, sem) = fb.get_frame_data(Some(2), Some(1));
    assert_eq!(slot, Some(SlotState::Recording));
    assert_eq!(sem, Some(1));
    let (none_slot, none_sem) = fb.get_frame_data(None, None);
    assert_eq!(none_slot, None);
    assert_eq!(none_sem, None);
}

#[test]
fn slot_walks_retired_recording_in_flight() {
    let mut fb = FramebufferState::new(1);
    assert_eq!(fb.slots[0], SlotState::Retired);
    fb.wait_fence(0);
    assert_eq!(fb.slots[0], SlotState::Retired);
    fb.begin_recording(0);
    assert_eq!(fb.slots[0], SlotState::Recording);
    fb.mark_submitted(0);
    assert_eq!(fb.slots[0], SlotState::InFlight);
    fb.wait_fence(0);
    assert_eq!(fb.slots[0], SlotState::Retired);
}

#[test]
fn wait_all_fences_retires_every_slot() {
    let mut fb = FramebufferState::new(3);
    fb.wait_fence(1);
    fb.begin_recording(1);
    fb.mark_submitted(1);
    fb.wait_all_fences();
    for s in &fb.slots {
        assert_eq!(*s, SlotState::Retired);
    }
}
