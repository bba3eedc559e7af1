//! Device context policy: which adapter and queue family the process
//! opens. The policy is "first that can present": anything less is a
//! missing capability and fatal.

use vstd::prelude::*;

verus! {

/// Picks the adapter to open: the first one enumerated, or `None` when
/// the platform exposes no adapter at all (fatal — the process cannot
/// proceed).
pub fn select_adapter(adapter_count: usize) -> (r: Option<usize>)
    ensures
        match r {
            Some(i) => adapter_count > 0 && i == 0,
            None => adapter_count == 0,
        },
{
    if adapter_count > 0 {
        Some(0)
    } else {
        None
    }
}

/// Picks the queue family to open a graphics-and-present queue from:
/// the first family that supports presentation to the surface, or
/// `None` when no family does (fatal — the process cannot proceed).
pub fn select_queue_family(supports_surface: &Vec<bool>) -> (r: Option<usize>)
    ensures
        match r {
            Some(i) => i < supports_surface@.len() && supports_surface@[i as int] && forall|j: int|
                0 <= j < i ==> !supports_surface@[j],
            None => forall|j: int| 0 <= j < supports_surface@.len() ==> !supports_surface@[j],
        },
{
    let mut idx: usize = 0;
    while idx < supports_surface.len()
        invariant
            idx <= supports_surface@.len(),
            forall|j: int| 0 <= j < idx ==> !supports_surface@[j],
        decreases supports_surface@.len() - idx,
    {
        if supports_surface[idx] {
            return Some(idx);
        }
        idx = idx + 1;
    }
    None
}

} // verus!
