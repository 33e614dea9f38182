//! The emergency stack region: a statically reserved, fixed-size,
//! pinned block of memory used only as a fault-handling stack.
//!
//! The region itself is reserved by the embedding kernel, which must keep it
//! at a stable address for the lifetime of the process. This module fixes its
//! capacity and computes the address that is published to the control block:
//! stacks grow downward, so the published address is the region's top
//! (base plus capacity), never its base.

use vstd::prelude::*;

verus! {

/// Size of one page in bytes.
pub const PAGE_SIZE: u64 = 4096;

/// Number of pages reserved for the emergency stack region.
pub const STACK_PAGE_COUNT: u64 = 5;

/// Capacity in bytes of the emergency stack region.
pub const STACK_CAPACITY: u64 = PAGE_SIZE * STACK_PAGE_COUNT;

/// Top address of an emergency stack region that starts at `base`:
/// exactly `base` plus the configured capacity.
pub fn stack_top(base: u64) -> (top: u64)
    requires
        base + STACK_CAPACITY <= u64::MAX,
    ensures
        top == base + STACK_CAPACITY,
{
    base + STACK_CAPACITY
}

} // verus!
