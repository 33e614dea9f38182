//! The processor control block (task state segment equivalent): the
//! fixed-layout record the CPU consults to find emergency stacks when it
//! dispatches certain faults.
//!
//! Its one populated field is the stack-switch table; slot
//! [`DOUBLE_FAULT_IST_INDEX`] is wired to the top of the emergency stack
//! region, so a double fault — even one caused by stack exhaustion — is
//! handled on a known-good stack. Every other field stays at its default.

use vstd::prelude::*;

use crate::stack::{stack_top, STACK_CAPACITY};

verus! {

/// The stack-switch slot reserved for the double-fault handler.
///
/// The external vector-table component must program its double-fault gate
/// to request a switch to this slot for the guarantee to take effect.
pub const DOUBLE_FAULT_IST_INDEX: u16 = 0;

/// Number of stack-switch (interrupt stack table) slots in the record.
pub const STACK_SWITCH_SLOT_COUNT: usize = 7;

/// Number of privilege-level stack slots in the record.
pub const PRIVILEGE_STACK_SLOT_COUNT: usize = 3;

/// Byte size of the hardware record: a 4-byte reserved field, three
/// privilege stack pointers, an 8-byte reserved field, seven stack-switch
/// pointers, an 8-byte and a 2-byte reserved field, and the 2-byte I/O-map
/// base offset.
pub const CONTROL_BLOCK_SIZE: u64 = 4 + 3 * 8 + 8 + 7 * 8 + 8 + 2 + 2;

/// Per-core processor control block.
///
/// The reserved fields of the hardware record are all zero and are laid
/// down by the embedding kernel when it materializes the record in pinned
/// memory; the record must then never move, since the descriptor table
/// embeds its address.
pub struct ControlBlock {
    /// Stack pointers used on privilege-level changes; unused here, all zero.
    pub privilege_stack_table: Vec<u64>,
    /// Stack-switch table: stack pointers the CPU loads when a fault's gate
    /// requests a stack switch.
    pub interrupt_stack_table: Vec<u64>,
    /// Offset of the I/O permission bitmap from the record's base; left at
    /// the record's size, which means an empty bitmap.
    pub iomap_base: u16,
}

impl ControlBlock {
    /// The record has its fixed hardware shape.
    pub open spec fn wf(self) -> bool {
        &&& self.privilege_stack_table@.len() == PRIVILEGE_STACK_SLOT_COUNT
        &&& self.interrupt_stack_table@.len() == STACK_SWITCH_SLOT_COUNT
    }

    /// A default record: every stack slot zero, empty I/O bitmap.
    pub fn new() -> (cb: ControlBlock)
        ensures
            cb.wf(),
            forall|i: int|
                0 <= i < STACK_SWITCH_SLOT_COUNT ==> cb.interrupt_stack_table@[i] == 0,
            forall|i: int|
                0 <= i < PRIVILEGE_STACK_SLOT_COUNT ==> cb.privilege_stack_table@[i] == 0,
            cb.iomap_base == CONTROL_BLOCK_SIZE as u16,
    {
        let mut privilege_stack_table: Vec<u64> = Vec::new();
        let mut i: usize = 0;
        while i < PRIVILEGE_STACK_SLOT_COUNT
            invariant
                i <= PRIVILEGE_STACK_SLOT_COUNT,
                privilege_stack_table@.len() == i,
                forall|j: int| 0 <= j < i ==> privilege_stack_table@[j] == 0,
            decreases PRIVILEGE_STACK_SLOT_COUNT - i,
        {
            privilege_stack_table.push(0);
            i = i + 1;
        }
        let mut interrupt_stack_table: Vec<u64> = Vec::new();
        let mut k: usize = 0;
        while k < STACK_SWITCH_SLOT_COUNT
            invariant
                k <= STACK_SWITCH_SLOT_COUNT,
                interrupt_stack_table@.len() == k,
                forall|j: int| 0 <= j < k ==> interrupt_stack_table@[j] == 0,
            decreases STACK_SWITCH_SLOT_COUNT - k,
        {
            interrupt_stack_table.push(0);
            k = k + 1;
        }
        ControlBlock {
            privilege_stack_table,
            interrupt_stack_table,
            iomap_base: CONTROL_BLOCK_SIZE as u16,
        }
    }
}

/// The stack-switch table of a fully built control block: the double-fault
/// slot holds the emergency stack region's top address, every other slot is
/// unused (zero).
pub open spec fn spec_stack_switch_table(stack_base: u64) -> Seq<u64> {
    Seq::new(
        STACK_SWITCH_SLOT_COUNT as nat,
        |i: int|
            if i == DOUBLE_FAULT_IST_INDEX as int {
                (stack_base + STACK_CAPACITY) as u64
            } else {
                0u64
            },
    )
}

/// A control block exactly as the builder constructs it for an emergency
/// stack region based at `stack_base`.
pub open spec fn is_built_control_block(cb: ControlBlock, stack_base: u64) -> bool {
    &&& cb.wf()
    &&& cb.interrupt_stack_table@ == spec_stack_switch_table(stack_base)
    &&& cb.privilege_stack_table@ == Seq::new(PRIVILEGE_STACK_SLOT_COUNT as nat, |i: int| 0u64)
    &&& cb.iomap_base == CONTROL_BLOCK_SIZE as u16
}

/// Build the control block for an emergency stack region based at
/// `stack_base`: wire the double-fault stack-switch slot to the region's
/// top address, and leave everything else at its default.
pub fn build_control_block(stack_base: u64) -> (cb: ControlBlock)
    requires
        stack_base + STACK_CAPACITY <= u64::MAX,
    ensures
        is_built_control_block(cb, stack_base),
{
    let mut cb = ControlBlock::new();
    let top: u64 = stack_top(stack_base);
    cb.interrupt_stack_table.set(DOUBLE_FAULT_IST_INDEX as usize, top);
    proof {
        assert(cb.interrupt_stack_table@ =~= spec_stack_switch_table(stack_base));
        assert(cb.privilege_stack_table@ =~= Seq::new(
            PRIVILEGE_STACK_SLOT_COUNT as nat,
            |i: int| 0u64,
        ));
    }
    cb
}

/// The builder's result is a function of the stack base alone: any two
/// control blocks built for the same region are identical in every
/// observable field. The embedding kernel adds to this a one-shot cell, so
/// that every call after the first observes the same pinned instance.
pub proof fn lemma_control_block_builder_deterministic(
    a: ControlBlock,
    b: ControlBlock,
    stack_base: u64,
)
    requires
        is_built_control_block(a, stack_base),
        is_built_control_block(b, stack_base),
    ensures
        a.interrupt_stack_table@ == b.interrupt_stack_table@,
        a.privilege_stack_table@ == b.privilege_stack_table@,
        a.iomap_base == b.iomap_base,
{
}

} // verus!
