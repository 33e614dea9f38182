//! The descriptor table: an ordered, append-only sequence of encoded
//! descriptor slots, together with the selectors that name its entries.
//!
//! The index at which a descriptor is appended determines its selector, so
//! entry order is load-bearing. The built table holds exactly two
//! descriptors — the kernel code segment and the control-block reference —
//! after the architecturally mandated null slot.

use vstd::prelude::*;

use crate::control_block::CONTROL_BLOCK_SIZE;
use crate::descriptor::{
    control_block_descriptor, is_executable, is_long_mode, is_present, kernel_code_segment,
    lemma_control_block_descriptor_encoding, lemma_kernel_code_descriptor_encoding, limit_low,
    privilege_level, spec_control_block_high, spec_control_block_low, system_descriptor_base,
    Descriptor, KERNEL_CODE_DESCRIPTOR,
};

verus! {

/// Byte size of one descriptor-table slot; selectors are multiples of it.
pub const DESCRIPTOR_ENTRY_SIZE: u16 = 8;

/// Greatest number of 8-byte slots the table can hold.
pub const MAX_ENTRIES: usize = 8;

/// A selector: an index-derived value naming one descriptor-table entry.
/// Bits 3.. hold the entry's slot index; bits 0..2 hold the requested
/// privilege level, always ring 0 here.
#[derive(Clone, Copy, Debug, PartialEq, Eq, Structural)]
pub struct SegmentSelector {
    /// The encoded selector value.
    pub value: u16,
}

/// Selector naming the entry at slot `index`, requesting ring 0.
pub open spec fn spec_selector_value(index: u16) -> u16 {
    (index * DESCRIPTOR_ENTRY_SIZE) as u16
}

/// The two selectors the build yields, consumed by activation.
#[derive(Clone, Copy, Debug, PartialEq, Eq, Structural)]
pub struct SelectorPair {
    /// Selector of the kernel code-segment descriptor.
    pub code: SegmentSelector,
    /// Selector of the control-block system descriptor.
    pub control_block: SegmentSelector,
}

/// The descriptor table. Once loaded into the CPU it must stay pinned:
/// the CPU retains its raw address and size.
pub struct DescriptorTable {
    /// Encoded 8-byte slots, in order; slot 0 is the null entry.
    pub entries: Vec<u64>,
}

impl DescriptorTable {
    /// The table starts with the null slot and fits the fixed capacity.
    pub open spec fn wf(self) -> bool {
        &&& 1 <= self.entries@.len() <= MAX_ENTRIES
        &&& self.entries@[0] == 0
    }

    /// An empty table: only the null slot.
    pub fn new() -> (t: DescriptorTable)
        ensures
            t.wf(),
            t.entries@ == seq![0u64],
    {
        let mut entries: Vec<u64> = Vec::new();
        entries.push(0);
        proof {
            assert(entries@ =~= seq![0u64]);
        }
        DescriptorTable { entries }
    }

    /// Append a descriptor. The returned selector names the slot at which
    /// the descriptor was placed; a later append therefore returns a
    /// strictly greater selector.
    pub fn add_entry(&mut self, d: Descriptor) -> (sel: SegmentSelector)
        requires
            old(self).wf(),
            old(self).entries@.len() + d.slot_count() <= MAX_ENTRIES,
        ensures
            final(self).wf(),
            final(self).entries@ == old(self).entries@ + d.slots(),
            sel.value == spec_selector_value(old(self).entries@.len() as u16),
    {
        let index: usize = self.entries.len();
        match d {
            Descriptor::UserSegment { value } => {
                self.entries.push(value);
            },
            Descriptor::SystemSegment { low, high } => {
                self.entries.push(low);
                self.entries.push(high);
            },
        }
        proof {
            assert(self.entries@ =~= old(self).entries@ + d.slots());
        }
        SegmentSelector { value: (index as u16) * DESCRIPTOR_ENTRY_SIZE }
    }
}

/// Selector of the kernel code-segment descriptor in the built table
/// (slot 1, the first entry after the null slot).
pub const CODE_SELECTOR: u16 = 8;

/// Selector of the control-block system descriptor in the built table
/// (slot 2, appended second).
pub const CONTROL_BLOCK_SELECTOR: u16 = 16;

/// The slots of the fully built table, in order: the null slot, the kernel
/// code-segment descriptor, then the two-slot system descriptor referencing
/// the control block pinned at `cb_base`.
pub open spec fn spec_built_entries(cb_base: u64) -> Seq<u64> {
    seq![
        0u64,
        KERNEL_CODE_DESCRIPTOR,
        spec_control_block_low(cb_base),
        spec_control_block_high(cb_base),
    ]
}

/// A table and selector pair exactly as the builder constructs them for a
/// control block pinned at `cb_base`.
pub open spec fn is_built_table(t: DescriptorTable, sels: SelectorPair, cb_base: u64) -> bool {
    &&& t.wf()
    &&& t.entries@ == spec_built_entries(cb_base)
    &&& sels.code.value == CODE_SELECTOR
    &&& sels.control_block.value == CONTROL_BLOCK_SELECTOR
}

/// Build the descriptor table for a control block pinned at `cb_base`:
/// starting from the empty table, append the kernel code-segment
/// descriptor, then the system descriptor referencing the control block,
/// recording each entry's selector.
pub fn build_descriptor_table(cb_base: u64) -> (r: (DescriptorTable, SelectorPair))
    ensures
        is_built_table(r.0, r.1, cb_base),
{
    let mut table = DescriptorTable::new();
    let code = table.add_entry(kernel_code_segment());
    let control_block = table.add_entry(control_block_descriptor(cb_base));
    proof {
        assert(table.entries@ =~= spec_built_entries(cb_base));
    }
    (table, SelectorPair { code, control_block })
}

/// The builder's result is a function of the control block's address
/// alone: any two tables and selector pairs built for it are identical.
/// The embedding kernel adds to this a one-shot cell, so that every call
/// after the first observes the same pinned table and the same selectors.
pub proof fn lemma_table_builder_deterministic(
    t1: DescriptorTable,
    s1: SelectorPair,
    t2: DescriptorTable,
    s2: SelectorPair,
    cb_base: u64,
)
    requires
        is_built_table(t1, s1, cb_base),
        is_built_table(t2, s2, cb_base),
    ensures
        t1.entries@ == t2.entries@,
        s1 == s2,
{
}

/// The built table contains exactly two descriptors after the null slot,
/// in order: entry 1 is the kernel code segment — ring 0, executable,
/// long-mode, present — and slots 2 and 3 are the system descriptor whose
/// words encode the control block's address and its byte size minus one.
pub proof fn lemma_built_table_layout(t: DescriptorTable, sels: SelectorPair, cb_base: u64)
    requires
        is_built_table(t, sels, cb_base),
    ensures
        t.entries@.len() == 4,
        t.entries@[0] == 0,
        t.entries@[1] == KERNEL_CODE_DESCRIPTOR,
        privilege_level(t.entries@[1]) == 0,
        is_executable(t.entries@[1]),
        is_long_mode(t.entries@[1]),
        is_present(t.entries@[1]),
        t.entries@[2] == spec_control_block_low(cb_base),
        t.entries@[3] == spec_control_block_high(cb_base),
        limit_low(t.entries@[2]) == CONTROL_BLOCK_SIZE - 1,
        system_descriptor_base(t.entries@[2], t.entries@[3]) == cb_base,
{
    lemma_kernel_code_descriptor_encoding();
    lemma_control_block_descriptor_encoding(cb_base);
}

/// Selectors are aligned to the descriptor-entry size and strictly ordered
/// by the append order of the entries they name: an entry placed at a
/// smaller slot index has a strictly smaller selector.
pub proof fn lemma_selectors_aligned_and_ordered(i: u16, j: u16)
    requires
        i < j,
        j < MAX_ENTRIES as u16,
    ensures
        spec_selector_value(i) % 8 == 0,
        spec_selector_value(j) % 8 == 0,
        spec_selector_value(i) < spec_selector_value(j),
{
}

/// In the built table the two selectors are distinct, each aligned to the
/// descriptor-entry size, strictly ordered by append order, and they name
/// slot 1 (the code segment) and slot 2 (the control block).
pub proof fn lemma_built_selectors(t: DescriptorTable, sels: SelectorPair, cb_base: u64)
    requires
        is_built_table(t, sels, cb_base),
    ensures
        sels.code.value != sels.control_block.value,
        sels.code.value % 8 == 0,
        sels.control_block.value % 8 == 0,
        sels.code.value < sels.control_block.value,
        t.entries@[sels.code.value as int / 8] == KERNEL_CODE_DESCRIPTOR,
        t.entries@[sels.control_block.value as int / 8] == spec_control_block_low(cb_base),
{
}

} // verus!
