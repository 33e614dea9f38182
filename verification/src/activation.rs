//! Activation: the one-shot sequence that installs the built table and
//! selectors into live CPU state.
//!
//! On hardware the three loads are privileged, irreversible register
//! writes: install the table's base and limit in the descriptor-table
//! register, reload the code-segment register through a control transfer,
//! and load the task register. The embedding kernel performs those loads;
//! this module states the sequence over a register model, so that its
//! outcome — and the safety of accidentally repeating it — can be checked.

use vstd::prelude::*;

use crate::control_block::{build_control_block, is_built_control_block, ControlBlock};
use crate::stack::STACK_CAPACITY;
use crate::table::{build_descriptor_table, is_built_table, DescriptorTable, SelectorPair};

verus! {

/// The CPU state that activation mutates: the descriptor-table register
/// (base and limit), the code-segment register and the task register.
#[derive(Clone, Copy, Debug, PartialEq, Eq, Structural)]
pub struct CpuState {
    /// Base address held in the descriptor-table register.
    pub table_base: u64,
    /// Limit (table byte size minus one) held in the descriptor-table register.
    pub table_limit: u16,
    /// Selector held in the code-segment register.
    pub code_segment: u16,
    /// Selector held in the task register.
    pub task_register: u16,
}

/// Limit the descriptor-table register takes for `table`: the table's
/// byte size minus one.
pub open spec fn spec_table_limit(table: DescriptorTable) -> u16 {
    (table.entries@.len() * 8 - 1) as u16
}

/// Limit of the descriptor table: one less than its size in bytes.
pub fn table_limit(table: &DescriptorTable) -> (limit: u16)
    requires
        table.wf(),
    ensures
        limit == spec_table_limit(*table),
{
    (table.entries.len() * 8 - 1) as u16
}

/// The CPU state after activating `table` (pinned at `table_base`) with
/// `sels`, whatever the prior state: the descriptor-table register holds
/// the table's base and limit, the code-segment register the code
/// selector, and the task register the control-block selector.
pub open spec fn spec_activated(table_base: u64, table: DescriptorTable, sels: SelectorPair) -> CpuState {
    CpuState {
        table_base,
        table_limit: spec_table_limit(table),
        code_segment: sels.code.value,
        task_register: sels.control_block.value,
    }
}

/// Activation: install the table's base and limit in the descriptor-table
/// register, reload the code-segment register with the code selector, then
/// load the task register with the control-block selector, in that order.
pub fn activate(cpu: &mut CpuState, table_base: u64, table: &DescriptorTable, sels: SelectorPair)
    requires
        table.wf(),
    ensures
        *final(cpu) == spec_activated(table_base, *table, sels),
{
    cpu.table_base = table_base;
    cpu.table_limit = table_limit(table);
    cpu.code_segment = sels.code.value;
    cpu.task_register = sels.control_block.value;
}

/// Repeating activation with the same table and selectors leaves the CPU
/// state exactly as the first activation left it: the sequence does not
/// corrupt state when accidentally invoked twice with the same backing
/// data.
pub proof fn lemma_activation_idempotent(
    first: CpuState,
    second: CpuState,
    table_base: u64,
    table: DescriptorTable,
    sels: SelectorPair,
)
    requires
        first == spec_activated(table_base, table, sels),
        second == spec_activated(table_base, table, sels),
    ensures
        second == first,
{
}

/// The full build-and-activate sequence for one core: build the control
/// block for the emergency stack region based at `stack_base`, build the
/// descriptor table for the control block's pinned address `cb_base`, then
/// activate the table (pinned at `table_base`) with the recorded
/// selectors. The embedding kernel supplies the pinned addresses — neither
/// record may move once loaded — and mirrors the activation with the real
/// privileged register loads, once per core, before interrupts are
/// unmasked on it.
pub fn init(cpu: &mut CpuState, stack_base: u64, cb_base: u64, table_base: u64) -> (r: (
    ControlBlock,
    DescriptorTable,
    SelectorPair,
))
    requires
        stack_base + STACK_CAPACITY <= u64::MAX,
    ensures
        is_built_control_block(r.0, stack_base),
        is_built_table(r.1, r.2, cb_base),
        *final(cpu) == spec_activated(table_base, r.1, r.2),
{
    let cb = build_control_block(stack_base);
    let (table, sels) = build_descriptor_table(cb_base);
    activate(cpu, table_base, &table, sels);
    (cb, table, sels)
}

} // verus!
