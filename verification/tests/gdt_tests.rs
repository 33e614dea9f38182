//! Tests for the descriptor-table library, including cross-checks of the
//! encodings against the `x86_64` architecture crate.

use gdt::activation::{activate, init, CpuState};
use gdt::control_block::{
    build_control_block, CONTROL_BLOCK_SIZE, DOUBLE_FAULT_IST_INDEX, PRIVILEGE_STACK_SLOT_COUNT,
    STACK_SWITCH_SLOT_COUNT,
};
use gdt::descriptor::KERNEL_CODE_DESCRIPTOR;
use gdt::stack::{stack_top, PAGE_SIZE, STACK_CAPACITY, STACK_PAGE_COUNT};
use gdt::table::build_descriptor_table;

use x86_64::structures::gdt::{Descriptor, GlobalDescriptorTable, SegmentSelector};
use x86_64::structures::tss::TaskStateSegment;
use x86_64::PrivilegeLevel;

/// Base address encoded across a system descriptor's two words.
fn system_descriptor_base(low: u64, high: u64) -> u64 {
    ((low >> 16) & 0xff_ffff) | (((low >> 56) & 0xff) << 24) | (high << 32)
}

#[test]
fn stack_capacity_is_five_pages() {
    assert_eq!(PAGE_SIZE, 4096);
    assert_eq!(STACK_PAGE_COUNT, 5);
    assert_eq!(STACK_CAPACITY, PAGE_SIZE * STACK_PAGE_COUNT);
    assert_eq!(STACK_CAPACITY, 20480);
    assert!(STACK_CAPACITY > 0);
}

#[test]
fn stack_top_is_base_plus_capacity() {
    let base: u64 = 0x4444_0000;
    assert_eq!(stack_top(base), base + 20480);
    assert_eq!(stack_top(0), 20480);
    assert_eq!(stack_top(u64::MAX - STACK_CAPACITY), u64::MAX);
}

#[test]
fn control_block_wires_double_fault_slot() {
    let base: u64 = 0x4444_0000;
    let cb = build_control_block(base);
    assert_eq!(cb.interrupt_stack_table.len(), STACK_SWITCH_SLOT_COUNT);
    assert_eq!(cb.privilege_stack_table.len(), PRIVILEGE_STACK_SLOT_COUNT);
    assert_eq!(
        cb.interrupt_stack_table[DOUBLE_FAULT_IST_INDEX as usize],
        base + 20480
    );
    for i in 1..STACK_SWITCH_SLOT_COUNT {
        assert_eq!(cb.interrupt_stack_table[i], 0);
    }
    for i in 0..PRIVILEGE_STACK_SLOT_COUNT {
        assert_eq!(cb.privilege_stack_table[i], 0);
    }
    assert_eq!(cb.iomap_base as u64, CONTROL_BLOCK_SIZE);
}

#[test]
fn control_block_builder_deterministic() {
    let base: u64 = 0x1234_5000;
    let a = build_control_block(base);
    let b = build_control_block(base);
    assert_eq!(a.interrupt_stack_table, b.interrupt_stack_table);
    assert_eq!(a.privilege_stack_table, b.privilege_stack_table);
    assert_eq!(a.iomap_base, b.iomap_base);
}

#[test]
fn table_has_two_entries_in_order() {
    let cb_base: u64 = 0x7700_1000;
    let (table, _sels) = build_descriptor_table(cb_base);
    assert_eq!(table.entries.len(), 4);
    assert_eq!(table.entries[0], 0);

    // Entry 1: the code segment, encoding ring 0, executable, long-mode.
    let code = table.entries[1];
    assert_eq!(code, KERNEL_CODE_DESCRIPTOR);
    assert_eq!((code >> 45) & 0x3, 0, "ring 0");
    assert_eq!((code >> 43) & 1, 1, "executable");
    assert_eq!((code >> 53) & 1, 1, "long mode");
    assert_eq!((code >> 47) & 1, 1, "present");
    assert_eq!((code >> 44) & 1, 1, "code-or-data descriptor");

    // Entries 2 and 3: the two-slot control-block system descriptor.
    let low = table.entries[2];
    let high = table.entries[3];
    assert_eq!((low >> 47) & 1, 1, "present");
    assert_eq!((low >> 44) & 1, 0, "system descriptor");
    assert_eq!((low >> 40) & 0xf, 0x9, "available 64-bit type");
    assert_eq!(system_descriptor_base(low, high), cb_base);
}

#[test]
fn selectors_distinct_aligned_ordered() {
    let cb_base: u64 = 0xfeed_0000;
    let (table, sels) = build_descriptor_table(cb_base);

    assert_ne!(sels.code.value, sels.control_block.value);
    assert_eq!(sels.code.value % 8, 0);
    assert_eq!(sels.control_block.value % 8, 0);
    assert!(sels.code.value < sels.control_block.value);
    assert_eq!(sels.code.value, 8);
    assert_eq!(sels.control_block.value, 16);

    // The control-block descriptor's size field holds the record's exact
    // byte size minus one.
    let low = table.entries[(sels.control_block.value / 8) as usize];
    assert_eq!(low & 0xffff, CONTROL_BLOCK_SIZE - 1);
}

#[test]
fn table_builder_deterministic() {
    let cb_base: u64 = 0x0bad_f00d;
    let (t1, s1) = build_descriptor_table(cb_base);
    let (t2, s2) = build_descriptor_table(cb_base);
    assert_eq!(t1.entries, t2.entries);
    assert_eq!(s1, s2);
}

#[test]
fn activation_loads_registers() {
    let cb_base: u64 = 0x5500_0000;
    let (table, sels) = build_descriptor_table(cb_base);
    let mut cpu = CpuState {
        table_base: 0,
        table_limit: 0,
        code_segment: 0,
        task_register: 0,
    };
    activate(&mut cpu, 0x9000, &table, sels);
    assert_eq!(cpu.table_base, 0x9000);
    assert_eq!(cpu.table_limit, 4 * 8 - 1);
    assert_eq!(cpu.code_segment, 8);
    assert_eq!(cpu.task_register, 16);
}

#[test]
fn activation_idempotent() {
    let stack_base: u64 = 0x4444_0000;
    let cb_base: u64 = 0x5500_0000;
    let table_base: u64 = 0x9000;
    let mut cpu = CpuState {
        table_base: 0,
        table_limit: 0,
        code_segment: 0,
        task_register: 0,
    };
    let (_, table, sels) = init(&mut cpu, stack_base, cb_base, table_base);
    let after_first = cpu;
    activate(&mut cpu, table_base, &table, sels);
    assert_eq!(cpu, after_first);

    // The whole entry point repeated with the same backing data as well.
    let (_, _, _) = init(&mut cpu, stack_base, cb_base, table_base);
    assert_eq!(cpu, after_first);
}

#[test]
fn code_descriptor_matches_architecture_crate() {
    match Descriptor::kernel_code_segment() {
        Descriptor::UserSegment(value) => assert_eq!(value, KERNEL_CODE_DESCRIPTOR),
        Descriptor::SystemSegment(_, _) => panic!("expected a user-segment descriptor"),
    }
}

#[test]
fn control_block_descriptor_matches_architecture_crate() {
    assert_eq!(core::mem::size_of::<TaskStateSegment>() as u64, CONTROL_BLOCK_SIZE);

    let tss: &'static TaskStateSegment = Box::leak(Box::new(TaskStateSegment::new()));
    let (low, high) = match Descriptor::tss_segment(tss) {
        Descriptor::SystemSegment(low, high) => (low, high),
        Descriptor::UserSegment(_) => panic!("expected a system descriptor"),
    };

    // Recover the record's address from the architecture crate's own
    // encoding and check that the library encodes the same words for it.
    let base = system_descriptor_base(low, high);
    let (table, _sels) = build_descriptor_table(base);
    assert_eq!(table.entries[2], low);
    assert_eq!(table.entries[3], high);
}

#[test]
fn selector_encoding_matches_architecture_crate() {
    assert_eq!(SegmentSelector::new(1, PrivilegeLevel::Ring0).0, 8);
    assert_eq!(SegmentSelector::new(2, PrivilegeLevel::Ring0).0, 16);
}

#[test]
fn built_table_matches_architecture_crate() {
    let tss: &'static TaskStateSegment = Box::leak(Box::new(TaskStateSegment::new()));
    let (low, high) = match Descriptor::tss_segment(tss) {
        Descriptor::SystemSegment(low, high) => (low, high),
        Descriptor::UserSegment(_) => panic!("expected a system descriptor"),
    };
    let base = system_descriptor_base(low, high);

    let mut reference: GlobalDescriptorTable = GlobalDescriptorTable::new();
    let code_sel = reference.append(Descriptor::kernel_code_segment());
    let tss_sel = reference.append(Descriptor::tss_segment(tss));

    let (table, sels) = build_descriptor_table(base);
    let raw: Vec<u64> = reference.entries().iter().map(|e| e.raw()).collect();
    assert_eq!(raw, table.entries);
    assert_eq!(code_sel.0, sels.code.value);
    assert_eq!(tss_sel.0, sels.control_block.value);
    assert_eq!(reference.limit(), (table.entries.len() * 8 - 1) as u16);
}
