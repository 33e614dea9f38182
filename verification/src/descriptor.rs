//! Descriptor entries: the encoded records that populate the descriptor
//! table.
//!
//! A code or data descriptor occupies one 8-byte table slot; a system
//! descriptor — here, the one referencing the control block — occupies
//! two. Segmentation provides no memory protection in 64-bit mode, so the
//! code-segment descriptor is flat: only its flag bits matter.

use vstd::prelude::*;

use crate::control_block::CONTROL_BLOCK_SIZE;

verus! {

/// Accessed flag (bit 40); set in advance so the CPU never writes the table.
pub const DESC_ACCESSED: u64 = 1u64 << 40u64;

/// Writable/readable flag (bit 41).
pub const DESC_WRITABLE: u64 = 1u64 << 41u64;

/// Executable flag (bit 43).
pub const DESC_EXECUTABLE: u64 = 1u64 << 43u64;

/// Code-or-data (non-system) descriptor flag (bit 44).
pub const DESC_USER_SEGMENT: u64 = 1u64 << 44u64;

/// Present flag (bit 47).
pub const DESC_PRESENT: u64 = 1u64 << 47u64;

/// Long-mode (64-bit code) flag (bit 53).
pub const DESC_LONG_MODE: u64 = 1u64 << 53u64;

/// Page-granularity flag (bit 55).
pub const DESC_GRANULARITY: u64 = 1u64 << 55u64;

/// Low 16 bits of the segment limit, set to their maximum for a flat segment.
pub const DESC_LIMIT_0_15: u64 = 0xffffu64;

/// High 4 bits of the segment limit (bits 48..52), set to their maximum.
pub const DESC_LIMIT_16_19: u64 = 0xfu64 << 48u64;

/// The kernel code-segment descriptor: flat, present, ring 0 (the
/// privilege bits 45..47 are clear), executable and long-mode.
pub const KERNEL_CODE_DESCRIPTOR: u64 = DESC_LIMIT_0_15 | DESC_ACCESSED | DESC_WRITABLE
    | DESC_EXECUTABLE | DESC_USER_SEGMENT | DESC_PRESENT | DESC_LIMIT_16_19 | DESC_LONG_MODE
    | DESC_GRANULARITY;

/// System-descriptor type field value for an available 64-bit control block.
pub const SYSTEM_TYPE_AVAILABLE: u64 = 0x9;

/// One descriptor-table entry, before it is appended to the table.
#[derive(Clone, Copy, Debug, PartialEq, Eq, Structural)]
pub enum Descriptor {
    /// A code or data segment descriptor: one 8-byte slot.
    UserSegment { value: u64 },
    /// A system descriptor, such as the control-block reference: two slots.
    SystemSegment { low: u64, high: u64 },
}

impl Descriptor {
    /// Number of 8-byte table slots the descriptor occupies.
    pub open spec fn slot_count(self) -> int {
        match self {
            Descriptor::UserSegment { .. } => 1,
            Descriptor::SystemSegment { .. } => 2,
        }
    }

    /// The descriptor's encoded slots, in table order.
    pub open spec fn slots(self) -> Seq<u64> {
        match self {
            Descriptor::UserSegment { value } => seq![value],
            Descriptor::SystemSegment { low, high } => seq![low, high],
        }
    }
}

/// Privilege level (ring) field of a descriptor, bits 45..47.
pub open spec fn privilege_level(v: u64) -> u64 {
    (v >> 45u64) & 0x3u64
}

/// Low 16 bits of the limit field.
pub open spec fn limit_low(v: u64) -> u64 {
    v & 0xffffu64
}

/// Whether the present flag is set.
pub open spec fn is_present(v: u64) -> bool {
    v & DESC_PRESENT != 0u64
}

/// Whether the executable flag is set.
pub open spec fn is_executable(v: u64) -> bool {
    v & DESC_EXECUTABLE != 0u64
}

/// Whether the long-mode flag is set.
pub open spec fn is_long_mode(v: u64) -> bool {
    v & DESC_LONG_MODE != 0u64
}

/// Whether the entry is a code-or-data (non-system) descriptor.
pub open spec fn is_user_segment(v: u64) -> bool {
    v & DESC_USER_SEGMENT != 0u64
}

/// System-descriptor type field, bits 40..44.
pub open spec fn system_type(v: u64) -> u64 {
    (v >> 40u64) & 0xfu64
}

/// Low word of the system descriptor referencing a control block pinned at
/// `base`: the record's byte size minus one as limit, the low 32 base-address
/// bits split across bits 16..40 and 56..64, the available-64-bit type, and
/// the present flag.
pub open spec fn spec_control_block_low(base: u64) -> u64 {
    ((CONTROL_BLOCK_SIZE - 1) as u64) | ((base & 0xff_ffffu64) << 16u64) | (SYSTEM_TYPE_AVAILABLE
        << 40u64) | DESC_PRESENT | (((base >> 24u64) & 0xffu64) << 56u64)
}

/// High word of the same system descriptor: the upper 32 base-address bits.
pub open spec fn spec_control_block_high(base: u64) -> u64 {
    base >> 32u64
}

/// Base address encoded across a system descriptor's two words.
pub open spec fn system_descriptor_base(low: u64, high: u64) -> u64 {
    ((low >> 16u64) & 0xff_ffffu64) | (((low >> 56u64) & 0xffu64) << 24u64) | (high << 32u64)
}

/// The kernel code-segment descriptor.
pub fn kernel_code_segment() -> (d: Descriptor)
    ensures
        d == (Descriptor::UserSegment { value: KERNEL_CODE_DESCRIPTOR }),
{
    Descriptor::UserSegment { value: KERNEL_CODE_DESCRIPTOR }
}

/// The system descriptor referencing the control block pinned at `base`.
pub fn control_block_descriptor(base: u64) -> (d: Descriptor)
    ensures
        d == (Descriptor::SystemSegment {
            low: spec_control_block_low(base),
            high: spec_control_block_high(base),
        }),
{
    let low: u64 = (CONTROL_BLOCK_SIZE - 1) | ((base & 0xff_ffff) << 16) | (SYSTEM_TYPE_AVAILABLE
        << 40) | DESC_PRESENT | (((base >> 24) & 0xff) << 56);
    let high: u64 = base >> 32;
    Descriptor::SystemSegment { low, high }
}

/// The kernel code-segment descriptor encodes ring 0, executable,
/// long-mode, present, and a non-system (code-or-data) entry.
pub proof fn lemma_kernel_code_descriptor_encoding()
    ensures
        privilege_level(KERNEL_CODE_DESCRIPTOR) == 0,
        is_executable(KERNEL_CODE_DESCRIPTOR),
        is_long_mode(KERNEL_CODE_DESCRIPTOR),
        is_present(KERNEL_CODE_DESCRIPTOR),
        is_user_segment(KERNEL_CODE_DESCRIPTOR),
{
    assert(privilege_level(KERNEL_CODE_DESCRIPTOR) == 0 && is_executable(KERNEL_CODE_DESCRIPTOR)
        && is_long_mode(KERNEL_CODE_DESCRIPTOR) && is_present(KERNEL_CODE_DESCRIPTOR)
        && is_user_segment(KERNEL_CODE_DESCRIPTOR)) by (bit_vector);
}

/// The system descriptor for a control block pinned at `base` encodes the
/// record's byte size minus one as its limit, ring 0, the available-64-bit
/// type, the present flag, a system (non-code) entry — and the full base
/// address, recoverable from its fields.
pub proof fn lemma_control_block_descriptor_encoding(base: u64)
    ensures
        limit_low(spec_control_block_low(base)) == CONTROL_BLOCK_SIZE - 1,
        privilege_level(spec_control_block_low(base)) == 0,
        system_type(spec_control_block_low(base)) == SYSTEM_TYPE_AVAILABLE,
        is_present(spec_control_block_low(base)),
        !is_user_segment(spec_control_block_low(base)),
        system_descriptor_base(spec_control_block_low(base), spec_control_block_high(base))
            == base,
{
    assert(limit_low(spec_control_block_low(base)) == 103 && privilege_level(
        spec_control_block_low(base),
    ) == 0 && system_type(spec_control_block_low(base)) == 9 && is_present(
        spec_control_block_low(base),
    ) && !is_user_segment(spec_control_block_low(base)) && system_descriptor_base(
        spec_control_block_low(base),
        spec_control_block_high(base),
    ) == base) by (bit_vector);
}

} // verus!
