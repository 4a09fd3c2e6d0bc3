//! Decisions taken on what the processor and the chipset report: the A20
//! gate, the CPUID probe, the long-mode feature test, and the control-register
//! bits that switch operating modes.

use vstd::prelude::*;

verus! {

/// I/O port of the fast A20 gate.
pub const A20_PORT: u16 = 0x92;

/// Port bit that opens the A20 line.
pub const A20_GATE: u8 = 0x02;

/// Port bit that resets the machine when written as 1.
pub const FAST_RESET: u8 = 0x01;

/// Flags-register bit that software can toggle exactly when CPUID exists.
pub const EFLAGS_ID: u32 = 0x20_0000;

/// CPUID leaf that reports the highest extended leaf.
pub const CPUID_EXTENDED_MAX: u32 = 0x8000_0000;

/// CPUID leaf that reports the extended feature bits.
pub const CPUID_EXTENDED_FEATURES: u32 = 0x8000_0001;

/// Extended feature bit (in EDX) that announces long mode.
pub const LONG_MODE_FEATURE: u32 = 0x2000_0000;

/// Primary control register: protection enable.
pub const CR0_PROTECTION_ENABLE: u32 = 0x0000_0001;

/// Primary control register: paging enable.
pub const CR0_PAGING: u32 = 0x8000_0000;

/// Secondary control register: physical address extension.
pub const CR4_PAE: u32 = 0x0000_0020;

/// Number of the extended-feature model-specific register.
pub const EFER_MSR: u32 = 0xC000_0080;

/// Extended-feature register: long mode enable.
pub const EFER_LONG_MODE_ENABLE: u32 = 0x0000_0100;

/// The A20 line is open according to the value read from the port.
pub open spec fn a20_enabled(port_value: u8) -> bool {
    port_value & A20_GATE != 0
}

/// The port value that opens the A20 line: gate bit set, reset bit clear,
/// all other bits unchanged.
pub open spec fn a20_open_value(port_value: u8) -> u8 {
    (port_value | A20_GATE) & !FAST_RESET
}

/// Decides what to write to the A20 port after reading `port_value` from it:
/// nothing when the line is already open, else the value that opens it.
pub fn enable_a20(port_value: u8) -> (r: Option<u8>)
    ensures
        r == (if a20_enabled(port_value) {
            None
        } else {
            Some(a20_open_value(port_value))
        }),
{
    if port_value & A20_GATE != 0 {
        None
    } else {
        Some((port_value | A20_GATE) & !FAST_RESET)
    }
}

/// The value written to open the A20 line opens it, never triggers a reset,
/// and leaves the other six bits of the port as they were.
pub proof fn lemma_a20_open_value(port_value: u8)
    by (bit_vector)
    ensures
        a20_enabled(a20_open_value(port_value)),
        a20_open_value(port_value) & FAST_RESET == 0,
        a20_open_value(port_value) & 0xFC == port_value & 0xFC,
{
}

/// CPUID exists: the identification bit of the flags register differed
/// between the value written back and the value read again.
pub open spec fn cpuid_present(flags_before: u32, flags_after: u32) -> bool {
    (flags_before ^ flags_after) & EFLAGS_ID != 0
}

/// The flags value to write for the probe: `flags` with the identification
/// bit toggled.
pub fn cpuid_probe(flags: u32) -> (r: u32)
    ensures
        r == flags ^ EFLAGS_ID,
{
    flags ^ EFLAGS_ID
}

/// Decides whether CPUID exists from the flags register before the probe and
/// as read back after it.
pub fn has_cpuid(flags_before: u32, flags_after: u32) -> (r: bool)
    ensures
        r == cpuid_present(flags_before, flags_after),
{
    (flags_before ^ flags_after) & EFLAGS_ID != 0
}

/// The probe succeeds exactly when the processor kept the toggled bit.
pub proof fn lemma_cpuid_probe(flags: u32, read_back: u32)
    by (bit_vector)
    ensures
        read_back == flags ^ EFLAGS_ID ==> cpuid_present(flags, read_back),
        read_back == flags ==> !cpuid_present(flags, read_back),
        cpuid_present(flags, read_back) <==> (read_back & EFLAGS_ID) != (flags & EFLAGS_ID),
{
}

/// The processor has extended leaves up to the feature leaf, and that leaf
/// announces long mode.
pub open spec fn long_mode_present(max_extended_leaf: u32, extended_features: u32) -> bool {
    max_extended_leaf >= CPUID_EXTENDED_FEATURES && extended_features & LONG_MODE_FEATURE != 0
}

/// Decides whether the extended feature leaf may be asked for at all.
pub fn has_extended_leaves(max_extended_leaf: u32) -> (r: bool)
    ensures
        r == (max_extended_leaf >= CPUID_EXTENDED_FEATURES),
{
    max_extended_leaf >= CPUID_EXTENDED_FEATURES
}

/// Decides whether the processor supports long mode from EAX of the
/// extended-maximum leaf and EDX of the extended-feature leaf.
pub fn has_long_mode(max_extended_leaf: u32, extended_features: u32) -> (r: bool)
    ensures
        r == long_mode_present(max_extended_leaf, extended_features),
{
    if max_extended_leaf < CPUID_EXTENDED_FEATURES {
        return false;
    }
    extended_features & LONG_MODE_FEATURE != 0
}

/// The value of a control register after `bits` were set in it: every mode
/// switch reads a register, sets the bits of the mode, and writes it back.
pub fn set_bits(value: u32, bits: u32) -> (r: u32)
    ensures
        r == value | bits,
{
    value | bits
}

/// Setting mode bits sets those bits and changes no other.
pub proof fn lemma_set_bits_only(value: u32, bits: u32)
    by (bit_vector)
    ensures
        (value | bits) & bits == bits,
        (value | bits) & !bits == value & !bits,
{
}

} // verus!
