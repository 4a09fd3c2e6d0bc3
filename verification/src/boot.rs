//! The mode-transition engine: the sequence of hardware transactions that
//! takes the processor from real mode to long mode.
//!
//! The engine performs no transaction itself. It says which one is due
//! ([`Pending::action`]) and, given its outcome, which one is due next
//! ([`Pending::step`]). Whoever drives it performs the transactions, one at
//! a time and in the order the engine gives them.

use vstd::prelude::*;
use crate::cpu::{
    a20_enabled, a20_open_value, cpuid_present, enable_a20, has_cpuid, A20_PORT,
    CPUID_EXTENDED_FEATURES, CPUID_EXTENDED_MAX, CR0_PAGING, CR0_PROTECTION_ENABLE, CR4_PAE,
    EFER_LONG_MODE_ENABLE, EFLAGS_ID, LONG_MODE_FEATURE,
};
use crate::gdt::{Gdt, DESCRIPTOR_SIZE};
use crate::layout::{
    spec_stage_start, GDT_POINTER, GDT_START, PDPT_START, PDT_START, PML4T_START, PT_START,
};
use crate::memory_map::{
    E820Request, E820Response, MemoryScan, ScanError, ScanStep, BUFFER_START, E820_FUNCTION,
    E820_MAGIC, ENTRY_SIZE,
};

verus! {

/// Selector of the code descriptor, the second of a table.
pub const CODE_SELECTOR: u16 = 0x08;

/// Selector of the data descriptor, the third of a table.
pub const DATA_SELECTOR: u16 = 0x10;

/// Entry point of the 32-bit stage.
pub const PROTECTED_MODE_ENTRY: u32 = 0x8200;

/// Entry point of the 64-bit stage.
pub const LONG_MODE_ENTRY: u32 = 0xa200;

/// Why the processor was parked.
#[derive(Clone, Copy, Debug, PartialEq, Eq, Structural)]
pub enum Fatal {
    /// The processor has no CPUID instruction.
    NoCpuid,
    /// The processor has no extended CPUID leaves.
    NoExtendedLeaves,
    /// The processor does not announce long mode.
    NoLongMode,
    /// The memory enumeration failed.
    MemoryMap(ScanError),
    /// The driver reported an outcome that does not answer the pending
    /// transaction.
    UnexpectedEvent,
}

impl Fatal {
    /// The short text shown before the processor is parked.
    pub fn diagnostic(&self) -> (r: &'static str)
        ensures
            r@ == (match *self {
                Fatal::NoCpuid => "CPUID not present"@,
                Fatal::NoExtendedLeaves => "No long mode feature"@,
                Fatal::NoLongMode => "No long mode!"@,
                Fatal::MemoryMap(ScanError::CallFailed) => "mem call failed"@,
                Fatal::MemoryMap(ScanError::BadSignature) => "bad eax mem"@,
                Fatal::MemoryMap(ScanError::BadLength) => "mem offset bad"@,
                Fatal::MemoryMap(ScanError::Unterminated) => "mem map has no end"@,
                Fatal::UnexpectedEvent => "unexpected outcome"@,
            }),
    {
        match self {
            Fatal::NoCpuid => "CPUID not present",
            Fatal::NoExtendedLeaves => "No long mode feature",
            Fatal::NoLongMode => "No long mode!",
            Fatal::MemoryMap(ScanError::CallFailed) => "mem call failed",
            Fatal::MemoryMap(ScanError::BadSignature) => "bad eax mem",
            Fatal::MemoryMap(ScanError::BadLength) => "mem offset bad",
            Fatal::MemoryMap(ScanError::Unterminated) => "mem map has no end",
            Fatal::UnexpectedEvent => "unexpected outcome",
        }
    }
}

/// The operating states of the machine, in the order they are passed through,
/// and the terminal state `Halt`.
#[derive(Clone, Copy, Debug, PartialEq, Eq, Structural)]
pub enum BootState {
    RealMode,
    A20Enabled,
    FeatureChecked,
    MemoryEnumerated,
    ProtectedMode,
    PagingConfigured,
    LongModeCompat,
    LongMode,
    Halt,
}

impl BootState {
    /// Position of the state on the way from real mode (0) to long mode (7).
    /// `Halt` lies beyond all of them.
    pub open spec fn rank(self) -> int {
        match self {
            BootState::RealMode => 0,
            BootState::A20Enabled => 1,
            BootState::FeatureChecked => 2,
            BootState::MemoryEnumerated => 3,
            BootState::ProtectedMode => 4,
            BootState::PagingConfigured => 5,
            BootState::LongModeCompat => 6,
            BootState::LongMode => 7,
            BootState::Halt => 8,
        }
    }
}

/// The transaction whose outcome the engine is waiting for. From
/// `NegotiateVideo` on each carries the number of memory-map records.
#[derive(Clone, Copy, Debug, PartialEq, Eq, Structural)]
pub enum Pending {
    /// Read the A20 port.
    ReadA20,
    /// Write `value` to the A20 port.
    WriteA20 { value: u8 },
    /// Toggle the identification bit of the flags register and read it back.
    ProbeFlags,
    /// Ask CPUID for the highest extended leaf.
    QueryExtendedLeaves,
    /// Ask CPUID for the extended feature bits.
    QueryLongMode,
    /// Ask the firmware for the next memory-map record.
    QueryMemory(MemoryScan),
    /// Negotiate the video mode, while the firmware can still be called.
    NegotiateVideo { count: u16 },
    /// Disable interrupts; they stay off from here on.
    DisableInterrupts { count: u16 },
    /// Write the protected-mode table and load the table register with it.
    LoadProtectedTable { count: u16 },
    /// Set the protection-enable bit.
    EnableProtection { count: u16 },
    /// Jump through the new code selector into the 32-bit stage.
    EnterProtectedStage { count: u16 },
    /// Write the four page tables.
    WritePageTables { count: u16 },
    /// Set the physical-address-extension bit.
    EnablePae { count: u16 },
    /// Set the long-mode-enable bit.
    EnableLongMode { count: u16 },
    /// Set the paging-enable bit.
    EnablePaging { count: u16 },
    /// Write the long-mode table and load the table register with it.
    LoadLongTable { count: u16 },
    /// Jump through the new code selector into the 64-bit stage.
    EnterLongStage { count: u16 },
    /// Nothing: the 64-bit stage runs.
    Running { count: u16 },
    /// Nothing: the processor is parked.
    Halted(Fatal),
}

/// The outcome of a transaction, as the driver reports it.
#[derive(Clone, Copy, Debug, PartialEq, Eq, Structural)]
pub enum BootEvent {
    /// A port was read.
    PortRead(u8),
    /// The flags register before the probe and as read back after it.
    FlagsRead { before: u32, after: u32 },
    /// Registers after CPUID.
    Cpuid { eax: u32, edx: u32 },
    /// Registers after a memory-map call.
    MemoryMap(E820Response),
    /// A transaction that reports nothing was performed.
    Completed,
}

/// A register that holds mode bits.
#[derive(Clone, Copy, Debug, PartialEq, Eq, Structural)]
pub enum ControlRegister {
    /// The primary control register.
    Cr0,
    /// The secondary control register.
    Cr4,
    /// The extended-feature model-specific register.
    Efer,
}

/// A transaction, with everything the driver needs to perform it.
#[derive(Clone, Copy, Debug, PartialEq, Eq, Structural)]
pub enum BootAction {
    /// Read a byte from an I/O port.
    ReadPort { port: u16 },
    /// Write a byte to an I/O port.
    WritePort { port: u16, value: u8 },
    /// Toggle bit `toggle` of the flags register and read the register back.
    ProbeFlags { toggle: u32 },
    /// Execute CPUID for a leaf.
    Cpuid { leaf: u32 },
    /// Call the memory-map service.
    QueryMemoryMap(E820Request),
    /// Choose and enter a video mode through the firmware; whether a mode
    /// was entered is for the driver to judge.
    NegotiateVideo,
    /// Disable interrupts.
    DisableInterrupts,
    /// Write the bytes of `table` to `table_address`, the pointer to it to
    /// `pointer_address`, and load the table register from there. Segment
    /// registers loaded before are stale until they are reloaded.
    LoadTable { table: Gdt, table_address: u32, pointer_address: u32 },
    /// Read the register, set `bits` in it, write it back.
    SetControlBits { register: ControlRegister, bits: u32 },
    /// Build the page tables for these addresses and write them there.
    WritePageTables { pml4t: u32, pdpt: u32, pdt: u32, pt: u32 },
    /// Jump through `code_selector` into the next stage, reload the data and
    /// stack segment registers with `data_selector`, and call `entry` with
    /// `count`.
    FarJump { code_selector: u16, data_selector: u16, entry: u32, count: u16 },
    /// Nothing is left to do.
    Finished { count: u16 },
    /// Print the diagnostic and idle forever.
    Park(Fatal),
}

/// Fails exactly when the flags probe shows that CPUID is missing.
pub fn check_cpuid_support(flags_before: u32, flags_after: u32) -> (r: Result<(), Fatal>)
    ensures
        r == (if cpuid_present(flags_before, flags_after) {
            Ok::<(), Fatal>(())
        } else {
            Err::<(), Fatal>(Fatal::NoCpuid)
        }),
{
    if has_cpuid(flags_before, flags_after) {
        Ok(())
    } else {
        Err(Fatal::NoCpuid)
    }
}

/// Fails when the extended leaves stop short of the feature leaf, and else
/// when the feature leaf does not announce long mode.
pub fn check_long_mode_support(max_extended_leaf: u32, extended_features: u32) -> (r: Result<
    (),
    Fatal,
>)
    ensures
        r == (if max_extended_leaf < CPUID_EXTENDED_FEATURES {
            Err::<(), Fatal>(Fatal::NoExtendedLeaves)
        } else if extended_features & LONG_MODE_FEATURE == 0 {
            Err::<(), Fatal>(Fatal::NoLongMode)
        } else {
            Ok::<(), Fatal>(())
        }),
{
    if max_extended_leaf < CPUID_EXTENDED_FEATURES {
        Err(Fatal::NoExtendedLeaves)
    } else if extended_features & LONG_MODE_FEATURE == 0 {
        Err(Fatal::NoLongMode)
    } else {
        Ok(())
    }
}

impl Pending {
    /// The operating state the machine is in while this transaction is due.
    pub open spec fn spec_state(self) -> BootState {
        match self {
            Pending::ReadA20 => BootState::RealMode,
            Pending::WriteA20 { .. } => BootState::RealMode,
            Pending::ProbeFlags => BootState::A20Enabled,
            Pending::QueryExtendedLeaves => BootState::A20Enabled,
            Pending::QueryLongMode => BootState::A20Enabled,
            Pending::QueryMemory(_) => BootState::FeatureChecked,
            Pending::NegotiateVideo { .. } => BootState::MemoryEnumerated,
            Pending::DisableInterrupts { .. } => BootState::MemoryEnumerated,
            Pending::LoadProtectedTable { .. } => BootState::MemoryEnumerated,
            Pending::EnableProtection { .. } => BootState::MemoryEnumerated,
            Pending::EnterProtectedStage { .. } => BootState::ProtectedMode,
            Pending::WritePageTables { .. } => BootState::ProtectedMode,
            Pending::EnablePae { .. } => BootState::ProtectedMode,
            Pending::EnableLongMode { .. } => BootState::PagingConfigured,
            Pending::EnablePaging { .. } => BootState::PagingConfigured,
            Pending::LoadLongTable { .. } => BootState::LongModeCompat,
            Pending::EnterLongStage { .. } => BootState::LongModeCompat,
            Pending::Running { .. } => BootState::LongMode,
            Pending::Halted(_) => BootState::Halt,
        }
    }

    /// The number of memory-map records, once the enumeration has ended
    /// well.
    pub open spec fn spec_count(self) -> Option<u16> {
        match self {
            Pending::NegotiateVideo { count } => Some(count),
            Pending::DisableInterrupts { count } => Some(count),
            Pending::LoadProtectedTable { count } => Some(count),
            Pending::EnableProtection { count } => Some(count),
            Pending::EnterProtectedStage { count } => Some(count),
            Pending::WritePageTables { count } => Some(count),
            Pending::EnablePae { count } => Some(count),
            Pending::EnableLongMode { count } => Some(count),
            Pending::EnablePaging { count } => Some(count),
            Pending::LoadLongTable { count } => Some(count),
            Pending::EnterLongStage { count } => Some(count),
            Pending::Running { count } => Some(count),
            _ => None,
        }
    }

    /// What is due once the pending transaction, which reports nothing, was
    /// performed.
    pub open spec fn spec_completed(self) -> Pending {
        match self {
            Pending::WriteA20 { .. } => Pending::ProbeFlags,
            Pending::NegotiateVideo { count } => Pending::DisableInterrupts { count },
            Pending::DisableInterrupts { count } => Pending::LoadProtectedTable { count },
            Pending::LoadProtectedTable { count } => Pending::EnableProtection { count },
            Pending::EnableProtection { count } => Pending::EnterProtectedStage { count },
            Pending::EnterProtectedStage { count } => Pending::WritePageTables { count },
            Pending::WritePageTables { count } => Pending::EnablePae { count },
            Pending::EnablePae { count } => Pending::EnableLongMode { count },
            Pending::EnableLongMode { count } => Pending::EnablePaging { count },
            Pending::EnablePaging { count } => Pending::LoadLongTable { count },
            Pending::LoadLongTable { count } => Pending::EnterLongStage { count },
            Pending::EnterLongStage { count } => Pending::Running { count },
            _ => Pending::Halted(Fatal::UnexpectedEvent),
        }
    }

    /// What is due after the pending transaction had the outcome `event`.
    /// An outcome of the wrong kind parks the processor.
    pub open spec fn spec_step(self, event: BootEvent) -> Pending {
        match (self, event) {
            (Pending::Halted(fatal), _) => Pending::Halted(fatal),
            (Pending::Running { count }, _) => Pending::Running { count },
            (Pending::ReadA20, BootEvent::PortRead(value)) => if a20_enabled(value) {
                Pending::ProbeFlags
            } else {
                Pending::WriteA20 { value: a20_open_value(value) }
            },
            (Pending::ProbeFlags, BootEvent::FlagsRead { before, after }) => if cpuid_present(
                before,
                after,
            ) {
                Pending::QueryExtendedLeaves
            } else {
                Pending::Halted(Fatal::NoCpuid)
            },
            (Pending::QueryExtendedLeaves, BootEvent::Cpuid { eax, edx }) => if eax
                >= CPUID_EXTENDED_FEATURES {
                Pending::QueryLongMode
            } else {
                Pending::Halted(Fatal::NoExtendedLeaves)
            },
            (Pending::QueryLongMode, BootEvent::Cpuid { eax, edx }) => if edx & LONG_MODE_FEATURE
                != 0 {
                Pending::QueryMemory(MemoryScan { count: 0, continuation: 0 })
            } else {
                Pending::Halted(Fatal::NoLongMode)
            },
            (Pending::QueryMemory(scan), BootEvent::MemoryMap(response)) => {
                match scan.spec_advance(response) {
                    ScanStep::Query(next) => Pending::QueryMemory(next),
                    ScanStep::Done { count } => Pending::NegotiateVideo { count },
                    ScanStep::Fatal(error) => Pending::Halted(Fatal::MemoryMap(error)),
                }
            },
            (_, BootEvent::Completed) => self.spec_completed(),
            _ => Pending::Halted(Fatal::UnexpectedEvent),
        }
    }

    /// The transaction to perform, in full.
    pub open spec fn spec_action(self) -> BootAction {
        match self {
            Pending::ReadA20 => BootAction::ReadPort { port: A20_PORT },
            Pending::WriteA20 { value } => BootAction::WritePort { port: A20_PORT, value },
            Pending::ProbeFlags => BootAction::ProbeFlags { toggle: EFLAGS_ID },
            Pending::QueryExtendedLeaves => BootAction::Cpuid { leaf: CPUID_EXTENDED_MAX },
            Pending::QueryLongMode => BootAction::Cpuid { leaf: CPUID_EXTENDED_FEATURES },
            Pending::QueryMemory(scan) => if scan.wf() {
                BootAction::QueryMemoryMap(
                    E820Request {
                        eax: E820_FUNCTION,
                        ebx: scan.continuation,
                        ecx: ENTRY_SIZE as u32,
                        edx: E820_MAGIC,
                        di: (BUFFER_START + ENTRY_SIZE * scan.count) as u16,
                    },
                )
            } else {
                BootAction::Park(Fatal::MemoryMap(ScanError::Unterminated))
            },
            Pending::NegotiateVideo { .. } => BootAction::NegotiateVideo,
            Pending::DisableInterrupts { .. } => BootAction::DisableInterrupts,
            Pending::LoadProtectedTable { .. } => BootAction::LoadTable {
                table: Gdt::spec_protected_mode(),
                table_address: GDT_START as u32,
                pointer_address: GDT_POINTER as u32,
            },
            Pending::EnableProtection { .. } => BootAction::SetControlBits {
                register: ControlRegister::Cr0,
                bits: CR0_PROTECTION_ENABLE,
            },
            Pending::EnterProtectedStage { count } => BootAction::FarJump {
                code_selector: CODE_SELECTOR,
                data_selector: DATA_SELECTOR,
                entry: PROTECTED_MODE_ENTRY,
                count,
            },
            Pending::WritePageTables { .. } => BootAction::WritePageTables {
                pml4t: PML4T_START as u32,
                pdpt: PDPT_START as u32,
                pdt: PDT_START as u32,
                pt: PT_START as u32,
            },
            Pending::EnablePae { .. } => BootAction::SetControlBits {
                register: ControlRegister::Cr4,
                bits: CR4_PAE,
            },
            Pending::EnableLongMode { .. } => BootAction::SetControlBits {
                register: ControlRegister::Efer,
                bits: EFER_LONG_MODE_ENABLE,
            },
            Pending::EnablePaging { .. } => BootAction::SetControlBits {
                register: ControlRegister::Cr0,
                bits: CR0_PAGING,
            },
            Pending::LoadLongTable { .. } => BootAction::LoadTable {
                table: Gdt::spec_long_mode(),
                table_address: GDT_START as u32,
                pointer_address: GDT_POINTER as u32,
            },
            Pending::EnterLongStage { count } => BootAction::FarJump {
                code_selector: CODE_SELECTOR,
                data_selector: DATA_SELECTOR,
                entry: LONG_MODE_ENTRY,
                count,
            },
            Pending::Running { count } => BootAction::Finished { count },
            Pending::Halted(fatal) => BootAction::Park(fatal),
        }
    }

    /// The engine at reset: in real mode, about to read the A20 port.
    pub fn start() -> (r: Pending)
        ensures
            r == Pending::ReadA20,
            r.spec_state() == BootState::RealMode,
    {
        Pending::ReadA20
    }

    /// The engine as the 32-bit stage finds it: in protected mode, with the
    /// number of memory-map records it was handed, about to write the page
    /// tables.
    pub fn resume_protected(count: u16) -> (r: Pending)
        ensures
            r == (Pending::WritePageTables { count }),
            r == (Pending::EnterProtectedStage { count }).spec_completed(),
    {
        Pending::WritePageTables { count }
    }

    /// The operating state the machine is in.
    pub fn state(&self) -> (r: BootState)
        ensures
            r == self.spec_state(),
    {
        match self {
            Pending::ReadA20 => BootState::RealMode,
            Pending::WriteA20 { .. } => BootState::RealMode,
            Pending::ProbeFlags => BootState::A20Enabled,
            Pending::QueryExtendedLeaves => BootState::A20Enabled,
            Pending::QueryLongMode => BootState::A20Enabled,
            Pending::QueryMemory(_) => BootState::FeatureChecked,
            Pending::NegotiateVideo { .. } => BootState::MemoryEnumerated,
            Pending::DisableInterrupts { .. } => BootState::MemoryEnumerated,
            Pending::LoadProtectedTable { .. } => BootState::MemoryEnumerated,
            Pending::EnableProtection { .. } => BootState::MemoryEnumerated,
            Pending::EnterProtectedStage { .. } => BootState::ProtectedMode,
            Pending::WritePageTables { .. } => BootState::ProtectedMode,
            Pending::EnablePae { .. } => BootState::ProtectedMode,
            Pending::EnableLongMode { .. } => BootState::PagingConfigured,
            Pending::EnablePaging { .. } => BootState::PagingConfigured,
            Pending::LoadLongTable { .. } => BootState::LongModeCompat,
            Pending::EnterLongStage { .. } => BootState::LongModeCompat,
            Pending::Running { .. } => BootState::LongMode,
            Pending::Halted(_) => BootState::Halt,
        }
    }

    /// The transaction the driver must perform now.
    pub fn action(&self) -> (r: BootAction)
        ensures
            r == self.spec_action(),
    {
        match self {
            Pending::ReadA20 => BootAction::ReadPort { port: A20_PORT },
            Pending::WriteA20 { value } => BootAction::WritePort { port: A20_PORT, value: *value },
            Pending::ProbeFlags => BootAction::ProbeFlags { toggle: EFLAGS_ID },
            Pending::QueryExtendedLeaves => BootAction::Cpuid { leaf: CPUID_EXTENDED_MAX },
            Pending::QueryLongMode => BootAction::Cpuid { leaf: CPUID_EXTENDED_FEATURES },
            Pending::QueryMemory(scan) => {
                if scan.is_wf() {
                    BootAction::QueryMemoryMap(scan.request())
                } else {
                    BootAction::Park(Fatal::MemoryMap(ScanError::Unterminated))
                }
            },
            Pending::NegotiateVideo { .. } => BootAction::NegotiateVideo,
            Pending::DisableInterrupts { .. } => BootAction::DisableInterrupts,
            Pending::LoadProtectedTable { .. } => BootAction::LoadTable {
                table: Gdt::protected_mode(),
                table_address: GDT_START as u32,
                pointer_address: GDT_POINTER as u32,
            },
            Pending::EnableProtection { .. } => BootAction::SetControlBits {
                register: ControlRegister::Cr0,
                bits: CR0_PROTECTION_ENABLE,
            },
            Pending::EnterProtectedStage { count } => BootAction::FarJump {
                code_selector: CODE_SELECTOR,
                data_selector: DATA_SELECTOR,
                entry: PROTECTED_MODE_ENTRY,
                count: *count,
            },
            Pending::WritePageTables { .. } => BootAction::WritePageTables {
                pml4t: PML4T_START as u32,
                pdpt: PDPT_START as u32,
                pdt: PDT_START as u32,
                pt: PT_START as u32,
            },
            Pending::EnablePae { .. } => BootAction::SetControlBits {
                register: ControlRegister::Cr4,
                bits: CR4_PAE,
            },
            Pending::EnableLongMode { .. } => BootAction::SetControlBits {
                register: ControlRegister::Efer,
                bits: EFER_LONG_MODE_ENABLE,
            },
            Pending::EnablePaging { .. } => BootAction::SetControlBits {
                register: ControlRegister::Cr0,
                bits: CR0_PAGING,
            },
            Pending::LoadLongTable { .. } => BootAction::LoadTable {
                table: Gdt::long_mode(),
                table_address: GDT_START as u32,
                pointer_address: GDT_POINTER as u32,
            },
            Pending::EnterLongStage { count } => BootAction::FarJump {
                code_selector: CODE_SELECTOR,
                data_selector: DATA_SELECTOR,
                entry: LONG_MODE_ENTRY,
                count: *count,
            },
            Pending::Running { count } => BootAction::Finished { count: *count },
            Pending::Halted(fatal) => BootAction::Park(*fatal),
        }
    }

    /// What is due once a transaction that reports nothing was performed.
    fn completed(self) -> (r: Pending)
        ensures
            r == self.spec_completed(),
    {
        match self {
            Pending::WriteA20 { .. } => Pending::ProbeFlags,
            Pending::NegotiateVideo { count } => Pending::DisableInterrupts { count },
            Pending::DisableInterrupts { count } => Pending::LoadProtectedTable { count },
            Pending::LoadProtectedTable { count } => Pending::EnableProtection { count },
            Pending::EnableProtection { count } => Pending::EnterProtectedStage { count },
            Pending::EnterProtectedStage { count } => Pending::WritePageTables { count },
            Pending::WritePageTables { count } => Pending::EnablePae { count },
            Pending::EnablePae { count } => Pending::EnableLongMode { count },
            Pending::EnableLongMode { count } => Pending::EnablePaging { count },
            Pending::EnablePaging { count } => Pending::LoadLongTable { count },
            Pending::LoadLongTable { count } => Pending::EnterLongStage { count },
            Pending::EnterLongStage { count } => Pending::Running { count },
            _ => Pending::Halted(Fatal::UnexpectedEvent),
        }
    }

    /// Takes the outcome of the pending transaction and says what is due
    /// next.
    pub fn step(self, event: &BootEvent) -> (r: Pending)
        ensures
            r == self.spec_step(*event),
    {
        match self {
            Pending::Halted(fatal) => Pending::Halted(fatal),
            Pending::Running { count } => Pending::Running { count },
            Pending::ReadA20 => match event {
                BootEvent::PortRead(value) => match enable_a20(*value) {
                    None => Pending::ProbeFlags,
                    Some(open) => Pending::WriteA20 { value: open },
                },
                _ => Pending::Halted(Fatal::UnexpectedEvent),
            },
            Pending::ProbeFlags => match event {
                BootEvent::FlagsRead { before, after } => {
                    match check_cpuid_support(*before, *after) {
                        Ok(_) => Pending::QueryExtendedLeaves,
                        Err(fatal) => Pending::Halted(fatal),
                    }
                },
                _ => Pending::Halted(Fatal::UnexpectedEvent),
            },
            Pending::QueryExtendedLeaves => match event {
                BootEvent::Cpuid { eax, edx } => {
                    if *eax >= CPUID_EXTENDED_FEATURES {
                        Pending::QueryLongMode
                    } else {
                        Pending::Halted(Fatal::NoExtendedLeaves)
                    }
                },
                _ => Pending::Halted(Fatal::UnexpectedEvent),
            },
            Pending::QueryLongMode => match event {
                BootEvent::Cpuid { eax, edx } => {
                    if *edx & LONG_MODE_FEATURE != 0 {
                        Pending::QueryMemory(MemoryScan::start())
                    } else {
                        Pending::Halted(Fatal::NoLongMode)
                    }
                },
                _ => Pending::Halted(Fatal::UnexpectedEvent),
            },
            Pending::QueryMemory(scan) => match event {
                BootEvent::MemoryMap(response) => match scan.advance(response) {
                    ScanStep::Query(next) => Pending::QueryMemory(next),
                    ScanStep::Done { count } => Pending::NegotiateVideo { count },
                    ScanStep::Fatal(error) => Pending::Halted(Fatal::MemoryMap(error)),
                },
                _ => Pending::Halted(Fatal::UnexpectedEvent),
            },
            other => match event {
                BootEvent::Completed => other.completed(),
                _ => Pending::Halted(Fatal::UnexpectedEvent),
            },
        }
    }
}

/// Where the engine gets to from `pending` when it is given the outcomes
/// `events` in order.
pub open spec fn run(pending: Pending, events: Seq<BootEvent>) -> Pending
    decreases events.len(),
{
    if events.len() == 0 {
        pending
    } else {
        run(pending.spec_step(events[0]), events.drop_first())
    }
}

/// Drives the engine from reset through a recorded sequence of outcomes.
pub fn replay_boot(events: &Vec<BootEvent>) -> (r: Pending)
    ensures
        r == run(Pending::ReadA20, events@),
{
    let mut pending: Pending = Pending::start();
    let mut i: usize = 0;
    assert(events@.skip(0) =~= events@);
    while i < events.len()
        invariant
            i <= events.len(),
            run(Pending::ReadA20, events@) == run(pending, events@.skip(i as int)),
        decreases events.len() - i,
    {
        proof {
            let rest = events@.skip(i as int);
            assert(rest[0] == events@[i as int]);
            assert(rest.drop_first() =~= events@.skip(i + 1));
        }
        pending = pending.step(&events[i]);
        i += 1;
    }
    pending
}

/// The stages are entered where the disk layout places them, and the
/// selectors used on the way name the code and data descriptors of a table.
pub proof fn lemma_entries_match_layout()
    ensures
        PROTECTED_MODE_ENTRY == spec_stage_start(2),
        LONG_MODE_ENTRY == spec_stage_start(3),
        CODE_SELECTOR == 1 * DESCRIPTOR_SIZE,
        DATA_SELECTOR == 2 * DESCRIPTOR_SIZE,
{
}

/// `Halt` is terminal, and so is long mode: no outcome leads out of either.
pub proof fn lemma_terminal_states(pending: Pending, event: BootEvent)
    ensures
        pending.spec_state() == BootState::Halt ==> pending.spec_step(event) == pending,
        pending.spec_state() == BootState::LongMode ==> pending.spec_step(event) == pending,
{
}

/// `Halt` can be reached from every state before long mode: some outcome of
/// the pending transaction parks the processor.
pub proof fn lemma_halt_is_reachable(pending: Pending)
    requires
        pending.spec_state() != BootState::LongMode,
    ensures
        exists|event: BootEvent|
            (#[trigger] pending.spec_step(event)).spec_state() == BootState::Halt,
{
    let wrong = match pending {
        Pending::ReadA20 => BootEvent::Completed,
        _ => BootEvent::PortRead(0),
    };
    assert(pending.spec_step(wrong).spec_state() == BootState::Halt);
}

/// Control flows strictly forward: one step leaves the operating state as it
/// is, moves it to the very next one, or ends in `Halt`. No state is skipped
/// and none is entered again.
pub proof fn lemma_forward_only(pending: Pending, event: BootEvent)
    ensures
        ({
            let before = pending.spec_state();
            let after = pending.spec_step(event).spec_state();
            after == before || after.rank() == before.rank() + 1 || after == BootState::Halt
        }),
{
}

/// Over any sequence of outcomes the operating state never moves backwards.
pub proof fn lemma_run_monotonic(pending: Pending, events: Seq<BootEvent>)
    ensures
        pending.spec_state().rank() <= run(pending, events).spec_state().rank(),
    decreases events.len(),
{
    if events.len() > 0 {
        lemma_forward_only(pending, events[0]);
        lemma_run_monotonic(pending.spec_step(events[0]), events.drop_first());
    }
}

/// No transaction becomes due by a shortcut. CPUID is asked only after the
/// flags probe found it; the feature leaf only after the extended leaves were
/// found; memory is enumerated only after long mode was found; video is
/// negotiated only with the count of a finished enumeration; and each switch
/// after that becomes due only when the one before it was performed:
/// interrupts off, protected-mode table, protection bit, jump to 32-bit code,
/// page tables, address-extension bit, long-mode bit, paging bit, long-mode
/// table, jump to 64-bit code.
pub proof fn lemma_gates(pending: Pending, event: BootEvent)
    requires
        pending.spec_step(event) != pending,
    ensures
        match pending.spec_step(event) {
            Pending::ReadA20 => false,
            Pending::WriteA20 { value } => {
                &&& pending == Pending::ReadA20
                &&& event matches BootEvent::PortRead(read)
                &&& !a20_enabled(read)
                &&& value == a20_open_value(read)
            },
            Pending::ProbeFlags => {
                ||| pending is WriteA20 && event == BootEvent::Completed
                ||| {
                    &&& pending == Pending::ReadA20
                    &&& event matches BootEvent::PortRead(read)
                    &&& a20_enabled(read)
                }
            },
            Pending::QueryExtendedLeaves => {
                &&& pending == Pending::ProbeFlags
                &&& event matches BootEvent::FlagsRead { before, after }
                &&& cpuid_present(before, after)
            },
            Pending::QueryLongMode => {
                &&& pending == Pending::QueryExtendedLeaves
                &&& event matches BootEvent::Cpuid { eax, edx }
                &&& eax >= CPUID_EXTENDED_FEATURES
            },
            Pending::QueryMemory(next) => {
                ||| {
                    &&& pending == Pending::QueryLongMode
                    &&& event matches BootEvent::Cpuid { eax, edx }
                    &&& edx & LONG_MODE_FEATURE != 0
                    &&& next.count == 0
                }
                ||| {
                    &&& pending matches Pending::QueryMemory(scan)
                    &&& event matches BootEvent::MemoryMap(response)
                    &&& scan.spec_advance(response) == ScanStep::Query(next)
                }
            },
            Pending::NegotiateVideo { count } => {
                &&& pending matches Pending::QueryMemory(scan)
                &&& event matches BootEvent::MemoryMap(response)
                &&& scan.spec_advance(response) == (ScanStep::Done { count })
            },
            Pending::DisableInterrupts { count } => {
                &&& pending == (Pending::NegotiateVideo { count })
                &&& event == BootEvent::Completed
            },
            Pending::LoadProtectedTable { count } => {
                &&& pending == (Pending::DisableInterrupts { count })
                &&& event == BootEvent::Completed
            },
            Pending::EnableProtection { count } => {
                &&& pending == (Pending::LoadProtectedTable { count })
                &&& event == BootEvent::Completed
            },
            Pending::EnterProtectedStage { count } => {
                &&& pending == (Pending::EnableProtection { count })
                &&& event == BootEvent::Completed
            },
            Pending::WritePageTables { count } => {
                &&& pending == (Pending::EnterProtectedStage { count })
                &&& event == BootEvent::Completed
            },
            Pending::EnablePae { count } => {
                &&& pending == (Pending::WritePageTables { count })
                &&& event == BootEvent::Completed
            },
            Pending::EnableLongMode { count } => {
                &&& pending == (Pending::EnablePae { count })
                &&& event == BootEvent::Completed
            },
            Pending::EnablePaging { count } => {
                &&& pending == (Pending::EnableLongMode { count })
                &&& event == BootEvent::Completed
            },
            Pending::LoadLongTable { count } => {
                &&& pending == (Pending::EnablePaging { count })
                &&& event == BootEvent::Completed
            },
            Pending::EnterLongStage { count } => {
                &&& pending == (Pending::LoadLongTable { count })
                &&& event == BootEvent::Completed
            },
            Pending::Running { count } => {
                &&& pending == (Pending::EnterLongStage { count })
                &&& event == BootEvent::Completed
            },
            Pending::Halted(_) => true,
        },
{
}

/// Every failure is fatal at once: a missing CPUID, missing extended leaves,
/// a missing long-mode bit, a failed memory enumeration and an outcome of the
/// wrong kind each lead to `Halt` in one step, with the reason recorded.
pub proof fn lemma_failures_halt(
    scan: MemoryScan,
    response: E820Response,
    eax: u32,
    edx: u32,
    before: u32,
    after: u32,
)
    ensures
        !cpuid_present(before, after) ==> Pending::ProbeFlags.spec_step(
            BootEvent::FlagsRead { before, after },
        ) == Pending::Halted(Fatal::NoCpuid),
        eax < CPUID_EXTENDED_FEATURES ==> Pending::QueryExtendedLeaves.spec_step(
            BootEvent::Cpuid { eax, edx },
        ) == Pending::Halted(Fatal::NoExtendedLeaves),
        edx & LONG_MODE_FEATURE == 0 ==> Pending::QueryLongMode.spec_step(
            BootEvent::Cpuid { eax, edx },
        ) == Pending::Halted(Fatal::NoLongMode),
        scan.spec_advance(response) matches ScanStep::Fatal(error) ==> Pending::QueryMemory(
            scan,
        ).spec_step(BootEvent::MemoryMap(response)) == Pending::Halted(Fatal::MemoryMap(error)),
{
}

/// The number of memory-map records, once the enumeration has ended with it,
/// is handed on unchanged through every later step, and it is the number the
/// jumps into the 32-bit and the 64-bit stage pass.
pub proof fn lemma_count_is_threaded(pending: Pending, event: BootEvent)
    ensures
        pending matches Pending::QueryMemory(scan) ==> (event matches BootEvent::MemoryMap(
            response,
        ) ==> (scan.spec_advance(response) matches ScanStep::Done { count } ==> pending.spec_step(
            event,
        ).spec_count() == Some(count))),
        pending.spec_count() matches Some(count) ==> {
            ||| pending.spec_step(event).spec_count() == Some(count)
            ||| pending.spec_step(event) == Pending::Halted(Fatal::UnexpectedEvent)
        },
        pending.spec_action() matches BootAction::FarJump { count, .. } ==> pending.spec_count()
            == Some(count),
        pending.spec_action() matches BootAction::Finished { count } ==> pending.spec_count()
            == Some(count),
{
}

} // verus!
