use bootloader::boot::{
    check_cpuid_support, check_long_mode_support, replay_boot, BootAction, BootEvent, BootState,
    ControlRegister, Fatal, Pending,
};
use bootloader::gdt::Gdt;
use bootloader::memory_map::{E820Request, E820Response, MemoryScan, ScanError};

fn map_answer(continuation: u32) -> BootEvent {
    BootEvent::MemoryMap(E820Response {
        carry: false,
        eax: 0x534d_4150,
        ebx: continuation,
        ecx: 20,
    })
}

fn capable_machine(records: u32) -> Vec<BootEvent> {
    let mut events = vec![
        BootEvent::PortRead(0x00),
        BootEvent::Completed,
        BootEvent::FlagsRead { before: 0x0000_0002, after: 0x0020_0002 },
        BootEvent::Cpuid { eax: 0x8000_0008, edx: 0 },
        BootEvent::Cpuid { eax: 0, edx: 0x2000_0000 },
    ];
    for i in 0..records {
        events.push(map_answer(if i + 1 == records { 0 } else { i + 1 }));
    }
    events
}

#[test]
fn boots_to_long_mode_and_threads_the_count() {
    let mut events = capable_machine(7);
    assert_eq!(replay_boot(&events), Pending::NegotiateVideo { count: 7 });
    events.extend([BootEvent::Completed; 11]);
    let end = replay_boot(&events);
    assert_eq!(end, Pending::Running { count: 7 });
    assert_eq!(end.state(), BootState::LongMode);
    assert_eq!(end.action(), BootAction::Finished { count: 7 });
}

#[test]
fn passes_through_every_state_in_order() {
    let mut events = capable_machine(2);
    events.extend([BootEvent::Completed; 11]);
    let mut pending = Pending::start();
    let mut seen = vec![pending.state()];
    for event in &events {
        pending = pending.step(event);
        if *seen.last().unwrap() != pending.state() {
            seen.push(pending.state());
        }
    }
    assert_eq!(
        seen,
        vec![
            BootState::RealMode,
            BootState::A20Enabled,
            BootState::FeatureChecked,
            BootState::MemoryEnumerated,
            BootState::ProtectedMode,
            BootState::PagingConfigured,
            BootState::LongModeCompat,
            BootState::LongMode,
        ]
    );
}

#[test]
fn privileged_steps_come_in_their_order() {
    let mut pending = Pending::NegotiateVideo { count: 3 };
    let mut actions = Vec::new();
    while pending.state() != BootState::LongMode {
        actions.push(pending.action());
        pending = pending.step(&BootEvent::Completed);
    }
    let jump = |entry: u32| BootAction::FarJump {
        code_selector: 0x08,
        data_selector: 0x10,
        entry,
        count: 3,
    };
    let set = |register: ControlRegister, bits: u32| BootAction::SetControlBits { register, bits };
    let load = |table: Gdt| BootAction::LoadTable {
        table,
        table_address: 0x5010,
        pointer_address: 0x5000,
    };
    assert_eq!(
        actions,
        vec![
            BootAction::NegotiateVideo,
            BootAction::DisableInterrupts,
            load(Gdt::protected_mode()),
            set(ControlRegister::Cr0, 1),
            jump(0x7c00 + 0x600),
            BootAction::WritePageTables { pml4t: 0x1000, pdpt: 0x2000, pdt: 0x3000, pt: 0x4000 },
            set(ControlRegister::Cr4, 1 << 5),
            set(ControlRegister::Efer, 1 << 8),
            set(ControlRegister::Cr0, 1 << 31),
            load(Gdt::long_mode()),
            jump(0x7c00 + 19 * 512),
        ]
    );
    assert_eq!(pending, Pending::Running { count: 3 });
    assert_eq!(Pending::resume_protected(3), Pending::WritePageTables { count: 3 });
}

#[test]
fn actions_carry_what_the_driver_needs() {
    assert_eq!(Pending::ReadA20.action(), BootAction::ReadPort { port: 0x92 });
    assert_eq!(
        Pending::WriteA20 { value: 0x02 }.action(),
        BootAction::WritePort { port: 0x92, value: 0x02 }
    );
    assert_eq!(Pending::ProbeFlags.action(), BootAction::ProbeFlags { toggle: 1 << 21 });
    assert_eq!(Pending::QueryExtendedLeaves.action(), BootAction::Cpuid { leaf: 0x8000_0000 });
    assert_eq!(Pending::QueryLongMode.action(), BootAction::Cpuid { leaf: 0x8000_0001 });
    assert_eq!(
        Pending::QueryMemory(MemoryScan { count: 2, continuation: 0x77 }).action(),
        BootAction::QueryMemoryMap(E820Request {
            eax: 0xE820,
            ebx: 0x77,
            ecx: 24,
            edx: 0x534d_4150,
            di: 0x6000 + 48,
        })
    );
    assert_eq!(Pending::Halted(Fatal::NoCpuid).action(), BootAction::Park(Fatal::NoCpuid));
    assert_eq!(
        Pending::QueryMemory(MemoryScan { count: 256, continuation: 1 }).action(),
        BootAction::Park(Fatal::MemoryMap(ScanError::Unterminated))
    );
}

#[test]
fn open_a20_line_is_left_alone() {
    assert_eq!(Pending::ReadA20.step(&BootEvent::PortRead(0x02)), Pending::ProbeFlags);
    assert_eq!(Pending::ReadA20.step(&BootEvent::PortRead(0xFF)), Pending::ProbeFlags);
    assert_eq!(
        Pending::ReadA20.step(&BootEvent::PortRead(0x01)),
        Pending::WriteA20 { value: 0x02 }
    );
    assert_eq!(
        Pending::ReadA20.step(&BootEvent::PortRead(0xFD)),
        Pending::WriteA20 { value: 0xFE }
    );
    assert_eq!(
        Pending::WriteA20 { value: 0x02 }.step(&BootEvent::Completed),
        Pending::ProbeFlags
    );
}

#[test]
fn missing_capabilities_halt() {
    let stuck = BootEvent::FlagsRead { before: 0x2, after: 0x2 };
    assert_eq!(Pending::ProbeFlags.step(&stuck), Pending::Halted(Fatal::NoCpuid));
    let no_leaves = BootEvent::Cpuid { eax: 0x8000_0000, edx: 0xFFFF_FFFF };
    assert_eq!(
        Pending::QueryExtendedLeaves.step(&no_leaves),
        Pending::Halted(Fatal::NoExtendedLeaves)
    );
    let old_cpu = BootEvent::Cpuid { eax: 0x0000_0005, edx: 0 };
    assert_eq!(
        Pending::QueryExtendedLeaves.step(&old_cpu),
        Pending::Halted(Fatal::NoExtendedLeaves)
    );
    let no_long_mode = BootEvent::Cpuid { eax: 0, edx: !0x2000_0000 };
    assert_eq!(Pending::QueryLongMode.step(&no_long_mode), Pending::Halted(Fatal::NoLongMode));
    assert_eq!(Pending::Halted(Fatal::NoLongMode).state(), BootState::Halt);
}

#[test]
fn failed_enumeration_halts() {
    let mut events = capable_machine(1);
    events.pop();
    events.push(BootEvent::MemoryMap(E820Response { carry: false, eax: 7, ebx: 0, ecx: 20 }));
    assert_eq!(
        replay_boot(&events),
        Pending::Halted(Fatal::MemoryMap(ScanError::BadSignature))
    );
    let mut events = capable_machine(1);
    events.pop();
    for _ in 0..256 {
        events.push(map_answer(1));
    }
    assert_eq!(
        replay_boot(&events),
        Pending::Halted(Fatal::MemoryMap(ScanError::Unterminated))
    );
}

#[test]
fn halt_and_long_mode_are_terminal() {
    let events = [
        BootEvent::PortRead(2),
        BootEvent::FlagsRead { before: 0, after: 1 << 21 },
        BootEvent::Cpuid { eax: 0x8000_0001, edx: 1 << 29 },
        map_answer(0),
        BootEvent::Completed,
    ];
    for event in &events {
        let halted = Pending::Halted(Fatal::NoCpuid);
        assert_eq!(halted.step(event), halted);
        let running = Pending::Running { count: 3 };
        assert_eq!(running.step(event), running);
    }
}

#[test]
fn outcome_of_the_wrong_kind_halts() {
    let wrong = Pending::Halted(Fatal::UnexpectedEvent);
    assert_eq!(Pending::ReadA20.step(&BootEvent::Completed), wrong);
    assert_eq!(Pending::WriteA20 { value: 2 }.step(&BootEvent::PortRead(2)), wrong);
    assert_eq!(Pending::ProbeFlags.step(&BootEvent::Cpuid { eax: 0, edx: 0 }), wrong);
    assert_eq!(Pending::QueryExtendedLeaves.step(&BootEvent::Completed), wrong);
    assert_eq!(Pending::QueryLongMode.step(&map_answer(0)), wrong);
    assert_eq!(Pending::QueryMemory(MemoryScan::start()).step(&BootEvent::Completed), wrong);
    assert_eq!(Pending::ProbeFlags.step(&BootEvent::Completed), wrong);
    let switches = [
        Pending::NegotiateVideo { count: 1 },
        Pending::DisableInterrupts { count: 1 },
        Pending::LoadProtectedTable { count: 1 },
        Pending::EnableProtection { count: 1 },
        Pending::EnterProtectedStage { count: 1 },
        Pending::WritePageTables { count: 1 },
        Pending::EnablePae { count: 1 },
        Pending::EnableLongMode { count: 1 },
        Pending::EnablePaging { count: 1 },
        Pending::LoadLongTable { count: 1 },
        Pending::EnterLongStage { count: 1 },
    ];
    for pending in switches {
        assert_eq!(pending.step(&map_answer(0)), wrong);
        assert_eq!(pending.step(&BootEvent::PortRead(0)), wrong);
        assert_eq!(pending.step(&BootEvent::Cpuid { eax: 0, edx: 0 }), wrong);
    }
}

#[test]
fn capability_checks_name_what_is_missing() {
    assert_eq!(check_cpuid_support(0, 1 << 21), Ok(()));
    assert_eq!(check_cpuid_support(1 << 21, 0), Ok(()));
    assert_eq!(check_cpuid_support(0x246, 0x246), Err(Fatal::NoCpuid));
    assert_eq!(check_cpuid_support(0x246, 0x247), Err(Fatal::NoCpuid));
    assert_eq!(check_long_mode_support(0x8000_0001, 1 << 29), Ok(()));
    assert_eq!(check_long_mode_support(0x8000_0000, 1 << 29), Err(Fatal::NoExtendedLeaves));
    assert_eq!(check_long_mode_support(0x8000_0008, 0), Err(Fatal::NoLongMode));
    assert_eq!(check_long_mode_support(0, 0), Err(Fatal::NoExtendedLeaves));
}

#[test]
fn fatal_conditions_have_their_texts() {
    assert_eq!(Fatal::NoCpuid.diagnostic(), "CPUID not present");
    assert_eq!(Fatal::NoExtendedLeaves.diagnostic(), "No long mode feature");
    assert_eq!(Fatal::NoLongMode.diagnostic(), "No long mode!");
    assert_eq!(Fatal::MemoryMap(ScanError::CallFailed).diagnostic(), "mem call failed");
    assert_eq!(Fatal::MemoryMap(ScanError::BadSignature).diagnostic(), "bad eax mem");
    assert_eq!(Fatal::MemoryMap(ScanError::BadLength).diagnostic(), "mem offset bad");
    assert_eq!(Fatal::MemoryMap(ScanError::Unterminated).diagnostic(), "mem map has no end");
    assert_eq!(Fatal::UnexpectedEvent.diagnostic(), "unexpected outcome");
}
