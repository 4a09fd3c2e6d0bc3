use bootloader::memory_map::{
    detect_memory, read_memory_map, E820Response, MemoryMapEntry, MemoryScan, ScanError, ScanStep,
};

fn record(continuation: u32) -> E820Response {
    E820Response { carry: false, eax: 0x534d_4150, ebx: continuation, ecx: 20 }
}

fn firmware(n: usize) -> Vec<E820Response> {
    let mut answers = Vec::new();
    for i in 0..n {
        answers.push(record(if i + 1 == n { 0 } else { i as u32 + 1 }));
    }
    answers
}

#[test]
fn counts_every_record_of_a_finite_map() {
    for n in [1usize, 2, 7, 100, 255, 256] {
        assert_eq!(detect_memory(&firmware(n)), ScanStep::Done { count: n as u16 });
    }
}

#[test]
fn answers_after_the_last_record_are_ignored() {
    let mut answers = firmware(7);
    answers.push(E820Response { carry: true, eax: 0, ebx: 9, ecx: 0 });
    assert_eq!(detect_memory(&answers), ScanStep::Done { count: 7 });
}

#[test]
fn endless_firmware_trips_the_cap() {
    let answers = vec![record(1); 256];
    assert_eq!(detect_memory(&answers), ScanStep::Fatal(ScanError::Unterminated));
    let answers = vec![record(5); 1000];
    assert_eq!(detect_memory(&answers), ScanStep::Fatal(ScanError::Unterminated));
    let mut answers = vec![record(1); 256];
    answers.push(record(0));
    assert_eq!(detect_memory(&answers), ScanStep::Fatal(ScanError::Unterminated));
}

#[test]
fn unfinished_script_leaves_a_call_due() {
    assert_eq!(
        detect_memory(&Vec::new()),
        ScanStep::Query(MemoryScan { count: 0, continuation: 0 })
    );
    let answers = vec![record(0x11), record(0x22), record(0x33)];
    assert_eq!(
        detect_memory(&answers),
        ScanStep::Query(MemoryScan { count: 3, continuation: 0x33 })
    );
    let answers = vec![record(9); 255];
    assert_eq!(
        detect_memory(&answers),
        ScanStep::Query(MemoryScan { count: 255, continuation: 9 })
    );
}

#[test]
fn protocol_violations_are_fatal() {
    let bad_magic = E820Response { carry: false, eax: 0x534d_4151, ebx: 1, ecx: 20 };
    let bad_length = E820Response { carry: false, eax: 0x534d_4150, ebx: 1, ecx: 24 };
    let failed = E820Response { carry: true, eax: 0x534d_4150, ebx: 1, ecx: 20 };
    assert_eq!(
        detect_memory(&vec![record(1), bad_magic]),
        ScanStep::Fatal(ScanError::BadSignature)
    );
    assert_eq!(
        detect_memory(&vec![record(1), bad_length, record(0)]),
        ScanStep::Fatal(ScanError::BadLength)
    );
    assert_eq!(detect_memory(&vec![failed]), ScanStep::Fatal(ScanError::CallFailed));
    let both = E820Response { carry: false, eax: 0, ebx: 0, ecx: 0 };
    assert_eq!(detect_memory(&vec![both]), ScanStep::Fatal(ScanError::BadSignature));
    let ended_badly = E820Response { carry: false, eax: 0x534d_4150, ebx: 0, ecx: 19 };
    assert_eq!(detect_memory(&vec![ended_badly]), ScanStep::Fatal(ScanError::BadLength));
}

#[test]
fn requests_walk_through_the_buffer() {
    let scan = MemoryScan::start();
    let request = scan.request();
    assert_eq!(request.eax, 0xE820);
    assert_eq!(request.ebx, 0);
    assert_eq!(request.ecx, 24);
    assert_eq!(request.edx, 0x534d_4150);
    assert_eq!(request.di, 0x6000);
    let next = match scan.advance(&record(0xABCD)) {
        ScanStep::Query(next) => next,
        other => panic!("{:?}", other),
    };
    let request = next.request();
    assert_eq!(request.ebx, 0xABCD);
    assert_eq!(request.di, 0x6000 + 24);
    let late = MemoryScan { count: 255, continuation: 3 };
    assert_eq!(late.request().di, 0x6000 + 24 * 255);
    assert_eq!(late.advance(&record(0)), ScanStep::Done { count: 256 });
    assert_eq!(late.advance(&record(4)), ScanStep::Fatal(ScanError::Unterminated));
}

#[test]
fn records_are_read_from_the_buffer() {
    let mut buffer = vec![0u8; 48];
    buffer[0..8].copy_from_slice(&0x0000_0001_0000_0000u64.to_le_bytes());
    buffer[8..16].copy_from_slice(&0x9FC00u64.to_le_bytes());
    buffer[16..20].copy_from_slice(&1u32.to_le_bytes());
    buffer[20..24].copy_from_slice(&0xDEAD_BEEFu32.to_le_bytes());
    buffer[24..32].copy_from_slice(&0x1122_3344_5566_7788u64.to_le_bytes());
    buffer[32..40].copy_from_slice(&0x8000u64.to_le_bytes());
    buffer[40..44].copy_from_slice(&2u32.to_le_bytes());
    let entries = read_memory_map(&buffer, 2).unwrap();
    assert_eq!(
        entries,
        vec![
            MemoryMapEntry {
                base_address: 0x0000_0001_0000_0000,
                length: 0x9FC00,
                region_type: 1,
                attributes: 0xDEAD_BEEF,
            },
            MemoryMapEntry {
                base_address: 0x1122_3344_5566_7788,
                length: 0x8000,
                region_type: 2,
                attributes: 0,
            },
        ]
    );
    assert_eq!(read_memory_map(&buffer, 1).unwrap().len(), 1);
    assert_eq!(read_memory_map(&buffer, 0).unwrap().len(), 0);
    assert!(read_memory_map(&buffer, 3).is_none());
    assert!(read_memory_map(&buffer[..47], 2).is_none());
}

#[test]
fn scan_within_the_cap_is_well_formed() {
    assert!(MemoryScan::start().is_wf());
    assert!(MemoryScan { count: 255, continuation: 1 }.is_wf());
    assert!(!MemoryScan { count: 256, continuation: 1 }.is_wf());
    let beyond = MemoryScan { count: 65535, continuation: 1 };
    assert_eq!(beyond.advance(&record(1)), ScanStep::Fatal(ScanError::Unterminated));
}
