//! Enumeration of physical memory through the firmware's E820 service.
//!
//! The firmware is asked again and again, each time with the continuation
//! handle of the previous answer. The caller performs the calls; this module
//! decides, from each answer, what the next call is or how the enumeration
//! ended.

use vstd::prelude::*;
use crate::bytes::{le32, le64, read32, read64};

verus! {

/// Function number of the service.
pub const E820_FUNCTION: u32 = 0xE820;

/// Signature the firmware echoes in every valid answer ("SMAP").
pub const E820_MAGIC: u32 = 0x534d_4150;

/// Bytes offered to the firmware for one record.
pub const ENTRY_SIZE: u16 = 24;

/// Bytes the firmware must report to have written.
pub const REPORTED_SIZE: u32 = 20;

/// The most calls made before the enumeration is given up.
pub const MAX_ENTRIES: u16 = 256;

/// Real-mode offset of the buffer that receives the records.
pub const BUFFER_START: u16 = 0x6000;

/// Registers to load for one call of the service.
#[derive(Clone, Copy, Debug, PartialEq, Eq, Structural)]
pub struct E820Request {
    pub eax: u32,
    pub ebx: u32,
    pub ecx: u32,
    pub edx: u32,
    pub di: u16,
}

/// Registers and carry flag after one call of the service.
#[derive(Clone, Copy, Debug, PartialEq, Eq, Structural)]
pub struct E820Response {
    pub carry: bool,
    pub eax: u32,
    pub ebx: u32,
    pub ecx: u32,
}

/// Why an enumeration was given up.
#[derive(Clone, Copy, Debug, PartialEq, Eq, Structural)]
pub enum ScanError {
    /// The firmware signalled failure through the carry flag.
    CallFailed,
    /// The answer did not carry the signature.
    BadSignature,
    /// The answer did not report exactly 20 bytes.
    BadLength,
    /// The firmware never announced the last record.
    Unterminated,
}

/// An enumeration under way.
#[derive(Clone, Copy, Debug, PartialEq, Eq, Structural)]
pub struct MemoryScan {
    /// Records received so far.
    pub count: u16,
    /// Continuation handle for the next call.
    pub continuation: u32,
}

/// Where an enumeration stands after an answer.
#[derive(Clone, Copy, Debug, PartialEq, Eq, Structural)]
pub enum ScanStep {
    /// Another call is due.
    Query(MemoryScan),
    /// The firmware announced the last record; `count` records were received.
    Done { count: u16 },
    /// The enumeration failed.
    Fatal(ScanError),
}

impl E820Response {
    /// An answer that delivers a record: carry clear, signature present,
    /// 20 bytes reported.
    pub open spec fn delivers(self) -> bool {
        !self.carry && self.eax == E820_MAGIC && self.ecx == REPORTED_SIZE
    }
}

impl MemoryScan {
    /// The scan is within its cap, so its next record has room in the buffer.
    pub open spec fn wf(self) -> bool {
        self.count < MAX_ENTRIES
    }

    /// What the answer `response` leads to.
    pub open spec fn spec_advance(self, response: E820Response) -> ScanStep {
        if response.carry {
            ScanStep::Fatal(ScanError::CallFailed)
        } else if response.eax != E820_MAGIC {
            ScanStep::Fatal(ScanError::BadSignature)
        } else if response.ecx != REPORTED_SIZE {
            ScanStep::Fatal(ScanError::BadLength)
        } else if response.ebx == 0 {
            ScanStep::Done { count: (self.count + 1) as u16 }
        } else if self.count + 1 >= MAX_ENTRIES {
            ScanStep::Fatal(ScanError::Unterminated)
        } else {
            ScanStep::Query(
                MemoryScan { count: (self.count + 1) as u16, continuation: response.ebx },
            )
        }
    }

    /// Decides [`MemoryScan::wf`].
    pub fn is_wf(&self) -> (r: bool)
        ensures
            r == self.wf(),
    {
        self.count < MAX_ENTRIES
    }

    /// The scan before the first call.
    pub fn start() -> (r: MemoryScan)
        ensures
            r == (MemoryScan { count: 0, continuation: 0 }),
            r.wf(),
    {
        MemoryScan { count: 0, continuation: 0 }
    }

    /// The registers for the next call: the record goes to the first free
    /// slot of the buffer.
    pub fn request(&self) -> (r: E820Request)
        requires
            self.wf(),
        ensures
            r.eax == E820_FUNCTION,
            r.ebx == self.continuation,
            r.ecx == ENTRY_SIZE,
            r.edx == E820_MAGIC,
            r.di == BUFFER_START + ENTRY_SIZE * self.count,
    {
        E820Request {
            eax: E820_FUNCTION,
            ebx: self.continuation,
            ecx: ENTRY_SIZE as u32,
            edx: E820_MAGIC,
            di: BUFFER_START + ENTRY_SIZE * self.count,
        }
    }

    /// Takes the answer to the call that [`MemoryScan::request`] described.
    pub fn advance(self, response: &E820Response) -> (r: ScanStep)
        ensures
            r == self.spec_advance(*response),
            r matches ScanStep::Query(next) ==> next.wf(),
            self.wf() ==> (r matches ScanStep::Done { count } ==> 1 <= count <= MAX_ENTRIES),
    {
        let received: u32 = self.count as u32 + 1;
        if response.carry {
            ScanStep::Fatal(ScanError::CallFailed)
        } else if response.eax != E820_MAGIC {
            ScanStep::Fatal(ScanError::BadSignature)
        } else if response.ecx != REPORTED_SIZE {
            ScanStep::Fatal(ScanError::BadLength)
        } else if response.ebx == 0 {
            ScanStep::Done { count: received as u16 }
        } else if received >= MAX_ENTRIES as u32 {
            ScanStep::Fatal(ScanError::Unterminated)
        } else {
            ScanStep::Query(MemoryScan { count: received as u16, continuation: response.ebx })
        }
    }
}

/// Where an enumeration that stands at `step` gets to when it is given the
/// answers `responses` in order. Answers after its end are not looked at.
pub open spec fn replay(step: ScanStep, responses: Seq<E820Response>) -> ScanStep
    decreases responses.len(),
{
    if responses.len() == 0 {
        step
    } else {
        match step {
            ScanStep::Query(scan) => replay(
                scan.spec_advance(responses[0]),
                responses.drop_first(),
            ),
            _ => step,
        }
    }
}

/// Runs a whole enumeration against the answers of a firmware, given in the
/// order in which it gives them.
pub fn detect_memory(responses: &Vec<E820Response>) -> (r: ScanStep)
    ensures
        r == replay(ScanStep::Query(MemoryScan { count: 0, continuation: 0 }), responses@),
        r matches ScanStep::Query(next) ==> next.wf() && next.count == responses.len(),
        r matches ScanStep::Done { count } ==> 1 <= count <= MAX_ENTRIES && count
            <= responses.len(),
{
    let mut scan: MemoryScan = MemoryScan::start();
    let mut i: usize = 0;
    assert(responses@.skip(0) =~= responses@);
    while i < responses.len()
        invariant
            i <= responses.len(),
            scan.wf(),
            scan.count == i,
            replay(ScanStep::Query(MemoryScan { count: 0, continuation: 0 }), responses@) == replay(
                ScanStep::Query(scan),
                responses@.skip(i as int),
            ),
        decreases responses.len() - i,
    {
        let step: ScanStep = scan.advance(&responses[i]);
        proof {
            let rest = responses@.skip(i as int);
            assert(rest[0] == responses@[i as int]);
            assert(rest.drop_first() =~= responses@.skip(i + 1));
        }
        match step {
            ScanStep::Query(next) => {
                scan = next;
            },
            _ => {
                proof {
                    lemma_replay_ended(step, responses@.skip(i + 1));
                }
                return step;
            },
        }
        i += 1;
    }
    assert(responses@.skip(i as int).len() == 0);
    ScanStep::Query(scan)
}

/// Every answer that leaves another call due counts one record more, and the
/// count stays below the cap: an enumeration makes at most as many calls as
/// the cap allows, whatever the firmware answers.
pub proof fn lemma_scan_progress(scan: MemoryScan, response: E820Response)
    requires
        scan.spec_advance(response) is Query,
    ensures
        scan.spec_advance(response)->Query_0.count == scan.count + 1,
        scan.spec_advance(response)->Query_0.count < MAX_ENTRIES,
        scan.spec_advance(response)->Query_0.continuation == response.ebx,
{
}

/// An enumeration that has ended stays where it is.
pub proof fn lemma_replay_ended(step: ScanStep, responses: Seq<E820Response>)
    requires
        !(step is Query),
    ensures
        replay(step, responses) == step,
{
}

/// A firmware that delivers `n` records, announcing the last one with a zero
/// continuation handle and no earlier one, is counted exactly: the result is
/// `n`, for every `n` from 1 to the cap.
pub proof fn lemma_counts_every_record(responses: Seq<E820Response>)
    requires
        1 <= responses.len() <= MAX_ENTRIES,
        forall|i: int| 0 <= i < responses.len() ==> (#[trigger] responses[i]).delivers(),
        forall|i: int| 0 <= i < responses.len() - 1 ==> (#[trigger] responses[i]).ebx != 0,
        responses.last().ebx == 0,
    ensures
        replay(ScanStep::Query(MemoryScan { count: 0, continuation: 0 }), responses)
            == (ScanStep::Done { count: responses.len() as u16 }),
{
    lemma_counts_from(MemoryScan { count: 0, continuation: 0 }, responses);
}

proof fn lemma_counts_from(scan: MemoryScan, responses: Seq<E820Response>)
    requires
        1 <= responses.len(),
        scan.count + responses.len() <= MAX_ENTRIES,
        forall|i: int| 0 <= i < responses.len() ==> (#[trigger] responses[i]).delivers(),
        forall|i: int| 0 <= i < responses.len() - 1 ==> (#[trigger] responses[i]).ebx != 0,
        responses.last().ebx == 0,
    ensures
        replay(ScanStep::Query(scan), responses) == (ScanStep::Done {
            count: (scan.count + responses.len()) as u16,
        }),
    decreases responses.len(),
{
    let rest = responses.drop_first();
    assert(responses[0].delivers());
    if responses.len() == 1 {
        assert(responses.last() == responses[0]);
        assert(replay(scan.spec_advance(responses[0]), rest) == scan.spec_advance(responses[0]));
    } else {
        let next = MemoryScan { count: (scan.count + 1) as u16, continuation: responses[0].ebx };
        assert(scan.spec_advance(responses[0]) == ScanStep::Query(next));
        assert forall|i: int| 0 <= i < rest.len() implies (#[trigger] rest[i]).delivers() by {
            assert(rest[i] == responses[i + 1]);
        }
        assert forall|i: int| 0 <= i < rest.len() - 1 implies (#[trigger] rest[i]).ebx != 0 by {
            assert(rest[i] == responses[i + 1]);
        }
        assert(rest.last() == responses.last());
        lemma_counts_from(next, rest);
    }
}

/// A firmware that never announces the last record is given up at the cap:
/// once it has delivered as many records as the cap allows, each with a
/// nonzero continuation handle, the enumeration has failed, whatever follows.
pub proof fn lemma_cap_stops_endless_firmware(responses: Seq<E820Response>)
    requires
        responses.len() >= MAX_ENTRIES,
        forall|i: int| 0 <= i < MAX_ENTRIES ==> (#[trigger] responses[i]).delivers(),
        forall|i: int| 0 <= i < MAX_ENTRIES ==> (#[trigger] responses[i]).ebx != 0,
    ensures
        replay(ScanStep::Query(MemoryScan { count: 0, continuation: 0 }), responses)
            == ScanStep::Fatal(ScanError::Unterminated),
{
    lemma_cap_from(MemoryScan { count: 0, continuation: 0 }, responses);
}

proof fn lemma_cap_from(scan: MemoryScan, responses: Seq<E820Response>)
    requires
        scan.count < MAX_ENTRIES,
        responses.len() >= MAX_ENTRIES - scan.count,
        forall|i: int| 0 <= i < MAX_ENTRIES - scan.count ==> (#[trigger] responses[i]).delivers(),
        forall|i: int| 0 <= i < MAX_ENTRIES - scan.count ==> (#[trigger] responses[i]).ebx != 0,
    ensures
        replay(ScanStep::Query(scan), responses) == ScanStep::Fatal(ScanError::Unterminated),
    decreases MAX_ENTRIES - scan.count,
{
    let rest = responses.drop_first();
    assert(responses[0].delivers() && responses[0].ebx != 0);
    if scan.count + 1 >= MAX_ENTRIES {
        lemma_replay_ended(ScanStep::Fatal(ScanError::Unterminated), rest);
    } else {
        let next = MemoryScan { count: (scan.count + 1) as u16, continuation: responses[0].ebx };
        assert forall|i: int| 0 <= i < MAX_ENTRIES - next.count implies (#[trigger] rest[
            i
        ]).delivers() && rest[i].ebx != 0 by {
            assert(rest[i] == responses[i + 1]);
        }
        lemma_cap_from(next, rest);
    }
}

/// Every record of an enumeration that stayed within the cap lies inside the
/// buffer, which ends before the boot image begins.
pub proof fn lemma_records_fit_buffer(count: int)
    requires
        0 <= count <= MAX_ENTRIES,
    ensures
        BUFFER_START + ENTRY_SIZE * count <= 0x7800,
        0x7800 < 0x7c00,
{
}

/// One record of the memory map.
#[derive(Clone, Copy, Debug, PartialEq, Eq, Structural)]
pub struct MemoryMapEntry {
    /// Bytes 0 to 7: first address of the region.
    pub base_address: u64,
    /// Bytes 8 to 15: length of the region in bytes.
    pub length: u64,
    /// Bytes 16 to 19: kind of the region.
    pub region_type: u32,
    /// Bytes 20 to 23: extended attributes.
    pub attributes: u32,
}

impl MemoryMapEntry {
    /// The record held in the 24 bytes from offset `at`.
    pub open spec fn parse(bytes: Seq<u8>, at: int) -> MemoryMapEntry {
        MemoryMapEntry {
            base_address: le64(bytes, at),
            length: le64(bytes, at + 8),
            region_type: le32(bytes, at + 16),
            attributes: le32(bytes, at + 20),
        }
    }
}

/// Reads the first `count` records from the buffer that the enumeration
/// filled. There is a result exactly when the buffer holds that many.
pub fn read_memory_map(buffer: &[u8], count: u16) -> (r: Option<Vec<MemoryMapEntry>>)
    ensures
        r.is_some() == (buffer@.len() >= ENTRY_SIZE * count),
        r matches Some(entries) ==> {
            &&& entries@.len() == count
            &&& forall|i: int|
                0 <= i < count ==> #[trigger] entries@[i] == MemoryMapEntry::parse(buffer@, 24 * i)
        },
{
    if buffer.len() < ENTRY_SIZE as usize * count as usize {
        return None;
    }
    let mut entries: Vec<MemoryMapEntry> = Vec::new();
    let mut i: usize = 0;
    while i < count as usize
        invariant
            i <= count,
            buffer@.len() >= 24 * count,
            entries@.len() == i,
            forall|k: int|
                0 <= k < i ==> #[trigger] entries@[k] == MemoryMapEntry::parse(buffer@, 24 * k),
        decreases count - i,
    {
        let at: usize = 24 * i;
        entries.push(
            MemoryMapEntry {
                base_address: read64(buffer, at),
                length: read64(buffer, at + 8),
                region_type: read32(buffer, at + 16),
                attributes: read32(buffer, at + 20),
            },
        );
        i += 1;
    }
    Some(entries)
}

} // verus!
