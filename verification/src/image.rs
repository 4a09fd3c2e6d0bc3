//! The disk image: the stages one after another, each in its fixed number of
//! sectors, and how the entry stage reads them back.

use vstd::prelude::*;
use crate::teletype::{digits, fail_prefix, fail_rs, print_char, print_dec, requests, CR, LF};
use crate::layout::{
    SECTORS_TO_READ, SECTOR_SIZE, STAGE_0_SECTIONS, STAGE_1_SECTIONS, STAGE_2_SECTIONS,
    STAGE_3_SECTIONS,
};

verus! {

/// Zero bytes that follow the last stage on the disk.
pub const EXTRA_BYTES: usize = 512;

/// Address the entry stage reads the other stages to.
pub const LOAD_ADDRESS: u16 = 0x7e00;

/// Which stage does not have the size its place on the disk demands.
#[derive(Clone, Copy, Debug, PartialEq, Eq, Structural)]
pub enum ImageError {
    /// The entry stage is not exactly one sector.
    EntrySize,
    /// Stage 1 does not fill its sectors exactly.
    Stage1Size,
    /// Stage 2 does not fill its sectors exactly.
    Stage2Size,
    /// Stage 3 does not fill its sectors exactly.
    Stage3Size,
}

/// The first stage, in disk order, whose size is wrong; none if all fit.
pub open spec fn size_fault(boot0: int, boot1: int, boot2: int, boot3: int) -> Option<ImageError> {
    if boot0 != 512 {
        Some(ImageError::EntrySize)
    } else if boot1 != 512 * 2 {
        Some(ImageError::Stage1Size)
    } else if boot2 != 512 * 0x10 {
        Some(ImageError::Stage2Size)
    } else if boot3 != 512 * 0x20 {
        Some(ImageError::Stage3Size)
    } else {
        None
    }
}

/// Checks the sizes in bytes of the four stage binaries against the sectors
/// each is given on the disk.
pub fn assert_sizes(boot0: usize, boot1: usize, boot2: usize, boot3: usize) -> (r: Result<
    (),
    ImageError,
>)
    ensures
        r == (match size_fault(boot0 as int, boot1 as int, boot2 as int, boot3 as int) {
            Some(e) => Err::<(), ImageError>(e),
            None => Ok::<(), ImageError>(()),
        }),
{
    if boot0 != SECTOR_SIZE * STAGE_0_SECTIONS {
        Err(ImageError::EntrySize)
    } else if boot1 != SECTOR_SIZE * STAGE_1_SECTIONS {
        Err(ImageError::Stage1Size)
    } else if boot2 != SECTOR_SIZE * STAGE_2_SECTIONS {
        Err(ImageError::Stage2Size)
    } else if boot3 != SECTOR_SIZE * STAGE_3_SECTIONS {
        Err(ImageError::Stage3Size)
    } else {
        Ok(())
    }
}

/// The entry stage reads every other stage with one request: their sectors
/// are all the sectors but its own, and their number fits the 8-bit count of
/// the read service.
pub proof fn lemma_sector_budget()
    ensures
        STAGE_0_SECTIONS + STAGE_1_SECTIONS + STAGE_2_SECTIONS + STAGE_3_SECTIONS == SECTORS_TO_READ
            + 1,
        STAGE_0_SECTIONS + STAGE_1_SECTIONS + STAGE_2_SECTIONS + STAGE_3_SECTIONS <= u8::MAX,
{
}

fn push_all(out: &mut Vec<u8>, bytes: &[u8])
    ensures
        final(out)@ == old(out)@ + bytes@,
{
    let ghost start = out@;
    let mut i: usize = 0;
    while i < bytes.len()
        invariant
            i <= bytes@.len(),
            out@ == start + bytes@.take(i as int),
        decreases bytes@.len() - i,
    {
        out.push(bytes[i]);
        assert(out@ =~= start + bytes@.take(i + 1));
        i += 1;
    }
    assert(bytes@.take(bytes@.len() as int) =~= bytes@);
}

/// Puts the four stages together into the disk image: the stages in order,
/// then 512 zero bytes. Refused when a stage does not have its size.
pub fn disk_image(boot0: &[u8], boot1: &[u8], boot2: &[u8], boot3: &[u8]) -> (r: Result<
    Vec<u8>,
    ImageError,
>)
    ensures
        match r {
            Ok(image) => size_fault(
                boot0@.len() as int,
                boot1@.len() as int,
                boot2@.len() as int,
                boot3@.len() as int,
            ) is None && image@ == boot0@ + boot1@ + boot2@ + boot3@ + Seq::new(
                512,
                |i: int| 0u8,
            ) && image@.len() == 512 * 52,
            Err(e) => size_fault(
                boot0@.len() as int,
                boot1@.len() as int,
                boot2@.len() as int,
                boot3@.len() as int,
            ) == Some(e),
        },
{
    match assert_sizes(boot0.len(), boot1.len(), boot2.len(), boot3.len()) {
        Err(e) => {
            return Err(e);
        },
        Ok(_) => {},
    }
    let mut image: Vec<u8> = Vec::new();
    push_all(&mut image, boot0);
    push_all(&mut image, boot1);
    push_all(&mut image, boot2);
    push_all(&mut image, boot3);
    let ghost stages = image@;
    let mut i: usize = 0;
    while i < EXTRA_BYTES
        invariant
            i <= 512,
            image@ == stages + Seq::new(i as nat, |k: int| 0u8),
        decreases 512 - i,
    {
        image.push(0);
        assert(image@ =~= stages + Seq::new((i + 1) as nat, |k: int| 0u8));
        i += 1;
    }
    Ok(image)
}

/// Why the entry stage could not read the other stages.
#[derive(Clone, Copy, Debug, PartialEq, Eq, Structural)]
pub enum DiskError {
    /// The firmware does not offer the disk service.
    NoDiskService,
    /// The firmware reported a failed read.
    ReadFailed,
    /// Fewer or more sectors were read than asked for.
    SectorMismatch,
}

impl DiskError {
    /// The code shown after "Fail: " before the processor is parked.
    pub fn diagnostic(&self) -> (r: &'static str)
        ensures
            r@ == (match *self {
                DiskError::NoDiskService => "int13"@,
                DiskError::ReadFailed => "disk read"@,
                DiskError::SectorMismatch => "num sector mismatch"@,
            }),
    {
        match self {
            DiskError::NoDiskService => "int13",
            DiskError::ReadFailed => "disk read",
            DiskError::SectorMismatch => "num sector mismatch",
        }
    }
}

/// Registers for the one read that fetches stages 1 to 3.
#[derive(Clone, Copy, Debug, PartialEq, Eq, Structural)]
pub struct SectorRead {
    /// Number of sectors.
    pub sectors: u8,
    /// Real-mode offset to read to.
    pub to_address: u16,
    /// Cylinder of the first sector.
    pub cylinder: u8,
    /// Number of the first sector; sectors count from 1.
    pub sector: u8,
    /// Head of the first sector.
    pub head: u8,
    /// Number of the drive.
    pub drive: u8,
}

/// Takes the carry flag that the test for the disk service left: the service
/// is there exactly when the flag is clear.
pub fn check_int13(carry: bool) -> (r: Result<(), DiskError>)
    ensures
        r == (if carry {
            Err::<(), DiskError>(DiskError::NoDiskService)
        } else {
            Ok::<(), DiskError>(())
        }),
{
    if carry {
        Err(DiskError::NoDiskService)
    } else {
        Ok(())
    }
}

/// The read that fetches stages 1 to 3 from the boot drive: all their
/// sectors, starting with the second sector of the disk, to the address right
/// after the entry stage.
pub fn load_sectors(drive_number: u16) -> (r: SectorRead)
    ensures
        r == (SectorRead {
            sectors: 50,
            to_address: LOAD_ADDRESS,
            cylinder: 0,
            sector: 2,
            head: 0,
            drive: drive_number as u8,
        }),
{
    SectorRead {
        sectors: SECTORS_TO_READ as u8,
        to_address: LOAD_ADDRESS,
        cylinder: 0,
        sector: 2,
        head: 0,
        drive: drive_number as u8,
    }
}

/// Takes what the read left behind: it succeeded when the status is 0 and the
/// carry flag clear, and when as many sectors were read as were asked for.
pub fn check_load(request: &SectorRead, read_sectors: u8, exit_status: u8, carry: bool) -> (r:
    Result<(), DiskError>)
    ensures
        r == (if exit_status != 0 || carry {
            Err::<(), DiskError>(DiskError::ReadFailed)
        } else if request.sectors != read_sectors {
            Err::<(), DiskError>(DiskError::SectorMismatch)
        } else {
            Ok::<(), DiskError>(())
        }),
{
    let disk_read_ok: bool = exit_status == 0 && !carry;
    if !disk_read_ok {
        return Err(DiskError::ReadFailed);
    }
    if request.sectors != read_sectors {
        return Err(DiskError::SectorMismatch);
    }
    Ok(())
}

/// Failure code of the entry stage: the read was refused.
pub const DISK_READ_ERROR: u8 = 0x44;

/// Failure code of the entry stage: the read ended with a bad status.
pub const BAD_STATUS: u8 = 0x53;

/// Failure code of the entry stage: the wrong number of sectors was read.
pub const SECTOR_COUNT: u8 = 0x52;

/// Failure code of the entry stage: the stage gave up for another reason.
pub const PANIC: u8 = 0x50;

/// The read with which the entry stage fetches the sector that follows it.
pub fn load_sector(drive_number: u16) -> (r: SectorRead)
    ensures
        r == (SectorRead {
            sectors: 1,
            to_address: LOAD_ADDRESS,
            cylinder: 0,
            sector: 2,
            head: 0,
            drive: drive_number as u8,
        }),
{
    SectorRead {
        sectors: 1,
        to_address: LOAD_ADDRESS,
        cylinder: 0,
        sector: 2,
        head: 0,
        drive: drive_number as u8,
    }
}

/// The bytes the entry stage prints when its read went wrong; none when it
/// went well. A refused read is named `D`; a bad status is printed in decimal
/// and named `S`; a wrong number of sectors is printed as the number asked
/// for, a space and the number read, and named `R`.
pub open spec fn sector_failure_text(
    requested: u8,
    read_sectors: u8,
    exit_status: u8,
    carry: bool,
) -> Option<Seq<u8>> {
    if carry {
        Some(fail_prefix() + seq![DISK_READ_ERROR] + seq![CR, LF])
    } else if exit_status != 0 {
        Some(digits(exit_status as nat, false) + fail_prefix() + seq![BAD_STATUS] + seq![CR, LF])
    } else if requested != read_sectors {
        Some(
            digits(requested as nat, false) + seq![0x20u8] + digits(read_sectors as nat, false)
                + fail_prefix() + seq![SECTOR_COUNT] + seq![CR, LF],
        )
    } else {
        None
    }
}

/// Takes what the entry stage's read left behind and gives the teletype
/// requests of its failure report, or nothing when the read went well.
pub fn load_sector_failure(
    request: &SectorRead,
    read_sectors: u8,
    exit_status: u8,
    carry: bool,
) -> (r: Option<Vec<u16>>)
    ensures
        match sector_failure_text(request.sectors, read_sectors, exit_status, carry) {
            Some(text) => r.is_some() && r.unwrap()@ == requests(text),
            None => r.is_none(),
        },
{
    if carry {
        Some(fail_rs(DISK_READ_ERROR))
    } else if exit_status != 0 {
        let mut out: Vec<u16> = print_dec(exit_status as u16);
        let mut line: Vec<u16> = fail_rs(BAD_STATUS);
        out.append(&mut line);
        assert(out@ =~= requests(
            digits(exit_status as nat, false) + fail_prefix() + seq![BAD_STATUS] + seq![CR, LF],
        ));
        Some(out)
    } else if request.sectors != read_sectors {
        let mut out: Vec<u16> = print_dec(request.sectors as u16);
        out.push(print_char(0x20));
        let mut read: Vec<u16> = print_dec(read_sectors as u16);
        out.append(&mut read);
        let mut line: Vec<u16> = fail_rs(SECTOR_COUNT);
        out.append(&mut line);
        assert(out@ =~= requests(
            digits(request.sectors as nat, false) + seq![0x20u8] + digits(
                read_sectors as nat,
                false,
            ) + fail_prefix() + seq![SECTOR_COUNT] + seq![CR, LF],
        ));
        Some(out)
    } else {
        None
    }
}

} // verus!
