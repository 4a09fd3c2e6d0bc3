//! Segment descriptors and the descriptor tables built from them.
//!
//! A descriptor is an 8-byte packed record. Its meaning is given by the spec
//! functions [`pack`] (fields to record) and `field_*` (record to fields);
//! every executable function is stated against them.

use vstd::prelude::*;

verus! {

/// Access bit: the segment is valid.
pub const PRESENT: u8 = 0x80;

/// Access bits: privilege ring 0.
pub const PRIV_0: u8 = 0x00;

/// Access bits: privilege ring 1.
pub const PRIV_1: u8 = 0x20;

/// Access bits: privilege ring 2.
pub const PRIV_2: u8 = 0x40;

/// Access bits: privilege ring 3.
pub const PRIV_3: u8 = 0x60;

/// Access bit: code or data segment (as opposed to a system segment).
pub const CODE_DATA_DESCRIPTOR: u8 = 0x10;

/// Access bit: the segment holds code.
pub const EXECUTABLE: u8 = 0x08;

/// Access bit: conforming (code) or grows down (data).
pub const DIRECTION_CONFORMING: u8 = 0x04;

/// Access bit: readable (code) or writable (data).
pub const READ_WRITE: u8 = 0x02;

/// Flags bit: the limit counts 4 KiB pages instead of bytes.
pub const GRANULARITY: u8 = 0x08;

/// Flags bit: 32-bit protected-mode segment. Excludes [`LONG_MODE`].
pub const PROTECTED_MODE: u8 = 0x04;

/// Flags bit: 64-bit long-mode segment. Excludes [`PROTECTED_MODE`].
pub const LONG_MODE: u8 = 0x02;

/// The access byte of a descriptor.
#[derive(Clone, Copy, Debug, PartialEq, Eq, Structural)]
pub struct AccessFlags(pub u8);

/// The flags nibble of a descriptor, held in the low four bits.
#[derive(Clone, Copy, Debug, PartialEq, Eq, Structural)]
pub struct ExtraFlags(pub u8);

impl ExtraFlags {
    /// The value fits the nibble and does not claim both operating modes.
    pub open spec fn is_valid(self) -> bool {
        self.0 < 16 && !(self.0 & PROTECTED_MODE != 0 && self.0 & LONG_MODE != 0)
    }

    /// Accepts `bits` exactly when they form a valid flags nibble.
    pub fn from_bits(bits: u8) -> (r: Option<ExtraFlags>)
        ensures
            r == (if ExtraFlags(bits).is_valid() {
                Some(ExtraFlags(bits))
            } else {
                None
            }),
    {
        if bits < 16 && !(bits & PROTECTED_MODE != 0 && bits & LONG_MODE != 0) {
            Some(ExtraFlags(bits))
        } else {
            None
        }
    }
}

/// The 8-byte record, as a little-endian number, that holds the given fields.
/// Only the low 20 bits of `limit` and the low 4 bits of `flags` have a place
/// in it.
pub open spec fn pack(base: u32, limit: u32, access: u8, flags: u8) -> u64 {
    (limit as u64 & 0xFFFF) | ((base as u64 & 0xFF_FFFF) << 16) | ((access as u64) << 40) | (((limit
        as u64 >> 16) & 0xF) << 48) | ((flags as u64 & 0xF) << 52) | ((base as u64 >> 24) << 56)
}

/// The segment base held in a record.
pub open spec fn field_base(raw: u64) -> u32 {
    (((raw >> 16) & 0xFF_FFFF) | ((raw >> 56) << 24)) as u32
}

/// The 20-bit segment limit held in a record.
pub open spec fn field_limit(raw: u64) -> u32 {
    ((raw & 0xFFFF) | (((raw >> 48) & 0xF) << 16)) as u32
}

/// The access byte held in a record.
pub open spec fn field_access(raw: u64) -> u8 {
    (raw >> 40) as u8
}

/// The flags nibble held in a record.
pub open spec fn field_flags(raw: u64) -> u8 {
    ((raw >> 52) & 0xF) as u8
}

/// The eight bytes of a record in memory order.
pub open spec fn raw_bytes(raw: u64) -> Seq<u8> {
    seq![
        raw as u8,
        (raw >> 8) as u8,
        (raw >> 16) as u8,
        (raw >> 24) as u8,
        (raw >> 32) as u8,
        (raw >> 40) as u8,
        (raw >> 48) as u8,
        (raw >> 56) as u8,
    ]
}

/// The record whose bytes in memory order are the first eight of `bytes`.
pub open spec fn from_le(bytes: Seq<u8>) -> u64 {
    (bytes[0] as u64) | ((bytes[1] as u64) << 8) | ((bytes[2] as u64) << 16) | ((bytes[3] as u64)
        << 24) | ((bytes[4] as u64) << 32) | ((bytes[5] as u64) << 40) | ((bytes[6] as u64) << 48)
        | ((bytes[7] as u64) << 56)
}

/// One segment descriptor: an immutable 8-byte record.
#[derive(Clone, Copy, Debug, PartialEq, Eq, Structural)]
pub struct GdtEntry(pub u64);

impl GdtEntry {
    /// The null descriptor, all zero.
    pub fn null() -> (r: GdtEntry)
        ensures
            r.0 == 0,
    {
        GdtEntry(0)
    }

    /// Encodes a descriptor from its fields. Bits of `limit` above the low 20
    /// and bits of the flags above the low 4 have no place in the record and
    /// are dropped.
    pub fn new(base: u32, limit: u32, access_flags: AccessFlags, extra_flags: ExtraFlags) -> (r:
        GdtEntry)
        ensures
            r.0 == pack(base, limit, access_flags.0, extra_flags.0),
    {
        GdtEntry(
            (limit as u64 & 0xFFFF) | ((base as u64 & 0xFF_FFFF) << 16) | ((access_flags.0 as u64)
                << 40) | (((limit as u64 >> 16) & 0xF) << 48) | ((extra_flags.0 as u64 & 0xF)
                << 52) | ((base as u64 >> 24) << 56),
        )
    }

    /// Flat 4 GiB ring-0 code segment for protected mode.
    pub fn code_32() -> (r: GdtEntry)
        ensures
            r.0 == pack(0, 0xFFFFF, 0x9A, 0x0C),
    {
        GdtEntry::new(0, 0xFFFFF, kernel_code_flags(), extra_flags_protected())
    }

    /// Flat 4 GiB ring-0 data segment for protected mode.
    pub fn data_32() -> (r: GdtEntry)
        ensures
            r.0 == pack(0, 0xFFFFF, 0x92, 0x0C),
    {
        GdtEntry::new(0, 0xFFFFF, kernel_data_flags(), extra_flags_protected())
    }

    /// Ring-0 code segment that runs 64-bit code: the long-mode bit is set and
    /// the protected-mode bit is clear.
    pub fn code_64() -> (r: GdtEntry)
        ensures
            r.0 == pack(0, 0xFFFFF, 0x9A, 0x0A),
    {
        GdtEntry::new(0, 0xFFFFF, kernel_code_flags(), extra_flags_long())
    }

    /// Ring-0 data segment used after the switch to long mode; it keeps the
    /// flat protected-mode shape that compatibility code expects.
    pub fn data_64() -> (r: GdtEntry)
        ensures
            r.0 == pack(0, 0xFFFFF, 0x92, 0x0C),
    {
        GdtEntry::new(0, 0xFFFFF, kernel_data_flags(), extra_flags_protected())
    }

    /// The eight bytes of the descriptor in memory order.
    pub fn bytes(&self) -> (r: [u8; 8])
        ensures
            r@ == raw_bytes(self.0),
    {
        let raw: u64 = self.0;
        let r: [u8; 8] = [
            raw as u8,
            (raw >> 8) as u8,
            (raw >> 16) as u8,
            (raw >> 24) as u8,
            (raw >> 32) as u8,
            (raw >> 40) as u8,
            (raw >> 48) as u8,
            (raw >> 56) as u8,
        ];
        assert(r@ =~= raw_bytes(self.0));
        r
    }

    /// Decodes a descriptor from its eight bytes in memory order.
    pub fn from_bytes(bytes: &[u8; 8]) -> (r: GdtEntry)
        ensures
            r.0 == from_le(bytes@),
    {
        GdtEntry(
            (bytes[0] as u64) | ((bytes[1] as u64) << 8) | ((bytes[2] as u64) << 16) | ((
            bytes[3] as u64) << 24) | ((bytes[4] as u64) << 32) | ((bytes[5] as u64) << 40) | ((
            bytes[6] as u64) << 48) | ((bytes[7] as u64) << 56),
        )
    }

    /// The segment base.
    pub fn base(&self) -> (r: u32)
        ensures
            r == field_base(self.0),
    {
        (((self.0 >> 16) & 0xFF_FFFF) | ((self.0 >> 56) << 24)) as u32
    }

    /// The 20-bit segment limit, before any scaling.
    pub fn limit(&self) -> (r: u32)
        ensures
            r == field_limit(self.0),
    {
        ((self.0 & 0xFFFF) | (((self.0 >> 48) & 0xF) << 16)) as u32
    }

    /// The access byte.
    pub fn access(&self) -> (r: AccessFlags)
        ensures
            r.0 == field_access(self.0),
    {
        AccessFlags((self.0 >> 40) as u8)
    }

    /// The flags nibble.
    pub fn flags(&self) -> (r: ExtraFlags)
        ensures
            r.0 == field_flags(self.0),
    {
        ExtraFlags(((self.0 >> 52) & 0xF) as u8)
    }

    /// Offset of the last byte the segment covers.
    pub fn last_offset(&self) -> (r: u32)
        ensures
            r == segment_last_offset(self.0),
    {
        let limit: u32 = self.limit();
        if self.flags().0 & GRANULARITY != 0 {
            (limit << 12) | 0xFFF
        } else {
            limit
        }
    }
}

/// Offset of the last byte covered by the segment that a record describes:
/// the limit itself, or with the granularity bit the last byte of the page the
/// limit names.
pub open spec fn segment_last_offset(raw: u64) -> u32 {
    if field_flags(raw) & GRANULARITY != 0 {
        (field_limit(raw) << 12) | 0xFFF
    } else {
        field_limit(raw)
    }
}

/// The values of the flag combinations that the canonical descriptors use.
proof fn lemma_flag_values()
    by (bit_vector)
    ensures
        GRANULARITY | PROTECTED_MODE == 0x0C,
        GRANULARITY | LONG_MODE == 0x0A,
        PRESENT | PRIV_0 | CODE_DATA_DESCRIPTOR | EXECUTABLE | READ_WRITE == 0x9A,
        PRESENT | PRIV_0 | CODE_DATA_DESCRIPTOR | READ_WRITE == 0x92,
        0x0Cu8 & PROTECTED_MODE != 0,
        0x0Cu8 & LONG_MODE == 0,
        0x0Au8 & PROTECTED_MODE == 0,
        0x0Au8 & LONG_MODE != 0,
{
}

/// Access byte whose set bits are those of the protected-mode flags nibble.
pub fn kernel_extra_flags() -> (r: AccessFlags)
    ensures
        r.0 == 0x0C,
{
    proof {
        lemma_flag_values();
    }
    AccessFlags(GRANULARITY | PROTECTED_MODE)
}

/// Access byte of a ring-0 code segment: present, code/data, executable,
/// readable.
pub fn kernel_code_flags() -> (r: AccessFlags)
    ensures
        r.0 == 0x9A,
{
    proof {
        lemma_flag_values();
    }
    AccessFlags(PRESENT | PRIV_0 | CODE_DATA_DESCRIPTOR | EXECUTABLE | READ_WRITE)
}

/// Access byte of a ring-0 data segment: present, code/data, writable.
pub fn kernel_data_flags() -> (r: AccessFlags)
    ensures
        r.0 == 0x92,
{
    proof {
        lemma_flag_values();
    }
    AccessFlags(PRESENT | PRIV_0 | CODE_DATA_DESCRIPTOR | READ_WRITE)
}

/// Flags nibble of a protected-mode segment with 4 KiB granularity.
pub fn extra_flags_protected() -> (r: ExtraFlags)
    ensures
        r.0 == 0x0C,
        r.is_valid(),
{
    proof {
        lemma_flag_values();
    }
    ExtraFlags(GRANULARITY | PROTECTED_MODE)
}

/// Flags nibble of a long-mode segment with 4 KiB granularity.
pub fn extra_flags_long() -> (r: ExtraFlags)
    ensures
        r.0 == 0x0A,
        r.is_valid(),
{
    proof {
        lemma_flag_values();
    }
    ExtraFlags(GRANULARITY | LONG_MODE)
}

/// Decoding recovers what encoding stored: the whole base, the low 20 bits of
/// the limit, the whole access byte and the low 4 bits of the flags.
pub proof fn lemma_fields_of_pack(base: u32, limit: u32, access: u8, flags: u8)
    by (bit_vector)
    ensures
        field_base(pack(base, limit, access, flags)) == base,
        field_limit(pack(base, limit, access, flags)) == limit & 0xFFFFF,
        field_access(pack(base, limit, access, flags)) == access,
        field_flags(pack(base, limit, access, flags)) == flags & 0xF,
        flags < 16 ==> field_flags(pack(base, limit, access, flags)) == flags,
{
}

/// A record and its eight bytes determine each other.
pub proof fn lemma_bytes_roundtrip(raw: u64)
    ensures
        raw_bytes(raw).len() == 8,
        from_le(raw_bytes(raw)) == raw,
{
    let b = raw_bytes(raw);
    assert(from_le(
        seq![
            raw as u8,
            (raw >> 8) as u8,
            (raw >> 16) as u8,
            (raw >> 24) as u8,
            (raw >> 32) as u8,
            (raw >> 40) as u8,
            (raw >> 48) as u8,
            (raw >> 56) as u8,
        ],
    ) == raw) by {
        assert((raw as u8 as u64) | (((raw >> 8) as u8 as u64) << 8) | (((raw >> 16) as u8 as u64)
            << 16) | (((raw >> 24) as u8 as u64) << 24) | (((raw >> 32) as u8 as u64) << 32) | (((
        raw >> 40) as u8 as u64) << 40) | (((raw >> 48) as u8 as u64) << 48) | (((raw >> 56) as u8
            as u64) << 56) == raw) by (bit_vector);
    }
}

/// Encoding a descriptor to its eight bytes and decoding those bytes
/// reproduces the base, the low 20 bits of the limit, the access byte and the
/// flags nibble.
pub proof fn lemma_encode_decode(base: u32, limit: u32, access: AccessFlags, extra: ExtraFlags)
    ensures
        ({
            let decoded = from_le(raw_bytes(pack(base, limit, access.0, extra.0)));
            &&& field_base(decoded) == base
            &&& field_limit(decoded) == limit & 0xFFFFF
            &&& field_access(decoded) == access.0
            &&& field_flags(decoded) == extra.0 & 0xF
            &&& extra.is_valid() ==> field_flags(decoded) == extra.0
        }),
{
    lemma_bytes_roundtrip(pack(base, limit, access.0, extra.0));
    lemma_fields_of_pack(base, limit, access.0, extra.0);
}

/// Where each field lies among the eight bytes of a record.
pub proof fn lemma_byte_layout(base: u32, limit: u32, access: u8, flags: u8)
    ensures
        ({
            let b = raw_bytes(pack(base, limit, access, flags));
            &&& b[0] == (limit & 0xFF) as u8
            &&& b[1] == ((limit >> 8) & 0xFF) as u8
            &&& b[2] == (base & 0xFF) as u8
            &&& b[3] == ((base >> 8) & 0xFF) as u8
            &&& b[4] == ((base >> 16) & 0xFF) as u8
            &&& b[5] == access
            &&& b[6] == (((limit >> 16) & 0xF) as u8) | ((flags & 0xF) << 4)
            &&& b[6] & 0xF == ((limit >> 16) & 0xF) as u8
            &&& b[6] >> 4 == flags & 0xF
            &&& b[7] == (base >> 24) as u8
        }),
{
    let raw = pack(base, limit, access, flags);
    assert(raw == pack(base, limit, access, flags) ==> {
        &&& raw as u8 == (limit & 0xFF) as u8
        &&& (raw >> 8) as u8 == ((limit >> 8) & 0xFF) as u8
        &&& (raw >> 16) as u8 == (base & 0xFF) as u8
        &&& (raw >> 24) as u8 == ((base >> 8) & 0xFF) as u8
        &&& (raw >> 32) as u8 == ((base >> 16) & 0xFF) as u8
        &&& (raw >> 40) as u8 == access
        &&& (raw >> 48) as u8 == (((limit >> 16) & 0xF) as u8) | ((flags & 0xF) << 4)
        &&& (raw >> 48) as u8 & 0xF == ((limit >> 16) & 0xF) as u8
        &&& (raw >> 48) as u8 >> 4 == flags & 0xF
        &&& (raw >> 56) as u8 == (base >> 24) as u8
    }) by (bit_vector);
}

/// The null descriptor is eight zero bytes, and the flat segments start at
/// address 0 and reach the last byte of the 4 GiB address space.
pub proof fn lemma_canonical_descriptors()
    ensures
        raw_bytes(0) == seq![0u8, 0u8, 0u8, 0u8, 0u8, 0u8, 0u8, 0u8],
        pack(0, 0, 0, 0) == 0,
        field_base(pack(0, 0xFFFFF, 0x9A, 0x0C)) == 0,
        field_base(pack(0, 0xFFFFF, 0x92, 0x0C)) == 0,
        segment_last_offset(pack(0, 0xFFFFF, 0x9A, 0x0C)) == 0xFFFF_FFFF,
        segment_last_offset(pack(0, 0xFFFFF, 0x92, 0x0C)) == 0xFFFF_FFFF,
        segment_last_offset(pack(0, 0xFFFFF, 0x9A, 0x0A)) == 0xFFFF_FFFF,
        pack(0, 0xFFFF_FFFF, 0x9A, 0x0C) == pack(0, 0xFFFFF, 0x9A, 0x0C),
        pack(0, 0xFFFF_FFFF, 0x92, 0x0C) == pack(0, 0xFFFFF, 0x92, 0x0C),
{
    assert(raw_bytes(0) =~= seq![0u8, 0u8, 0u8, 0u8, 0u8, 0u8, 0u8, 0u8]) by {
        assert(0u64 as u8 == 0 && (0u64 >> 8) as u8 == 0 && (0u64 >> 16) as u8 == 0 && (0u64 >> 24)
            as u8 == 0 && (0u64 >> 32) as u8 == 0 && (0u64 >> 40) as u8 == 0 && (0u64 >> 48) as u8
            == 0 && (0u64 >> 56) as u8 == 0) by (bit_vector);
    }
    assert(pack(0, 0, 0, 0) == 0 && field_base(pack(0, 0xFFFFF, 0x9A, 0x0C)) == 0 && field_base(
        pack(0, 0xFFFFF, 0x92, 0x0C),
    ) == 0 && segment_last_offset(pack(0, 0xFFFFF, 0x9A, 0x0C)) == 0xFFFF_FFFF
        && segment_last_offset(pack(0, 0xFFFFF, 0x92, 0x0C)) == 0xFFFF_FFFF
        && segment_last_offset(pack(0, 0xFFFFF, 0x9A, 0x0A)) == 0xFFFF_FFFF && pack(
        0,
        0xFFFF_FFFF,
        0x9A,
        0x0C,
    ) == pack(0, 0xFFFFF, 0x9A, 0x0C) && pack(0, 0xFFFF_FFFF, 0x92, 0x0C) == pack(
        0,
        0xFFFFF,
        0x92,
        0x0C,
    )) by (bit_vector);
}

/// Size in bytes of one descriptor.
pub const DESCRIPTOR_SIZE: usize = 8;

/// The most descriptors a table can hold: its byte length minus one must fit
/// the 16-bit size field of the table pointer.
pub const MAX_DESCRIPTORS: usize = 8192;

/// The bytes of a table: the records of its descriptors, one after another.
pub open spec fn table_bytes(entries: Seq<GdtEntry>) -> Seq<u8> {
    Seq::new(8 * entries.len(), |i: int| raw_bytes(entries[i / 8].0)[i % 8])
}

/// The size field of the pointer to a table: the length of the table in
/// bytes, minus one.
pub open spec fn table_limit(entries: Seq<GdtEntry>) -> int {
    table_bytes(entries).len() - 1
}

/// What the processor is handed to find a descriptor table.
#[derive(Clone, Copy, Debug, PartialEq, Eq, Structural)]
pub struct GdtPointer {
    /// Length of the table in bytes, minus one.
    pub limit: u16,
    /// Address of the first byte of the table.
    pub base: u64,
}

/// The in-memory image of a table pointer under 64-bit addressing: the size,
/// then the base, both little-endian.
pub open spec fn pointer_bytes(limit: u16, base: u64) -> Seq<u8> {
    seq![(limit & 0xFF) as u8, (limit >> 8) as u8] + raw_bytes(base)
}

impl GdtPointer {
    /// The 10-byte image that 64-bit code loads.
    pub fn bytes_64(&self) -> (r: [u8; 10])
        ensures
            r@ == pointer_bytes(self.limit, self.base),
    {
        let b: u64 = self.base;
        let r: [u8; 10] = [
            (self.limit & 0xFF) as u8,
            (self.limit >> 8) as u8,
            b as u8,
            (b >> 8) as u8,
            (b >> 16) as u8,
            (b >> 24) as u8,
            (b >> 32) as u8,
            (b >> 40) as u8,
            (b >> 48) as u8,
            (b >> 56) as u8,
        ];
        assert(r@ =~= pointer_bytes(self.limit, self.base));
        r
    }

    /// The 6-byte image that 16- and 32-bit code loads: the first six bytes
    /// of the 64-bit image. There is one exactly when the base fits 32 bits.
    pub fn bytes_32(&self) -> (r: Option<[u8; 6]>)
        ensures
            self.base <= u32::MAX ==> r.is_some() && r.unwrap()@ == pointer_bytes(
                self.limit,
                self.base,
            ).take(6),
            self.base > u32::MAX ==> r.is_none(),
    {
        if self.base > 0xFFFF_FFFF {
            return None;
        }
        let b: u64 = self.base;
        let r: [u8; 6] = [
            (self.limit & 0xFF) as u8,
            (self.limit >> 8) as u8,
            b as u8,
            (b >> 8) as u8,
            (b >> 16) as u8,
            (b >> 24) as u8,
        ];
        assert(r@ =~= pointer_bytes(self.limit, self.base).take(6));
        Some(r)
    }
}

/// Lays `entries` out contiguously and describes the result for a table that
/// will live at address `base`. There is a result exactly when the table holds
/// between 1 and [`MAX_DESCRIPTORS`] descriptors.
pub fn build_table(entries: &Vec<GdtEntry>, base: u64) -> (r: Option<(Vec<u8>, GdtPointer)>)
    ensures
        (1 <= entries.len() <= MAX_DESCRIPTORS) == r.is_some(),
        r matches Some((bytes, pointer)) ==> {
            &&& bytes@ == table_bytes(entries@)
            &&& bytes.len() == 8 * entries.len()
            &&& pointer.limit == bytes.len() - 1
            &&& pointer.limit == table_limit(entries@)
            &&& pointer.base == base
        },
{
    let n: usize = entries.len();
    if n == 0 || n > MAX_DESCRIPTORS {
        return None;
    }
    let mut bytes: Vec<u8> = Vec::new();
    let mut k: usize = 0;
    while k < n
        invariant
            k <= n,
            n == entries.len(),
            n <= MAX_DESCRIPTORS,
            bytes.len() == 8 * k,
            forall|i: int| 0 <= i < 8 * k ==> bytes@[i] == raw_bytes(entries@[i / 8].0)[i % 8],
        decreases n - k,
    {
        let record: [u8; 8] = entries[k].bytes();
        let mut j: usize = 0;
        while j < 8
            invariant
                j <= 8,
                k < n,
                n == entries.len(),
                n <= MAX_DESCRIPTORS,
                record@ == raw_bytes(entries@[k as int].0),
                bytes.len() == 8 * k + j,
                forall|i: int|
                    0 <= i < 8 * k + j ==> bytes@[i] == raw_bytes(entries@[i / 8].0)[i % 8],
            decreases 8 - j,
        {
            bytes.push(record[j]);
            j += 1;
        }
        k += 1;
    }
    assert(bytes@ =~= table_bytes(entries@));
    let limit: u16 = (bytes.len() - 1) as u16;
    Some((bytes, GdtPointer { limit, base }))
}

/// A table of three descriptors is 24 bytes long and the size field of its
/// pointer is 23.
pub proof fn lemma_three_entry_table(entries: Seq<GdtEntry>)
    requires
        entries.len() == 3,
    ensures
        table_bytes(entries).len() == 24,
        table_limit(entries) == 23,
{
}

/// A three-descriptor table: null, code, data.
#[derive(Clone, Copy, Debug, PartialEq, Eq, Structural)]
pub struct Gdt {
    pub null: GdtEntry,
    pub code: GdtEntry,
    pub data: GdtEntry,
}

impl Gdt {
    /// The descriptors in table order.
    pub open spec fn entries(self) -> Seq<GdtEntry> {
        seq![self.null, self.code, self.data]
    }

    /// The table for 32-bit protected mode, as a value of specifications.
    pub open spec fn spec_protected_mode() -> Gdt {
        Gdt {
            null: GdtEntry(0),
            code: GdtEntry(pack(0, 0xFFFFF, 0x9A, 0x0C)),
            data: GdtEntry(pack(0, 0xFFFFF, 0x92, 0x0C)),
        }
    }

    /// The table for long mode, as a value of specifications.
    pub open spec fn spec_long_mode() -> Gdt {
        Gdt {
            null: GdtEntry(0),
            code: GdtEntry(pack(0, 0xFFFFF, 0x9A, 0x0A)),
            data: GdtEntry(pack(0, 0xFFFFF, 0x92, 0x0C)),
        }
    }

    /// The table for 32-bit protected mode: null, flat code, flat data.
    pub fn protected_mode() -> (r: Gdt)
        ensures
            r == Gdt::spec_protected_mode(),
    {
        Gdt { null: GdtEntry::null(), code: GdtEntry::code_32(), data: GdtEntry::data_32() }
    }

    /// The table for long mode: null, 64-bit code, flat data.
    pub fn long_mode() -> (r: Gdt)
        ensures
            r == Gdt::spec_long_mode(),
    {
        Gdt { null: GdtEntry::null(), code: GdtEntry::code_64(), data: GdtEntry::data_64() }
    }

    /// The pointer that names the table when the table lies at `address`.
    pub open spec fn spec_pointer(self, address: u64) -> GdtPointer {
        GdtPointer { limit: table_limit(self.entries()) as u16, base: address }
    }

    /// Prepares the load of the table register for a table that lies at
    /// `address`: the pointer to hand to the processor. Its base is that
    /// address and its size field is 23. The table is only read.
    pub fn load(&self, address: u64) -> (r: GdtPointer)
        ensures
            r == self.spec_pointer(address),
            r.base == address,
            r.limit == 23,
            r.limit == table_bytes(self.entries()).len() - 1,
    {
        GdtPointer { limit: (3 * DESCRIPTOR_SIZE - 1) as u16, base: address }
    }

    /// The 24 bytes of the table and the pointer to load for a table placed at
    /// `base`.
    pub fn image(&self, base: u64) -> (r: (Vec<u8>, GdtPointer))
        ensures
            r.0@ == table_bytes(self.entries()),
            r.0.len() == 24,
            r.1 == self.spec_pointer(base),
            r.1.limit == 23,
            r.1.base == base,
    {
        let mut entries: Vec<GdtEntry> = Vec::new();
        entries.push(self.null);
        entries.push(self.code);
        entries.push(self.data);
        assert(entries@ =~= self.entries());
        build_table(&entries, base).unwrap()
    }
}

/// The protected-mode table, end to end: its 24 bytes are the null
/// descriptor and two flat segments of limit 0xFFFFF with 4 KiB granularity,
/// and the pointer to it has size field 23 and the address the table was
/// given as its base.
pub proof fn lemma_protected_mode_table(address: u64)
    ensures
        table_bytes(Gdt::spec_protected_mode().entries()) == seq![
            0u8, 0u8, 0u8, 0u8, 0u8, 0u8, 0u8, 0u8,
            0xFFu8, 0xFFu8, 0u8, 0u8, 0u8, 0x9Au8, 0xCFu8, 0u8,
            0xFFu8, 0xFFu8, 0u8, 0u8, 0u8, 0x92u8, 0xCFu8, 0u8,
        ],
        Gdt::spec_protected_mode().spec_pointer(address).limit == 23,
        Gdt::spec_protected_mode().spec_pointer(address).base == address,
        field_limit(Gdt::spec_protected_mode().code.0) == 0xFFFFF,
        field_limit(Gdt::spec_protected_mode().data.0) == 0xFFFFF,
        field_flags(Gdt::spec_protected_mode().code.0) & GRANULARITY != 0,
        field_flags(Gdt::spec_protected_mode().data.0) & GRANULARITY != 0,
{
    let table = Gdt::spec_protected_mode();
    let code = pack(0, 0xFFFFF, 0x9A, 0x0C);
    let data = pack(0, 0xFFFFF, 0x92, 0x0C);
    lemma_canonical_descriptors();
    assert(code == pack(0, 0xFFFFF, 0x9A, 0x0C) && data == pack(0, 0xFFFFF, 0x92, 0x0C) ==> {
        &&& code as u8 == 0xFF
        &&& (code >> 8) as u8 == 0xFF
        &&& (code >> 16) as u8 == 0
        &&& (code >> 24) as u8 == 0
        &&& (code >> 32) as u8 == 0
        &&& (code >> 40) as u8 == 0x9A
        &&& (code >> 48) as u8 == 0xCF
        &&& (code >> 56) as u8 == 0
        &&& data as u8 == 0xFF
        &&& (data >> 8) as u8 == 0xFF
        &&& (data >> 16) as u8 == 0
        &&& (data >> 24) as u8 == 0
        &&& (data >> 32) as u8 == 0
        &&& (data >> 40) as u8 == 0x92
        &&& (data >> 48) as u8 == 0xCF
        &&& (data >> 56) as u8 == 0
        &&& field_limit(code) == 0xFFFFF
        &&& field_limit(data) == 0xFFFFF
        &&& field_flags(code) & GRANULARITY != 0
        &&& field_flags(data) & GRANULARITY != 0
    }) by (bit_vector);
    assert(table_bytes(table.entries()) =~= seq![
        0u8, 0u8, 0u8, 0u8, 0u8, 0u8, 0u8, 0u8,
        0xFFu8, 0xFFu8, 0u8, 0u8, 0u8, 0x9Au8, 0xCFu8, 0u8,
        0xFFu8, 0xFFu8, 0u8, 0u8, 0u8, 0x92u8, 0xCFu8, 0u8,
    ]);
}

/// A selector is the offset of its descriptor in the table: selector 0x08
/// names the code descriptor and selector 0x10 the data descriptor.
pub proof fn lemma_selectors(table: Gdt)
    ensures
        table_bytes(table.entries()).subrange(0x00, 0x08) == raw_bytes(table.null.0),
        table_bytes(table.entries()).subrange(0x08, 0x10) == raw_bytes(table.code.0),
        table_bytes(table.entries()).subrange(0x10, 0x18) == raw_bytes(table.data.0),
{
    let bytes = table_bytes(table.entries());
    assert(bytes.subrange(0x00, 0x08) =~= raw_bytes(table.null.0));
    assert(bytes.subrange(0x08, 0x10) =~= raw_bytes(table.code.0));
    assert(bytes.subrange(0x10, 0x18) =~= raw_bytes(table.data.0));
}

/// Rounds a byte count up to the next multiple of four.
pub open spec fn align_up_4(n: int) -> int {
    if n % 4 == 0 {
        n
    } else {
        n + 4 - n % 4
    }
}

/// A descriptor table ready to be copied to its place in memory.
#[derive(Debug)]
pub struct GdtImage {
    /// The table itself.
    pub bytes: Vec<u8>,
    /// The pointer that names it.
    pub pointer: GdtPointer,
    /// Bytes the table occupies once padded to a 4-byte boundary.
    pub padded_len: usize,
}

/// Builds the protected-mode table for the fixed address `table_base`: the
/// null descriptor, then flat 4 GiB code and data segments.
pub fn write_protected_gdt(table_base: u32) -> (r: GdtImage)
    ensures
        r.bytes@ == table_bytes(Gdt::spec_protected_mode().entries()),
        r.bytes.len() == 24,
        r.pointer.limit == 23,
        r.pointer.base == table_base,
        r.padded_len == align_up_4(24),
{
    let code: GdtEntry = GdtEntry::new(
        0,
        u32::MAX,
        kernel_code_flags(),
        extra_flags_protected(),
    );
    let data: GdtEntry = GdtEntry::new(
        0,
        u32::MAX,
        kernel_data_flags(),
        extra_flags_protected(),
    );
    proof {
        lemma_canonical_descriptors();
    }
    let table: Gdt = Gdt { null: GdtEntry::null(), code, data };
    let (bytes, pointer) = table.image(table_base as u64);
    let mut padded_len: usize = bytes.len();
    if padded_len % 4 != 0 {
        padded_len += 4 - padded_len % 4;
    }
    GdtImage { bytes, pointer, padded_len }
}

} // verus!
