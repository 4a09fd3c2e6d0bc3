//! The four-level page-table hierarchy that identity-maps the first 2 MiB.

use vstd::prelude::*;
use crate::layout::PhysicalLayout;

verus! {

/// Entries in one page table.
pub const ENTRY_COUNT: usize = 512;

/// Bytes mapped by one leaf entry.
pub const PAGE_SIZE: u64 = 4096;

/// Entry bit: the page is present in physical memory.
pub const PRESENT: u64 = 0x01;

/// Entry bit: the page may be written.
pub const READ_WRITE: u64 = 0x02;

/// Entry bit: the page may be reached from user mode.
pub const USER_SUPERUSER: u64 = 0x04;

/// Entry bit: write-through caching.
pub const WRITE_THROUGH: u64 = 0x08;

/// Entry bit: caching disabled.
pub const CACHE_DISABLE: u64 = 0x10;

/// Entry bit: the page has been accessed.
pub const ACCESSED: u64 = 0x20;

/// The bits of an entry that hold the physical base address.
pub const ADDRESS_MASK: u64 = 0x000F_FFFF_FFFF_F000;

/// One past the highest address the hierarchy maps.
pub const MAPPED_BYTES: u64 = 0x20_0000;

/// The physical base address an entry points to.
pub open spec fn entry_address(entry: u64) -> u64 {
    entry & ADDRESS_MASK
}

/// The entry is marked present.
pub open spec fn entry_present(entry: u64) -> bool {
    entry & PRESENT != 0
}

/// The entry is marked writable.
pub open spec fn entry_writable(entry: u64) -> bool {
    entry & READ_WRITE != 0
}

/// An address that an entry can hold: page-aligned and within 52 bits.
pub open spec fn is_table_address(addr: u64) -> bool {
    addr % 4096 == 0 && addr < 0x10_0000_0000_0000
}

/// A table whose entry 0 points to the table at `next`, present and writable,
/// and whose other entries are writable but not present.
pub open spec fn link_table(next: u64) -> Seq<u64> {
    Seq::new(512, |i: int| if i == 0 { next | READ_WRITE | PRESENT } else { READ_WRITE })
}

/// The leaf table in which entry `i` maps the page at `i * 4096`, present and
/// writable.
pub open spec fn identity_table() -> Seq<u64> {
    Seq::new(512, |i: int| ((i * 4096) as u64) | PRESENT | READ_WRITE)
}

/// The four tables, top level first, with the addresses the lower three will
/// be placed at.
#[derive(Debug)]
pub struct PageTables {
    pub pdpt_address: u64,
    pub pdt_address: u64,
    pub pt_address: u64,
    pub pml4t: Vec<u64>,
    pub pdpt: Vec<u64>,
    pub pdt: Vec<u64>,
    pub pt: Vec<u64>,
}

impl PageTables {
    /// The hierarchy chains entry 0 of each upper level to the next level and
    /// identity-maps the first 2 MiB in the leaf level.
    pub open spec fn wf(self) -> bool {
        &&& is_table_address(self.pdpt_address)
        &&& is_table_address(self.pdt_address)
        &&& is_table_address(self.pt_address)
        &&& self.pml4t@ == link_table(self.pdpt_address)
        &&& self.pdpt@ == link_table(self.pdt_address)
        &&& self.pdt@ == link_table(self.pt_address)
        &&& self.pt@ == identity_table()
    }

    /// The physical address that `va` translates to, if every level of the
    /// walk finds a present entry that points to the next table.
    pub open spec fn translate(self, va: u64) -> Option<u64> {
        let e4 = self.pml4t@[((va >> 39) & 0x1FF) as int];
        let e3 = self.pdpt@[((va >> 30) & 0x1FF) as int];
        let e2 = self.pdt@[((va >> 21) & 0x1FF) as int];
        let e1 = self.pt@[((va >> 12) & 0x1FF) as int];
        if va < 0x1_0000_0000_0000 && entry_present(e4) && entry_address(e4) == self.pdpt_address
            && entry_present(e3) && entry_address(e3) == self.pdt_address && entry_present(e2)
            && entry_address(e2) == self.pt_address && entry_present(e1) {
            Some((entry_address(e1) | (va & 0xFFF)) as u64)
        } else {
            None
        }
    }
}

/// A table of 512 entries, all writable and not present.
fn empty_table() -> (r: Vec<u64>)
    ensures
        r.len() == 512,
        forall|i: int| 0 <= i < 512 ==> r@[i] == READ_WRITE,
{
    let mut table: Vec<u64> = Vec::new();
    let mut i: usize = 0;
    while i < ENTRY_COUNT
        invariant
            i <= 512,
            table.len() == i,
            forall|k: int| 0 <= k < i ==> table@[k] == READ_WRITE,
        decreases 512 - i,
    {
        table.push(READ_WRITE);
        i += 1;
    }
    table
}

/// A table whose only present entry, entry 0, points to `next`.
fn chained_table(next: u64) -> (r: Vec<u64>)
    ensures
        r@ == link_table(next),
{
    let mut table: Vec<u64> = empty_table();
    table.set(0, next | READ_WRITE | PRESENT);
    assert(table@ =~= link_table(next));
    table
}

/// Builds the hierarchy for tables that will be placed at the given
/// addresses. There is a result exactly when each address can be held in an
/// entry: page-aligned and within 52 bits.
pub fn load_page_tables(pdpt_address: u64, pdt_address: u64, pt_address: u64) -> (r: Option<
    PageTables,
>)
    ensures
        r.is_some() == (is_table_address(pdpt_address) && is_table_address(pdt_address)
            && is_table_address(pt_address)),
        r matches Some(tables) ==> {
            &&& tables.wf()
            &&& tables.pdpt_address == pdpt_address
            &&& tables.pdt_address == pdt_address
            &&& tables.pt_address == pt_address
        },
{
    let limit: u64 = 0x10_0000_0000_0000;
    if pdpt_address % PAGE_SIZE != 0 || pdpt_address >= limit || pdt_address % PAGE_SIZE != 0
        || pdt_address >= limit || pt_address % PAGE_SIZE != 0 || pt_address >= limit {
        return None;
    }
    let pml4t: Vec<u64> = chained_table(pdpt_address);
    let pdpt: Vec<u64> = chained_table(pdt_address);
    let pdt: Vec<u64> = chained_table(pt_address);
    let mut pt: Vec<u64> = Vec::new();
    let mut i: usize = 0;
    while i < ENTRY_COUNT
        invariant
            i <= 512,
            pt.len() == i,
            forall|k: int| 0 <= k < i ==> pt@[k] == ((k * 4096) as u64) | PRESENT | READ_WRITE,
        decreases 512 - i,
    {
        let addr: u64 = 0x1000 * (i as u64);
        let flags: u64 = PRESENT | READ_WRITE;
        proof {
            lemma_or_assoc(addr, PRESENT, READ_WRITE);
        }
        pt.push(addr | flags);
        i += 1;
    }
    assert(pt@ =~= identity_table());
    Some(PageTables { pdpt_address, pdt_address, pt_address, pml4t, pdpt, pdt, pt })
}

proof fn lemma_or_assoc(a: u64, b: u64, c: u64)
    by (bit_vector)
    ensures
        a | (b | c) == a | b | c,
{
}

/// What an entry made of a table address and the two flags decodes to.
pub proof fn lemma_entry_decodes(addr: u64)
    by (bit_vector)
    requires
        addr % 4096 == 0,
        addr < 0x10_0000_0000_0000,
    ensures
        entry_address(addr | READ_WRITE | PRESENT) == addr,
        entry_address(addr | PRESENT | READ_WRITE) == addr,
        entry_present(addr | READ_WRITE | PRESENT),
        entry_present(addr | PRESENT | READ_WRITE),
        entry_writable(addr | READ_WRITE | PRESENT),
        entry_writable(addr | PRESENT | READ_WRITE),
        !entry_present(READ_WRITE),
        entry_writable(READ_WRITE),
{
}

/// Leaf entry `i` decodes to the physical address `i * 4096`, present and
/// writable, and is exactly that address with the two flag bits set.
pub proof fn lemma_leaf_entry(i: int)
    requires
        0 <= i < 512,
    ensures
        identity_table().len() == 512,
        identity_table()[i] == ((i * 4096) as u64) | PRESENT | READ_WRITE,
        entry_address(identity_table()[i]) == i * 4096,
        entry_present(identity_table()[i]),
        entry_writable(identity_table()[i]),
{
    lemma_entry_decodes((i * 4096) as u64);
}

/// An upper-level table has exactly one present entry, entry 0, which points
/// to the next table; its other 511 entries are writable and not present.
pub proof fn lemma_upper_table(next: u64, i: int)
    requires
        is_table_address(next),
        0 <= i < 512,
    ensures
        link_table(next).len() == 512,
        entry_present(link_table(next)[i]) <==> i == 0,
        entry_writable(link_table(next)[i]),
        entry_address(link_table(next)[0]) == next,
        i != 0 ==> link_table(next)[i] == READ_WRITE,
{
    lemma_entry_decodes(next);
}

/// The page tables of a well-formed address map lie where entries can point
/// to, so the hierarchy can be built for them.
pub proof fn lemma_layout_is_addressable(layout: PhysicalLayout)
    requires
        layout.wf(),
    ensures
        is_table_address(layout.pml4t.start),
        is_table_address(layout.pdpt.start),
        is_table_address(layout.pdt.start),
        is_table_address(layout.pt.start),
{
    assert(layout.regions()[1] == layout.pml4t);
    assert(layout.regions()[2] == layout.pdpt);
    assert(layout.regions()[3] == layout.pdt);
    assert(layout.regions()[4] == layout.pt);
    assert(layout.regions()[1].end() <= 0x1_0000);
    assert(layout.regions()[2].end() <= 0x1_0000);
    assert(layout.regions()[3].end() <= 0x1_0000);
    assert(layout.regions()[4].end() <= 0x1_0000);
}

/// The hierarchy is an identity mapping of exactly the first 2 MiB: every
/// address below 2 MiB translates to itself, and no other address translates.
pub proof fn lemma_identity_mapping(tables: PageTables, va: u64)
    requires
        tables.wf(),
    ensures
        va < MAPPED_BYTES ==> tables.translate(va) == Some(va),
        va >= MAPPED_BYTES ==> tables.translate(va).is_none(),
{
    let i4 = (va >> 39) & 0x1FF;
    let i3 = (va >> 30) & 0x1FF;
    let i2 = (va >> 21) & 0x1FF;
    let i1 = (va >> 12) & 0x1FF;
    assert(i4 < 512 && i3 < 512 && i2 < 512 && i1 < 512) by (bit_vector)
        requires
            i4 == (va >> 39) & 0x1FF,
            i3 == (va >> 30) & 0x1FF,
            i2 == (va >> 21) & 0x1FF,
            i1 == (va >> 12) & 0x1FF,
    ;
    lemma_upper_table(tables.pdpt_address, i4 as int);
    lemma_upper_table(tables.pdt_address, i3 as int);
    lemma_upper_table(tables.pt_address, i2 as int);
    lemma_leaf_entry(i1 as int);
    assert(va < 0x20_0000 <==> (va < 0x1_0000_0000_0000 && i4 == 0 && i3 == 0 && i2 == 0))
        by (bit_vector)
        requires
            i4 == (va >> 39) & 0x1FF,
            i3 == (va >> 30) & 0x1FF,
            i2 == (va >> 21) & 0x1FF,
    ;
    if va < MAPPED_BYTES {
        let page: u64 = (i1 * 4096) as u64;
        assert(page == i1 * 4096);
        assert(page | (va & 0xFFF) == va) by (bit_vector)
            requires
                va < 0x20_0000,
                i1 == (va >> 12) & 0x1FF,
                page == i1 * 4096,
        ;
    }
}

} // verus!
