//! The physical address map that every boot stage agrees on.
//!
//! Nothing at run time can notice two regions that overlap, so the map is a
//! value: [`PhysicalLayout::standard`] is the map the stages use, and
//! [`PhysicalLayout::wf`] says what makes any map safe to use.

use vstd::prelude::*;

verus! {

/// Size in bytes of one disk sector.
pub const SECTOR_SIZE: usize = 512;

/// Address at which the firmware places the entry stage.
pub const STAGE_0_START: usize = 0x7c00;

/// Sectors taken by the entry stage.
pub const STAGE_0_SECTIONS: usize = 1;

/// Sectors taken by stage 1.
pub const STAGE_1_SECTIONS: usize = 2;

/// Sectors taken by stage 2.
pub const STAGE_2_SECTIONS: usize = 0x10;

/// Sectors taken by stage 3.
pub const STAGE_3_SECTIONS: usize = 0x20;

/// Sectors the entry stage has to read: every stage but itself.
pub const SECTORS_TO_READ: usize = STAGE_1_SECTIONS + STAGE_2_SECTIONS + STAGE_3_SECTIONS;

/// Lowest address of the stack.
pub const STACK_START: usize = 0x0;

/// One past the highest address of the stack; the stack grows down from here.
pub const STACK_END: usize = 0x1000;

/// Top-level page table.
pub const PML4T_START: usize = 0x1000;

/// Upper-level page table.
pub const PDPT_START: usize = 0x2000;

/// Middle-level page table.
pub const PDT_START: usize = 0x3000;

/// Leaf page table.
pub const PT_START: usize = 0x4000;

/// Where the descriptor-table pointer is written.
pub const GDT_POINTER: usize = 0x5000;

/// Where the descriptor table is written.
pub const GDT_START: usize = 0x5010;

/// Where the record handed to the kernel is written.
pub const BIOS_INFO: usize = 0x5006 + 6 * 50;

/// Where the firmware's memory map accumulates.
pub const MEMORY_MAP_START: usize = 0x6000;

/// Size in bytes of one memory-map record.
pub const MEMORY_MAP_ENTRY_SIZE: usize = 24;

/// The most memory-map records the buffer is given room for.
pub const MEMORY_MAP_MAX_ENTRIES: usize = 256;

/// Size in bytes of one page table.
pub const PAGE_TABLE_SIZE: usize = 0x1000;

/// What the last stage hands to the kernel.
#[derive(Clone, Copy, Debug, PartialEq, Eq, Structural)]
pub struct BiosInfo {
    /// Address of the first memory-map record.
    pub memory_map_start: usize,
    /// Number of memory-map records.
    pub memory_map_count: usize,
}

/// A range of physical addresses: `len` bytes from `start`.
#[derive(Clone, Copy, Debug, PartialEq, Eq, Structural)]
pub struct Region {
    pub start: u64,
    pub len: u64,
}

impl Region {
    /// One past the last address of the region.
    pub open spec fn end(self) -> int {
        self.start + self.len
    }

    /// No address lies in both regions.
    pub open spec fn disjoint(self, other: Region) -> bool {
        self.end() <= other.start || other.end() <= self.start
    }

    /// The region starts on a page boundary.
    pub open spec fn page_aligned(self) -> bool {
        self.start % 4096 == 0
    }

    /// Decides [`Region::disjoint`].
    pub fn is_disjoint(&self, other: &Region) -> (r: bool)
        ensures
            r == self.disjoint(*other),
    {
        (self.start <= other.start && self.len <= other.start - self.start) || (other.start
            <= self.start && other.len <= self.start - other.start)
    }
}

/// No two regions of the sequence share an address.
pub open spec fn pairwise_disjoint(regions: Seq<Region>) -> bool {
    forall|i: int, j: int|
        0 <= i < j < regions.len() ==> (#[trigger] regions[i]).disjoint(#[trigger] regions[j])
}

/// Decides [`pairwise_disjoint`].
pub fn regions_disjoint(regions: &Vec<Region>) -> (r: bool)
    ensures
        r == pairwise_disjoint(regions@),
{
    let n: usize = regions.len();
    let mut j: usize = 0;
    while j < n
        invariant
            j <= n,
            n == regions.len(),
            forall|a: int, b: int|
                0 <= a < b < j ==> (#[trigger] regions@[a]).disjoint(#[trigger] regions@[b]),
        decreases n - j,
    {
        let mut i: usize = 0;
        while i < j
            invariant
                i <= j,
                j < n,
                n == regions.len(),
                forall|a: int, b: int|
                    0 <= a < b < j ==> (#[trigger] regions@[a]).disjoint(#[trigger] regions@[b]),
                forall|a: int| 0 <= a < i ==> (#[trigger] regions@[a]).disjoint(regions@[j as int]),
            decreases j - i,
        {
            if !regions[i].is_disjoint(&regions[j]) {
                assert(!regions@[i as int].disjoint(regions@[j as int]));
                return false;
            }
            i += 1;
        }
        j += 1;
    }
    true
}

/// The address map as a value that one stage can hand to the next.
#[derive(Clone, Copy, Debug, PartialEq, Eq, Structural)]
pub struct PhysicalLayout {
    pub stack: Region,
    pub pml4t: Region,
    pub pdpt: Region,
    pub pdt: Region,
    pub pt: Region,
    pub gdt_pointer: Region,
    pub gdt: Region,
    pub bios_info: Region,
    pub memory_map: Region,
    pub image: Region,
}

impl PhysicalLayout {
    /// The regions in the order of their fields.
    pub open spec fn regions(self) -> Seq<Region> {
        seq![
            self.stack,
            self.pml4t,
            self.pdpt,
            self.pdt,
            self.pt,
            self.gdt_pointer,
            self.gdt,
            self.bios_info,
            self.memory_map,
            self.image,
        ]
    }

    /// The four page tables are page-aligned, one page long and contiguous.
    pub open spec fn page_tables_ok(self) -> bool {
        &&& self.pml4t.page_aligned()
        &&& self.pml4t.len == 4096
        &&& self.pdpt.len == 4096
        &&& self.pdt.len == 4096
        &&& self.pt.len == 4096
        &&& self.pdpt.start == self.pml4t.start + 4096
        &&& self.pdt.start == self.pdpt.start + 4096
        &&& self.pt.start == self.pdt.start + 4096
    }

    /// Every region can hold what is written to it, and real-mode code can
    /// address all of them.
    pub open spec fn sizes_ok(self) -> bool {
        &&& self.gdt_pointer.len >= 10
        &&& self.gdt.len >= 24
        &&& self.gdt.start % 8 == 0
        &&& self.bios_info.len >= 16
        &&& self.memory_map.len >= 24 * 256
        &&& forall|i: int|
            0 <= i < self.regions().len() ==> (#[trigger] self.regions()[i]).end() <= 0x1_0000
    }

    /// The map is safe to use: its regions do not overlap and each has the
    /// shape its contents need.
    pub open spec fn wf(self) -> bool {
        &&& pairwise_disjoint(self.regions())
        &&& self.page_tables_ok()
        &&& self.sizes_ok()
    }

    /// The map the boot stages use.
    pub fn standard() -> (r: PhysicalLayout)
        ensures
            r.wf(),
            r.stack == (Region { start: 0, len: 0x1000 }),
            r.pml4t == (Region { start: 0x1000, len: 0x1000 }),
            r.pdpt == (Region { start: 0x2000, len: 0x1000 }),
            r.pdt == (Region { start: 0x3000, len: 0x1000 }),
            r.pt == (Region { start: 0x4000, len: 0x1000 }),
            r.gdt_pointer == (Region { start: 0x5000, len: 10 }),
            r.gdt == (Region { start: 0x5010, len: 24 }),
            r.bios_info == (Region { start: 0x5132, len: 16 }),
            r.memory_map == (Region { start: 0x6000, len: 0x1800 }),
            r.image == (Region { start: 0x7c00, len: 0x6600 }),
    {
        let r = PhysicalLayout {
            stack: Region { start: STACK_START as u64, len: (STACK_END - STACK_START) as u64 },
            pml4t: Region { start: PML4T_START as u64, len: PAGE_TABLE_SIZE as u64 },
            pdpt: Region { start: PDPT_START as u64, len: PAGE_TABLE_SIZE as u64 },
            pdt: Region { start: PDT_START as u64, len: PAGE_TABLE_SIZE as u64 },
            pt: Region { start: PT_START as u64, len: PAGE_TABLE_SIZE as u64 },
            gdt_pointer: Region { start: GDT_POINTER as u64, len: 10 },
            gdt: Region { start: GDT_START as u64, len: 24 },
            bios_info: Region { start: BIOS_INFO as u64, len: 16 },
            memory_map: Region {
                start: MEMORY_MAP_START as u64,
                len: (MEMORY_MAP_ENTRY_SIZE * MEMORY_MAP_MAX_ENTRIES) as u64,
            },
            image: Region {
                start: STAGE_0_START as u64,
                len: ((STAGE_0_SECTIONS + SECTORS_TO_READ) * SECTOR_SIZE) as u64,
            },
        };
        assert(r.regions().len() == 10);
        r
    }

    /// Decides [`PhysicalLayout::wf`].
    pub fn is_valid(&self) -> (r: bool)
        ensures
            r == self.wf(),
    {
        let mut regions: Vec<Region> = Vec::new();
        regions.push(self.stack);
        regions.push(self.pml4t);
        regions.push(self.pdpt);
        regions.push(self.pdt);
        regions.push(self.pt);
        regions.push(self.gdt_pointer);
        regions.push(self.gdt);
        regions.push(self.bios_info);
        regions.push(self.memory_map);
        regions.push(self.image);
        assert(regions@ =~= self.regions());
        let mut in_reach: bool = true;
        let mut i: usize = 0;
        while i < 10
            invariant
                i <= 10,
                regions@ == self.regions(),
                regions.len() == 10,
                in_reach == (forall|k: int|
                    0 <= k < i ==> (#[trigger] self.regions()[k]).end() <= 0x1_0000),
            decreases 10 - i,
        {
            let region: Region = regions[i];
            if region.start > 0x1_0000 || region.len > 0x1_0000 - region.start {
                in_reach = false;
            }
            i += 1;
        }
        let tables: bool = self.pml4t.start % 4096 == 0 && self.pml4t.len == 4096 && self.pdpt.len
            == 4096 && self.pdt.len == 4096 && self.pt.len == 4096 && self.pml4t.start
            <= 0x1_0000 && self.pdpt.start == self.pml4t.start + 4096 && self.pdt.start
            == self.pml4t.start + 8192 && self.pt.start == self.pml4t.start + 12288;
        let sizes: bool = self.gdt_pointer.len >= 10 && self.gdt.len >= 24 && self.gdt.start % 8
            == 0 && self.bios_info.len >= 16 && self.memory_map.len >= 24 * 256;
        let apart: bool = regions_disjoint(&regions);
        assert(!in_reach ==> !self.sizes_ok());
        assert(in_reach ==> self.regions()[1].end() <= 0x1_0000);
        apart && tables && sizes && in_reach
    }
}

/// Address of the first byte of a stage, for stages 0 to 3.
pub open spec fn spec_stage_start(stage: int) -> int {
    if stage == 0 {
        0x7c00
    } else if stage == 1 {
        0x7e00
    } else if stage == 2 {
        0x8200
    } else {
        0xa200
    }
}

/// Address at which a stage is loaded and entered. There are four stages.
pub fn stage_start(stage: u8) -> (r: Option<usize>)
    ensures
        stage <= 3 ==> r == Some(spec_stage_start(stage as int) as usize),
        stage > 3 ==> r.is_none(),
{
    if stage == 0 {
        Some(STAGE_0_START)
    } else if stage == 1 {
        Some(STAGE_0_START + STAGE_0_SECTIONS * SECTOR_SIZE)
    } else if stage == 2 {
        Some(STAGE_0_START + (STAGE_0_SECTIONS + STAGE_1_SECTIONS) * SECTOR_SIZE)
    } else if stage == 3 {
        Some(
            STAGE_0_START + (STAGE_0_SECTIONS + STAGE_1_SECTIONS + STAGE_2_SECTIONS) * SECTOR_SIZE,
        )
    } else {
        None
    }
}

} // verus!
