use bootloader::gdt::GdtPointer;
use bootloader::layout::{
    regions_disjoint, stage_start, PhysicalLayout, Region, BIOS_INFO, GDT_POINTER, GDT_START,
    MEMORY_MAP_START, PDPT_START, PDT_START, PML4T_START, PT_START, SECTORS_TO_READ, STACK_END,
    STAGE_0_START,
};

#[test]
fn test_size() {
    let pointer = GdtPointer { limit: 23, base: 0x5010 };
    match usize::BITS {
        32 => assert_eq!(pointer.bytes_32().unwrap().len() + 4, 6 + 4),
        64 => assert_eq!(pointer.bytes_64().len(), 10),
        _ => panic!("No valid target pointer width!"),
    }
}

#[test]
fn test_sectors_readable() {
    assert!(SECTORS_TO_READ < u8::MAX as usize);
}

#[test]
fn test_pages_aligned() {
    assert!(PML4T_START as u64 % 4096 == 0, "Page not 4096 aligned");
    assert!(PDPT_START as u64 % 4096 == 0, "Page not 4096 aligned");
    assert!(PDT_START as u64 % 4096 == 0, "Page not 4096 aligned");
    assert!(PT_START as u64 % 4096 == 0, "Page not 4096 aligned");
}

#[test]
fn standard_layout_is_valid() {
    let layout = PhysicalLayout::standard();
    assert!(layout.is_valid());
    assert_eq!(layout.stack, Region { start: 0, len: STACK_END as u64 });
    assert_eq!(layout.pml4t.start, PML4T_START as u64);
    assert_eq!(layout.pt.start, PT_START as u64);
    assert_eq!(layout.gdt_pointer.start, GDT_POINTER as u64);
    assert_eq!(layout.gdt.start, GDT_START as u64);
    assert_eq!(layout.bios_info.start, BIOS_INFO as u64);
    assert_eq!(BIOS_INFO, 0x5132);
    assert_eq!(layout.memory_map, Region { start: MEMORY_MAP_START as u64, len: 24 * 256 });
    assert_eq!(layout.image, Region { start: STAGE_0_START as u64, len: 51 * 512 });
}

#[test]
fn overlapping_layout_is_refused() {
    let mut layout = PhysicalLayout::standard();
    layout.gdt = Region { start: 0x100, len: 24 };
    assert!(!layout.is_valid());
    let mut layout = PhysicalLayout::standard();
    layout.pdpt.start = 0x2008;
    assert!(!layout.is_valid());
    let mut layout = PhysicalLayout::standard();
    layout.memory_map.len = 0x2000;
    assert!(!layout.is_valid());
    let mut layout = PhysicalLayout::standard();
    layout.image.start = 0xF000;
    assert!(!layout.is_valid());
}

#[test]
fn disjointness_is_decided_pairwise() {
    let a = Region { start: 0, len: 16 };
    let b = Region { start: 16, len: 16 };
    let c = Region { start: 31, len: 2 };
    assert!(a.is_disjoint(&b));
    assert!(b.is_disjoint(&a));
    assert!(!b.is_disjoint(&c));
    assert!(!c.is_disjoint(&b));
    assert!(regions_disjoint(&vec![a, b]));
    assert!(!regions_disjoint(&vec![a, b, c]));
    assert!(regions_disjoint(&Vec::new()));
    let far = Region { start: u64::MAX, len: u64::MAX };
    assert!(far.is_disjoint(&a));
}

#[test]
fn stages_start_where_the_disk_layout_puts_them() {
    assert_eq!(stage_start(0), Some(0x7c00));
    assert_eq!(stage_start(1), Some(0x7e00));
    assert_eq!(stage_start(2), Some(0x8200));
    assert_eq!(stage_start(3), Some(0xa200));
    assert_eq!(stage_start(4), None);
}
