use bootloader::paging::{load_page_tables, ADDRESS_MASK, PRESENT, READ_WRITE};

#[test]
fn leaf_table_identity_maps_two_mebibytes() {
    let tables = load_page_tables(0x2000, 0x3000, 0x4000).unwrap();
    assert_eq!(tables.pt.len(), 512);
    for i in 0..512u64 {
        let entry = tables.pt[i as usize];
        assert_eq!(entry, (i * 4096) | PRESENT | READ_WRITE);
        assert_eq!(entry & ADDRESS_MASK, i * 4096);
        assert_eq!(entry & 0xFFF, 0x003);
    }
    assert_eq!(tables.pt[511], 0x1FF003);
}

#[test]
fn upper_tables_have_one_present_entry() {
    let tables = load_page_tables(0x2000, 0x3000, 0x4000).unwrap();
    let levels = [(&tables.pml4t, 0x2000u64), (&tables.pdpt, 0x3000), (&tables.pdt, 0x4000)];
    for (table, next) in levels {
        assert_eq!(table.len(), 512);
        assert_eq!(table[0], next | 0x003);
        assert_eq!(table[0] & ADDRESS_MASK, next);
        let present = table.iter().filter(|e| **e & PRESENT != 0).count();
        assert_eq!(present, 1);
        for entry in &table[1..] {
            assert_eq!(*entry, READ_WRITE);
        }
    }
}

#[test]
fn table_addresses_must_fit_an_entry() {
    assert!(load_page_tables(0x2001, 0x3000, 0x4000).is_none());
    assert!(load_page_tables(0x2000, 0x3800, 0x4000).is_none());
    assert!(load_page_tables(0x2000, 0x3000, 0x10_0000_0000_0000).is_none());
    assert!(load_page_tables(0, 0, 0).is_some());
    let tables = load_page_tables(0xF_FFFF_FFFF_F000, 0x3000, 0x4000).unwrap();
    assert_eq!(tables.pml4t[0], 0xF_FFFF_FFFF_F003);
    assert_eq!(tables.pdpt_address, 0xF_FFFF_FFFF_F000);
}
