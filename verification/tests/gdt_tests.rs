use bootloader::gdt::{
    build_table, extra_flags_long, extra_flags_protected, kernel_code_flags, kernel_data_flags,
    kernel_extra_flags, write_protected_gdt, AccessFlags, ExtraFlags, Gdt, GdtEntry, GdtPointer,
};
use bootloader::layout::GDT_START;

#[test]
fn descriptor_round_trip_reproduces_fields() {
    let cases: [(u32, u32, u8, u8); 5] = [
        (0, 0, 0, 0),
        (0x1234_5678, 0xABCDE, 0x9A, 0x0C),
        (0xFFFF_FFFF, 0xFFFFF, 0xFF, 0x0F),
        (0x8000_0001, 0x00001, 0x92, 0x0A),
        (0x00FF_00FF, 0x12345, 0x01, 0x08),
    ];
    for (base, limit, access, extra) in cases {
        let entry = GdtEntry::new(base, limit, AccessFlags(access), ExtraFlags(extra));
        let decoded = GdtEntry::from_bytes(&entry.bytes());
        assert_eq!(decoded, entry);
        assert_eq!(decoded.base(), base);
        assert_eq!(decoded.limit(), limit & 0xFFFFF);
        assert_eq!(decoded.access(), AccessFlags(access));
        assert_eq!(decoded.flags(), ExtraFlags(extra));
        assert_eq!(entry.bytes()[6] >> 4, extra);
    }
}

#[test]
fn limit_keeps_only_its_low_twenty_bits() {
    let entry = GdtEntry::new(0, 0xFFFF_FFFF, kernel_code_flags(), extra_flags_protected());
    assert_eq!(entry.limit(), 0xFFFFF);
    assert_eq!(entry, GdtEntry::code_32());
    let entry = GdtEntry::new(0, 0xABC1_2345, AccessFlags(0), ExtraFlags(0));
    assert_eq!(entry.limit(), 0x12345);
}

#[test]
fn flags_keep_only_their_low_nibble() {
    let entry = GdtEntry::new(0, 0, AccessFlags(0), ExtraFlags(0xFC));
    assert_eq!(entry.flags(), ExtraFlags(0x0C));
    assert_eq!(entry.limit(), 0);
}

#[test]
fn byte_layout_is_exact() {
    let entry = GdtEntry::new(0x1234_5678, 0xABCDE, AccessFlags(0x9A), ExtraFlags(0x0C));
    assert_eq!(entry.bytes(), [0xDE, 0xBC, 0x78, 0x56, 0x34, 0x9A, 0xCA, 0x12]);
    assert_eq!(entry.0, 0x12CA_9A34_5678_BCDE);
}

#[test]
fn canonical_descriptors_have_their_bytes() {
    assert_eq!(GdtEntry::null().bytes(), [0u8; 8]);
    assert_eq!(GdtEntry::code_32().bytes(), [0xFF, 0xFF, 0, 0, 0, 0x9A, 0xCF, 0]);
    assert_eq!(GdtEntry::data_32().bytes(), [0xFF, 0xFF, 0, 0, 0, 0x92, 0xCF, 0]);
    assert_eq!(GdtEntry::code_64().bytes(), [0xFF, 0xFF, 0, 0, 0, 0x9A, 0xAF, 0]);
    assert_eq!(GdtEntry::data_64().bytes(), [0xFF, 0xFF, 0, 0, 0, 0x92, 0xCF, 0]);
}

#[test]
fn flag_combinations_have_their_values() {
    assert_eq!(kernel_code_flags(), AccessFlags(0x9A));
    assert_eq!(kernel_data_flags(), AccessFlags(0x92));
    assert_eq!(kernel_extra_flags(), AccessFlags(0x0C));
    assert_eq!(extra_flags_protected(), ExtraFlags(0x0C));
    assert_eq!(extra_flags_long(), ExtraFlags(0x0A));
}

#[test]
fn flags_nibble_is_validated() {
    assert_eq!(ExtraFlags::from_bits(0x0C), Some(ExtraFlags(0x0C)));
    assert_eq!(ExtraFlags::from_bits(0x0A), Some(ExtraFlags(0x0A)));
    assert_eq!(ExtraFlags::from_bits(0x00), Some(ExtraFlags(0x00)));
    assert_eq!(ExtraFlags::from_bits(0x06), None);
    assert_eq!(ExtraFlags::from_bits(0x0E), None);
    assert_eq!(ExtraFlags::from_bits(0x10), None);
    assert_eq!(ExtraFlags::from_bits(0xFF), None);
}

#[test]
fn flat_segments_cover_four_gibibytes() {
    assert_eq!(GdtEntry::code_32().base(), 0);
    assert_eq!(GdtEntry::code_32().last_offset(), 0xFFFF_FFFF);
    assert_eq!(GdtEntry::data_32().last_offset(), 0xFFFF_FFFF);
    let bytes_counted = GdtEntry::new(0, 0x1234, AccessFlags(0x92), ExtraFlags(0x04));
    assert_eq!(bytes_counted.last_offset(), 0x1234);
    let pages_counted = GdtEntry::new(0, 0x1234, AccessFlags(0x92), ExtraFlags(0x0C));
    assert_eq!(pages_counted.last_offset(), 0x1234_FFF);
}

#[test]
fn three_entry_table_has_pointer_size_23() {
    let entries = vec![
        GdtEntry::null(),
        GdtEntry::new(0x10, 0x20, AccessFlags(0x9A), ExtraFlags(0x04)),
        GdtEntry::new(0x30, 0x40, AccessFlags(0x92), ExtraFlags(0x04)),
    ];
    let (bytes, pointer) = build_table(&entries, 0x800).unwrap();
    assert_eq!(bytes.len(), 24);
    assert_eq!(pointer.limit, 23);
    assert_eq!(pointer.limit as usize, bytes.len() - 1);
    assert_eq!(pointer.base, 0x800);
    assert_eq!(&bytes[0..8], &entries[0].bytes());
    assert_eq!(&bytes[8..16], &entries[1].bytes());
    assert_eq!(&bytes[16..24], &entries[2].bytes());
}

#[test]
fn table_size_is_length_minus_one() {
    for n in [1usize, 2, 5, 100, 8192] {
        let entries = vec![GdtEntry::code_32(); n];
        let (bytes, pointer) = build_table(&entries, 0).unwrap();
        assert_eq!(bytes.len(), 8 * n);
        assert_eq!(pointer.limit as usize, 8 * n - 1);
    }
}

#[test]
fn table_rejects_impossible_lengths() {
    assert!(build_table(&Vec::new(), 0).is_none());
    assert!(build_table(&vec![GdtEntry::null(); 8193], 0).is_none());
    assert!(build_table(&vec![GdtEntry::null(); 8192], 0).is_some());
}

#[test]
fn protected_mode_table_end_to_end() {
    let table = Gdt::protected_mode();
    let (bytes, pointer) = table.image(GDT_START as u64);
    assert_eq!(bytes.len(), 24);
    assert_eq!(pointer.limit, 23);
    assert_eq!(pointer.base, GDT_START as u64);
    let expected: [u8; 24] = [
        0, 0, 0, 0, 0, 0, 0, 0, 0xFF, 0xFF, 0, 0, 0, 0x9A, 0xCF, 0, 0xFF, 0xFF, 0, 0, 0, 0x92,
        0xCF, 0,
    ];
    assert_eq!(bytes, expected.to_vec());
    let code = GdtEntry::from_bytes(&[0xFF, 0xFF, 0, 0, 0, 0x9A, 0xCF, 0]);
    assert_eq!(code.limit(), 0xFFFFF);
    assert_eq!(code.flags().0 & 0x08, 0x08);
}

#[test]
fn long_mode_table_has_a_64_bit_code_segment() {
    let table = Gdt::long_mode();
    assert_eq!(table.null, GdtEntry::null());
    assert_eq!(table.code.flags(), ExtraFlags(0x0A));
    assert_eq!(table.code.access(), AccessFlags(0x9A));
    assert_eq!(table.data.access(), AccessFlags(0x92));
    let (bytes, pointer) = table.image(0x5010);
    assert_eq!(bytes.len(), 24);
    assert_eq!(pointer.limit, 23);
}

#[test]
fn written_protected_table_is_the_canonical_one() {
    let image = write_protected_gdt(0x100);
    assert_eq!(image.bytes, Gdt::protected_mode().image(0x100).0);
    assert_eq!(image.pointer, GdtPointer { limit: 23, base: 0x100 });
    assert_eq!(image.padded_len, 24);
}

#[test]
fn pointer_images_are_little_endian() {
    let pointer = GdtPointer { limit: 0x0017, base: 0x1122_3344_5566_7788 };
    assert_eq!(
        pointer.bytes_64(),
        [0x17, 0x00, 0x88, 0x77, 0x66, 0x55, 0x44, 0x33, 0x22, 0x11]
    );
    assert_eq!(pointer.bytes_32(), None);
    let pointer = GdtPointer { limit: 0x1234, base: 0x5010 };
    assert_eq!(pointer.bytes_32(), Some([0x34, 0x12, 0x10, 0x50, 0x00, 0x00]));
    assert_eq!(&pointer.bytes_64()[0..6], &pointer.bytes_32().unwrap());
}

#[test]
fn table_load_names_the_table_and_leaves_it() {
    let table = Gdt::protected_mode();
    let before = table;
    let pointer = table.load(GDT_START as u64);
    assert_eq!(pointer, GdtPointer { limit: 23, base: GDT_START as u64 });
    assert_eq!(table, before);
    assert_eq!(pointer, table.image(GDT_START as u64).1);
    assert_eq!(Gdt::long_mode().load(0xFFFF_FFFF_0000).base, 0xFFFF_FFFF_0000);
}
