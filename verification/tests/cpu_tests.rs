use bootloader::cpu::{
    cpuid_probe, enable_a20, has_cpuid, has_extended_leaves, has_long_mode, set_bits,
    CR0_PAGING, CR0_PROTECTION_ENABLE, CR4_PAE, EFER_LONG_MODE_ENABLE,
};

#[test]
fn a20_gate_is_opened_only_when_closed() {
    assert_eq!(enable_a20(0x02), None);
    assert_eq!(enable_a20(0x03), None);
    assert_eq!(enable_a20(0x00), Some(0x02));
    assert_eq!(enable_a20(0x01), Some(0x02));
    assert_eq!(enable_a20(0xF0), Some(0xF2));
    assert_eq!(enable_a20(0xFD), Some(0xFE));
    for value in 0..=255u8 {
        match enable_a20(value) {
            None => assert_eq!(value & 2, 2),
            Some(written) => {
                assert_eq!(written & 2, 2);
                assert_eq!(written & 1, 0);
                assert_eq!(written & 0xFC, value & 0xFC);
            }
        }
    }
}

#[test]
fn cpuid_is_found_by_the_toggled_bit() {
    assert_eq!(cpuid_probe(0x0000_0202), 0x0020_0202);
    assert_eq!(cpuid_probe(0x0020_0202), 0x0000_0202);
    assert!(has_cpuid(0x202, cpuid_probe(0x202)));
    assert!(!has_cpuid(0x202, 0x202));
    assert!(!has_cpuid(0x202, 0x203));
    assert!(has_cpuid(0x0020_0000, 0));
}

#[test]
fn long_mode_needs_leaf_and_bit() {
    assert!(has_long_mode(0x8000_0001, 0x2000_0000));
    assert!(has_long_mode(0x8000_001F, 0xFFFF_FFFF));
    assert!(!has_long_mode(0x8000_0000, 0x2000_0000));
    assert!(!has_long_mode(0x8000_0001, 0xDFFF_FFFF));
    assert!(!has_long_mode(0, 0x2000_0000));
    assert!(has_extended_leaves(0x8000_0001));
    assert!(!has_extended_leaves(0x8000_0000));
}

#[test]
fn mode_bits_are_set_alone() {
    assert_eq!(set_bits(0x0000_0010, CR0_PROTECTION_ENABLE), 0x0000_0011);
    assert_eq!(set_bits(0x0000_0011, CR0_PROTECTION_ENABLE), 0x0000_0011);
    assert_eq!(set_bits(0, CR4_PAE), 0x20);
    assert_eq!(set_bits(0x0000_0690, CR4_PAE), 0x0000_06B0);
    assert_eq!(set_bits(0x0000_0001, EFER_LONG_MODE_ENABLE), 0x0000_0101);
    assert_eq!(set_bits(0x0000_0011, CR0_PAGING), 0x8000_0011);
}
