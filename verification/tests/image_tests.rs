use bootloader::image::{
    assert_sizes, check_int13, check_load, disk_image, load_sector, load_sector_failure,
    load_sectors, DiskError, ImageError,
};
use bootloader::layout::{STAGE_1_SECTIONS, STAGE_2_SECTIONS, STAGE_3_SECTIONS};

#[test]
fn test_images_correct_size() {
    let boot_0 = vec![0u8; 512];
    let boot_1 = vec![1u8; 512 * STAGE_1_SECTIONS];
    let boot_2 = vec![2u8; 512 * STAGE_2_SECTIONS];
    let boot_3 = vec![3u8; 512 * STAGE_3_SECTIONS];
    assert_sizes(boot_0.len(), boot_1.len(), boot_2.len(), boot_3.len()).unwrap();
}

#[test]
fn wrong_sizes_are_named_in_disk_order() {
    assert_eq!(assert_sizes(512, 1024, 8192, 16384), Ok(()));
    assert_eq!(assert_sizes(511, 1024, 8192, 16384), Err(ImageError::EntrySize));
    assert_eq!(assert_sizes(512, 1025, 8192, 16384), Err(ImageError::Stage1Size));
    assert_eq!(assert_sizes(512, 1024, 8191, 16384), Err(ImageError::Stage2Size));
    assert_eq!(assert_sizes(512, 1024, 8192, 0), Err(ImageError::Stage3Size));
    assert_eq!(assert_sizes(0, 0, 0, 0), Err(ImageError::EntrySize));
    assert_eq!(assert_sizes(512, 0, 0, 0), Err(ImageError::Stage1Size));
}

#[test]
fn image_is_the_stages_and_a_sector_of_zeros() {
    let boot_0 = vec![0xA0u8; 512];
    let boot_1 = vec![0xA1u8; 1024];
    let boot_2 = vec![0xA2u8; 8192];
    let boot_3 = vec![0xA3u8; 16384];
    let image = disk_image(&boot_0, &boot_1, &boot_2, &boot_3).unwrap();
    assert_eq!(image.len(), 52 * 512);
    assert_eq!(&image[..512], &boot_0[..]);
    assert_eq!(&image[512..1536], &boot_1[..]);
    assert_eq!(&image[1536..9728], &boot_2[..]);
    assert_eq!(&image[9728..26112], &boot_3[..]);
    assert_eq!(&image[26112..], &[0u8; 512][..]);
    assert_eq!(disk_image(&boot_0, &boot_1, &boot_2, &boot_2), Err(ImageError::Stage3Size));
}

#[test]
fn read_request_fetches_all_other_stages() {
    let request = load_sectors(0x0080);
    assert_eq!(request.sectors, 50);
    assert_eq!(request.to_address, 0x7e00);
    assert_eq!((request.cylinder, request.head, request.sector), (0, 0, 2));
    assert_eq!(request.drive, 0x80);
    assert_eq!(load_sectors(0x1234).drive, 0x34);
    assert_eq!(check_load(&request, 50, 0, false), Ok(()));
    assert_eq!(check_load(&request, 50, 1, false), Err(DiskError::ReadFailed));
    assert_eq!(check_load(&request, 50, 0, true), Err(DiskError::ReadFailed));
    assert_eq!(check_load(&request, 49, 0, false), Err(DiskError::SectorMismatch));
    assert_eq!(check_load(&request, 49, 4, true), Err(DiskError::ReadFailed));
    assert_eq!(check_int13(false), Ok(()));
    assert_eq!(check_int13(true), Err(DiskError::NoDiskService));
}

#[test]
fn disk_errors_have_their_codes() {
    assert_eq!(DiskError::NoDiskService.diagnostic(), "int13");
    assert_eq!(DiskError::ReadFailed.diagnostic(), "disk read");
    assert_eq!(DiskError::SectorMismatch.diagnostic(), "num sector mismatch");
}

fn shown(requests: Option<Vec<u16>>) -> Option<String> {
    requests.map(|all| all.iter().map(|r| (*r & 0xFF) as u8 as char).collect())
}

#[test]
fn entry_stage_reads_one_sector_and_reports_failures() {
    let request = load_sector(0x0080);
    assert_eq!(request.sectors, 1);
    assert_eq!(request.to_address, 0x7e00);
    assert_eq!((request.cylinder, request.head, request.sector), (0, 0, 2));
    assert_eq!(request.drive, 0x80);
    assert_eq!(load_sector_failure(&request, 1, 0, false), None);
    assert_eq!(
        shown(load_sector_failure(&request, 1, 0, true)),
        Some(String::from("Fail: D\r\n"))
    );
    assert_eq!(
        shown(load_sector_failure(&request, 0, 12, true)),
        Some(String::from("Fail: D\r\n"))
    );
    assert_eq!(
        shown(load_sector_failure(&request, 1, 128, false)),
        Some(String::from("128Fail: S\r\n"))
    );
    assert_eq!(
        shown(load_sector_failure(&request, 0, 0, false)),
        Some(String::from("1 0Fail: R\r\n"))
    );
    assert_eq!(
        shown(load_sector_failure(&load_sectors(0), 49, 0, false)),
        Some(String::from("50 49Fail: R\r\n"))
    );
    for request in load_sector_failure(&request, 1, 1, false).unwrap() {
        assert_eq!(request & 0xFF00, 0x0E00);
    }
}
