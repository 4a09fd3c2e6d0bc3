use bootloader::vbe::{
    check_vbe_ax, get_best_mode, get_modes, linear_address, set_best_vbe_mode, set_mode_request,
    Candidate, FramebufferInfo, VbeError, VesaVbeBlockDef, VesaVbeModeDef,
};

fn mode(width: u16, height: u16, depth: u8) -> VesaVbeModeDef {
    VesaVbeModeDef {
        mode_attributes: 0x00BB,
        bytes_per_scan_line: width * (depth as u16 / 8),
        width,
        height,
        bits_per_pixel: depth,
        memory_model: 6,
        framebuffer: 0xFD00_0000,
    }
}

fn offered(mode_id: u16, def: VesaVbeModeDef) -> Candidate {
    Candidate { mode_id, def }
}

fn controller_block() -> Vec<u8> {
    let mut block = vec![0u8; 512];
    block[0..4].copy_from_slice(&[0x56, 0x45, 0x53, 0x41]);
    block[4..6].copy_from_slice(&[0x00, 0x03]);
    block[10..14].copy_from_slice(&[1, 0, 0, 0]);
    block[14..18].copy_from_slice(&[0x22, 0x00, 0x00, 0xC0]);
    block[18..20].copy_from_slice(&[0x00, 0x01]);
    block
}

#[test]
fn closest_mode_wins() {
    let a = offered(0x118, mode(1280, 720, 24));
    let b = offered(0x119, mode(1280, 800, 24));
    let chosen = get_best_mode(1280, 720, Some(24), &vec![a, b]).unwrap();
    assert_eq!(chosen.mode_id, 0x118);
    assert_eq!((chosen.width, chosen.height, chosen.bits_per_pixel), (1280, 720, 24));
    let chosen = get_best_mode(1280, 720, Some(24), &vec![b, a]).unwrap();
    assert_eq!(chosen.mode_id, 0x118);
    let again = get_best_mode(1280, 720, Some(24), &vec![b, a]).unwrap();
    assert_eq!(chosen, again);
}

#[test]
fn residual_adds_both_distances() {
    let near = offered(1, mode(1000, 700, 24));
    let nearer = offered(2, mode(1300, 760, 24));
    let chosen = get_best_mode(1280, 720, Some(24), &vec![near, nearer]).unwrap();
    assert_eq!(chosen.mode_id, 2);
    let wide = offered(3, mode(65535, 65535, 24));
    let chosen = get_best_mode(0, 0, Some(24), &vec![wide]).unwrap();
    assert_eq!(chosen.mode_id, 3);
}

#[test]
fn ties_go_to_the_first_candidate() {
    let above = offered(0x10, mode(1280, 760, 24));
    let below = offered(0x11, mode(1280, 680, 24));
    let chosen = get_best_mode(1280, 720, Some(24), &vec![above, below]).unwrap();
    assert_eq!(chosen.mode_id, 0x10);
    let chosen = get_best_mode(1280, 720, Some(24), &vec![below, above]).unwrap();
    assert_eq!(chosen.mode_id, 0x11);
    let twin = offered(0x12, mode(1280, 760, 24));
    let chosen = get_best_mode(1280, 720, Some(24), &vec![above, twin, below]).unwrap();
    assert_eq!(chosen.mode_id, 0x10);
}

#[test]
fn depth_is_matched_only_when_wanted() {
    let deep = offered(1, mode(1280, 720, 32));
    let shallow = offered(2, mode(640, 480, 24));
    let chosen = get_best_mode(1280, 720, Some(24), &vec![deep, shallow]).unwrap();
    assert_eq!(chosen.mode_id, 2);
    let chosen = get_best_mode(1280, 720, None, &vec![deep, shallow]).unwrap();
    assert_eq!(chosen.mode_id, 1);
    assert_eq!(
        get_best_mode(1280, 720, Some(16), &vec![deep, shallow]),
        Err(VbeError::NoModeFound)
    );
}

#[test]
fn unusable_modes_never_win() {
    let mut text = mode(1280, 720, 24);
    text.mode_attributes = 0x00AB;
    let mut banked = mode(1280, 720, 24);
    banked.mode_attributes = 0x003B;
    let mut planar = mode(1280, 720, 24);
    planar.memory_model = 3;
    let mut absent = mode(1280, 720, 24);
    absent.mode_attributes = 0x00BA;
    let mut vga = mode(1280, 720, 24);
    vga.mode_attributes = 0x009B;
    let candidates = vec![
        offered(1, text),
        offered(2, banked),
        offered(3, planar),
        offered(4, absent),
        offered(5, vga),
    ];
    assert_eq!(get_best_mode(1280, 720, Some(24), &candidates), Err(VbeError::NoModeFound));
    assert_eq!(get_best_mode(1280, 720, Some(24), &Vec::new()), Err(VbeError::NoModeFound));
    let mut packed = mode(320, 200, 24);
    packed.memory_model = 4;
    let mut with_good = candidates.clone();
    with_good.push(offered(6, packed));
    assert_eq!(get_best_mode(1280, 720, Some(24), &with_good).unwrap().mode_id, 6);
}

#[test]
fn mode_is_described_for_drawing() {
    let def = mode(1280, 720, 24);
    assert_eq!(
        FramebufferInfo::from_mode(0x118, &def),
        Ok(FramebufferInfo {
            mode_id: 0x118,
            bytes_per_scan_line: 3840,
            width: 1280,
            height: 720,
            bits_per_pixel: 24,
            framebuffer: 0xFD00_0000,
        })
    );
    let mut bad = def;
    bad.memory_model = 0;
    assert_eq!(FramebufferInfo::from_mode(0x118, &bad), Err(VbeError::ModeNotGood));
    assert!(def.is_usable());
    assert!(!bad.is_usable());
}

#[test]
fn controller_block_is_validated_in_order() {
    let block = controller_block();
    let parsed = VesaVbeBlockDef::new(0x004f, &block).unwrap();
    assert_eq!(
        parsed,
        VesaVbeBlockDef {
            signature: 0x4153_4556,
            version: 0x0300,
            capabilities: 1,
            video_mode_ptr: 0xC000_0022,
            total_memory: 0x0100,
        }
    );
    assert_eq!(parsed.check(), Ok(()));

    let mut wrong = controller_block();
    wrong[3] = 0x42;
    wrong[5] = 0x02;
    wrong[10] = 3;
    assert_eq!(VesaVbeBlockDef::new(0x004f, &wrong), Err(VbeError::SignatureNotValid));
    wrong[3] = 0x41;
    assert_eq!(VesaVbeBlockDef::new(0x004f, &wrong), Err(VbeError::NotVerson3));
    wrong[5] = 0x03;
    assert_eq!(VesaVbeBlockDef::new(0x004f, &wrong), Err(VbeError::BadCapabilities));
    wrong[10] = 1;
    assert!(VesaVbeBlockDef::new(0x004f, &wrong).is_ok());

    assert_eq!(VesaVbeBlockDef::new(0x014f, &block), Err(VbeError::CallFailed));
    assert_eq!(VesaVbeBlockDef::new(0x004e, &block), Err(VbeError::CallFailed));
    assert_eq!(VesaVbeBlockDef::new(0x004f, &block[..511]), Err(VbeError::BadBlockSize));
    assert_eq!(VesaVbeBlockDef::from_bytes(&block[..100]), None);
}

#[test]
fn mode_block_is_read_at_its_offsets() {
    let mut block = vec![0u8; 256];
    block[0..2].copy_from_slice(&0x00BBu16.to_le_bytes());
    block[16..18].copy_from_slice(&3840u16.to_le_bytes());
    block[18..20].copy_from_slice(&1280u16.to_le_bytes());
    block[20..22].copy_from_slice(&720u16.to_le_bytes());
    block[25] = 24;
    block[27] = 6;
    block[40..44].copy_from_slice(&0xFD00_0000u32.to_le_bytes());
    assert_eq!(VesaVbeModeDef::from_bytes(0x004f, &block), Ok(mode(1280, 720, 24)));
    assert_eq!(VesaVbeModeDef::from_bytes(0x034f, &block), Err(VbeError::CallFailed));
    assert_eq!(VesaVbeModeDef::from_bytes(0x004f, &block[..255]), Err(VbeError::BadBlockSize));
}

#[test]
fn status_is_success_only_as_004f() {
    assert_eq!(check_vbe_ax(0x004f), Ok(()));
    assert_eq!(check_vbe_ax(0x014f), Err(VbeError::CallFailed));
    assert_eq!(check_vbe_ax(0x0000), Err(VbeError::CallFailed));
    assert_eq!(check_vbe_ax(0x4f00), Err(VbeError::CallFailed));
}

#[test]
fn mode_list_ends_at_its_marker() {
    assert_eq!(get_modes(&[0x100, 0x101, 0x118, 0xFFFF, 0x300]), Ok(vec![0x100, 0x101, 0x118]));
    assert_eq!(get_modes(&[0xFFFF]), Ok(Vec::new()));
    assert_eq!(get_modes(&[]), Err(VbeError::ListUnterminated));
    assert_eq!(get_modes(&[0x100, 0x101]), Err(VbeError::ListUnterminated));
    let mut long = vec![0x100u16; 256];
    long.push(0xFFFF);
    assert_eq!(get_modes(&long), Err(VbeError::ListUnterminated));
    long[255] = 0xFFFF;
    assert_eq!(get_modes(&long).unwrap().len(), 255);
}

#[test]
fn chosen_mode_is_set_with_the_linear_bit() {
    let chosen = FramebufferInfo::from_mode(0x0118, &mode(1280, 720, 24)).unwrap();
    let request = set_mode_request(&chosen);
    assert_eq!(request.ax, 0x4f02);
    assert_eq!(request.bx, 0x4118);
    assert_eq!(set_best_vbe_mode(0x004f, chosen), Ok(chosen));
    assert_eq!(set_best_vbe_mode(0x024f, chosen), Err(VbeError::CallFailed));
}

#[test]
fn far_pointers_become_linear() {
    assert_eq!(linear_address(0xC000, 0x0022), 0xC0022);
    assert_eq!(linear_address(0xFFFF, 0xFFFF), 0x10FFEF);
    assert_eq!(linear_address(0, 0), 0);
}

#[test]
fn negotiation_errors_have_their_texts() {
    assert_eq!(VbeError::ModeNotGood.diagnostic(), "VBE mode not usable");
    assert_eq!(VbeError::SignatureNotValid.diagnostic(), "VBE signature not valid");
    assert_eq!(VbeError::NotVerson3.diagnostic(), "VBE version is not 3.0");
    assert_eq!(VbeError::BadCapabilities.diagnostic(), "VBE capabilities not as expected");
    assert_eq!(VbeError::CallFailed.diagnostic(), "VBE call failed");
    assert_eq!(VbeError::BadBlockSize.diagnostic(), "VBE block has the wrong size");
    assert_eq!(VbeError::ListUnterminated.diagnostic(), "Didn't hit end of modes list");
    assert_eq!(VbeError::NoModeFound.diagnostic(), "no VBE modes found");
}

#[test]
fn mode_check_agrees_with_usability() {
    let good = mode(640, 480, 24);
    assert_eq!(good.check(), Ok(()));
    let mut bad = good;
    bad.mode_attributes = 0;
    assert_eq!(bad.check(), Err(VbeError::ModeNotGood));
}
