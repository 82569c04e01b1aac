use rp2040_flash::chip::{FlashChip, FLASH_ERASED_VALUE};
use rp2040_flash::flash::{
    flash_range_erase, flash_range_erase_and_program, flash_range_program, FlashStep, XipRestorer,
};

fn patterned(size: usize) -> Vec<u8> {
    (0..size).map(|i| (i % 251) as u8).collect()
}

#[test]
fn new_chip_is_erased_and_readable() {
    let chip = FlashChip::new(8192);
    assert_eq!(chip.size(), 8192);
    assert!(chip.in_xip());
    assert_eq!(chip.read(0, 8192), Some(vec![0xFF; 8192]));
    assert_eq!(FLASH_ERASED_VALUE, 0xFF);
}

#[test]
fn read_is_bounded_by_the_chip() {
    let chip = FlashChip::from_bytes(patterned(4096));
    assert_eq!(chip.read(10, 3), Some(vec![10, 11, 12]));
    assert_eq!(chip.read(4096, 0), Some(vec![]));
    assert_eq!(chip.read(4095, 2), None);
    assert_eq!(chip.read(4097, 0), None);
    assert_eq!(chip.read(0xFFFF_FFFF, 0xFFFF_FFFF), None);
}

#[test]
fn nothing_can_be_read_outside_xip_mode() {
    let mut chip = FlashChip::new(4096);
    chip.apply(FlashStep::ExitXip, &[]);
    assert!(!chip.in_xip());
    assert_eq!(chip.read(0, 1), None);
    chip.apply(FlashStep::EnterCmdXip(XipRestorer::Rom), &[]);
    assert_eq!(chip.read(0, 1), Some(vec![0xFF]));
}

#[test]
fn erase_plan_erases_the_range_only() {
    let before = patterned(3 * 4096);
    let mut chip = FlashChip::from_bytes(before.clone());
    chip.run(&flash_range_erase(4096, 4096, false), &[]);
    assert!(chip.in_xip());
    let after = chip.read(0, 3 * 4096).unwrap();
    assert_eq!(&after[..4096], &before[..4096]);
    assert_eq!(&after[4096..8192], &[0xFFu8; 4096][..]);
    assert_eq!(&after[8192..], &before[8192..]);
}

#[test]
fn erase_and_program_plan_replaces_the_range() {
    let before = patterned(2 * 4096);
    let data: Vec<u8> = (0..4096).map(|i| (i % 7) as u8).collect();
    let mut chip = FlashChip::from_bytes(before.clone());
    chip.run(&flash_range_erase_and_program(4096, &data, true), &data);
    assert!(chip.in_xip());
    assert_eq!(chip.read(0, 4096).unwrap(), before[..4096].to_vec());
    assert_eq!(chip.read(4096, 4096).unwrap(), data);
}

#[test]
fn program_plan_only_clears_bits() {
    let mut mem = vec![0xFFu8; 512];
    mem[256] = 0xF0;
    mem[257] = 0x0F;
    mem[258] = 0x00;
    let mut data = vec![0xFFu8; 256];
    data[0] = 0x3C;
    data[1] = 0x3C;
    data[2] = 0xFF;
    data[3] = 0x12;
    let mut chip = FlashChip::from_bytes(mem);
    chip.run(&flash_range_program(256, &data, false), &data);
    let after = chip.read(256, 4).unwrap();
    assert_eq!(after, vec![0x30, 0x0C, 0x00, 0x12]);
    assert_eq!(chip.read(0, 256).unwrap(), vec![0xFF; 256]);
}

#[test]
fn erase_and_program_have_no_effect_in_xip_mode() {
    let before = patterned(4096);
    let data = vec![0u8; 4096];
    let mut chip = FlashChip::from_bytes(before.clone());
    chip.apply(
        FlashStep::RangeErase { addr: 0, count: 4096, block_size: 0x8000_0000, block_cmd: 0 },
        &[],
    );
    chip.apply(FlashStep::RangeProgram { addr: 0, count: 4096 }, &data);
    assert_eq!(chip.read(0, 4096).unwrap(), before);
}

#[test]
fn misaligned_steps_have_no_effect() {
    let before = patterned(8192);
    let data = vec![0u8; 256];
    let mut chip = FlashChip::from_bytes(before.clone());
    chip.apply(FlashStep::ExitXip, &[]);
    chip.apply(
        FlashStep::RangeErase { addr: 256, count: 4096, block_size: 0x8000_0000, block_cmd: 0 },
        &[],
    );
    chip.apply(FlashStep::RangeProgram { addr: 1, count: 256 }, &data);
    chip.apply(FlashStep::RangeProgram { addr: 0, count: 512 }, &data);
    chip.apply(FlashStep::EnterCmdXip(XipRestorer::Rom), &[]);
    assert_eq!(chip.read(0, 8192).unwrap(), before);
}

#[test]
fn erase_past_the_end_stops_at_the_end() {
    let mut chip = FlashChip::from_bytes(patterned(4096 + 100));
    chip.run(&flash_range_erase(4096, 8192, false), &[]);
    assert_eq!(chip.read(4096, 100).unwrap(), vec![0xFF; 100]);
    assert_eq!(chip.read(0, 4), Some(vec![0, 1, 2, 3]));
}

#[test]
fn loader_snapshot_restores_xip_only_if_taken() {
    let mut chip = FlashChip::new(4096);
    chip.apply(FlashStep::ConnectInternalFlash, &[]);
    chip.apply(FlashStep::ExitXip, &[]);
    chip.apply(FlashStep::FlushCache, &[]);
    chip.apply(FlashStep::EnterCmdXip(XipRestorer::LoaderSnapshot), &[]);
    assert!(!chip.in_xip());

    let mut chip = FlashChip::new(4096);
    chip.apply(FlashStep::SnapshotLoader, &[]);
    chip.apply(FlashStep::ExitXip, &[]);
    chip.apply(FlashStep::EnterCmdXip(XipRestorer::LoaderSnapshot), &[]);
    assert!(chip.in_xip());
}

#[test]
fn snapshot_cannot_be_taken_outside_xip_mode() {
    let mut chip = FlashChip::new(4096);
    chip.apply(FlashStep::ExitXip, &[]);
    chip.apply(FlashStep::SnapshotLoader, &[]);
    chip.apply(FlashStep::EnterCmdXip(XipRestorer::LoaderSnapshot), &[]);
    assert!(!chip.in_xip());
}

#[test]
fn run_of_no_steps_changes_nothing() {
    let before = patterned(4096);
    let mut chip = FlashChip::from_bytes(before.clone());
    chip.run(&[], &[]);
    assert!(chip.in_xip());
    assert_eq!(chip.read(0, 4096).unwrap(), before);
}
