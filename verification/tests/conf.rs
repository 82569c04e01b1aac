use rp2040_flash::chip::FlashChip;
use rp2040_flash::conf::{
    confirm_persisted, increment_and_persist, read_or_default, Conf, ConfState, CONF_SIZE,
    VALIDITY_MARKER,
};
use rp2040_flash::flash_sector::{FlashSector, Payload, FLASH_ORIGIN};

const CHIP_SIZE: usize = 64 * 1024;
const CONF_ADDR: usize = FLASH_ORIGIN + CHIP_SIZE - 4096;
const CONF_OFFSET: u32 = (CHIP_SIZE - 4096) as u32;

fn read_sector(chip: &FlashChip) -> FlashSector<Conf> {
    let bytes = chip.read(CONF_OFFSET, 4096).unwrap();
    let mut stored = [0u8; 4096];
    stored.copy_from_slice(&bytes);
    FlashSector::read(CONF_ADDR, &stored)
}

fn boot(chip: &mut FlashChip) -> Conf {
    let conf = read_or_default(&read_sector(chip));
    let (sector, steps) = increment_and_persist(conf, CONF_ADDR);
    chip.run(&steps, sector.data());
    confirm_persisted(&read_sector(chip)).unwrap()
}

#[test]
fn marker_and_size() {
    assert_eq!(VALIDITY_MARKER, 0x55);
    assert_eq!(CONF_SIZE, 5);
    assert_eq!(Conf::size(), 5);
}

#[test]
fn new_record_is_valid() {
    let conf = Conf::new(42);
    assert!(conf.is_valid());
    assert_eq!(conf.boot_counter(), 42);
    assert_eq!(conf, Conf { validity: 0x55, boot_counter: 42 });
}

#[test]
fn default_record_is_valid_with_zero_counter() {
    let conf = Conf::default();
    assert!(conf.is_valid());
    assert_eq!(conf.boot_counter(), 0);
    assert_eq!(conf, Conf::new(0));
}

#[test]
fn valid_keeps_a_valid_record() {
    assert_eq!(Conf::new(9).valid(), Conf::new(9));
    assert_eq!(Conf::new(u32::MAX).valid(), Conf::new(u32::MAX));
}

#[test]
fn valid_replaces_an_invalid_record_by_the_default() {
    for marker in [0x00u8, 0x54, 0x56, 0xAA, 0xFF] {
        let conf = Conf { validity: marker, boot_counter: 1234 };
        assert!(!conf.is_valid());
        assert_eq!(conf.valid(), Conf { validity: 0x55, boot_counter: 0 });
    }
}

#[test]
fn stored_form_is_marker_then_counter_low_byte_first() {
    assert_eq!(Conf::new(0x0102_0304).encode(), vec![0x55, 0x04, 0x03, 0x02, 0x01]);
    assert_eq!(Conf::new(0).encode(), vec![0x55, 0, 0, 0, 0]);
    assert_eq!(Conf::new(1).encode(), vec![0x55, 1, 0, 0, 0]);
    assert_eq!(Conf::new(256).encode(), vec![0x55, 0, 1, 0, 0]);
    assert_eq!(Conf::new(u32::MAX).encode(), vec![0x55, 0xFF, 0xFF, 0xFF, 0xFF]);
    assert_eq!(
        Conf { validity: 0x12, boot_counter: 0xDEAD_BEEF }.encode(),
        vec![0x12, 0xEF, 0xBE, 0xAD, 0xDE]
    );
}

#[test]
fn stored_form_is_read_back() {
    assert_eq!(Conf::decode(&[0x55, 0x04, 0x03, 0x02, 0x01]), Conf::new(0x0102_0304));
    assert_eq!(
        Conf::decode(&[0xFF, 0xFF, 0xFF, 0xFF, 0xFF]),
        Conf { validity: 0xFF, boot_counter: u32::MAX }
    );
    assert_eq!(Conf::decode(&[0, 0, 0, 0, 0x80]), Conf { validity: 0, boot_counter: 0x8000_0000 });
    for counter in [0u32, 1, 255, 256, 65535, 65536, 0x00FF_FFFF, 0x0100_0000, u32::MAX] {
        assert_eq!(Conf::decode(&Conf::new(counter).encode()), Conf::new(counter));
    }
}

#[test]
fn erased_sector_reports_invalid() {
    let sector: FlashSector<Conf> = FlashSector::default();
    let conf = sector.value();
    assert!(!conf.is_valid());
    assert_eq!(conf.validity, 0xFF);
    assert_eq!(conf.valid(), Conf { validity: 0x55, boot_counter: 0 });
    assert_eq!(read_or_default(&sector), Conf { validity: 0x55, boot_counter: 0 });
    assert_eq!(confirm_persisted(&sector), None);
    assert_eq!(ConfState::observe(&conf), ConfState::Default);
}

#[test]
fn written_record_reads_back_valid() {
    for counter in [0u32, 1, 4294967295] {
        let sector = FlashSector::new(Conf::new(counter));
        let conf = sector.value();
        assert!(conf.is_valid());
        assert_eq!(conf.boot_counter(), counter);
    }
}

#[test]
fn written_record_reads_back_valid_from_flash() {
    for counter in [0u32, 1, 4294967295] {
        let mut chip = FlashChip::new(CHIP_SIZE);
        let sector = FlashSector::new(Conf::new(counter));
        chip.run(&sector.write(CONF_ADDR), sector.data());
        let conf = read_sector(&chip).value();
        assert!(conf.is_valid());
        assert_eq!(conf.boot_counter(), counter);
        assert_eq!(confirm_persisted(&read_sector(&chip)), Some(Conf::new(counter)));
    }
}

#[test]
fn record_states() {
    assert_eq!(ConfState::observe(&Conf::new(3)), ConfState::Valid(3));
    assert_eq!(ConfState::observe(&Conf::new(0)), ConfState::Valid(0));
    assert_eq!(
        ConfState::observe(&Conf { validity: 0, boot_counter: 3 }),
        ConfState::Default
    );
    assert_eq!(ConfState::Unknown.record(), None);
    assert_eq!(ConfState::Valid(3).record(), Some(Conf::new(3)));
    assert_eq!(ConfState::Default.record(), Some(Conf::new(0)));
}

#[test]
fn increment_builds_the_next_record() {
    let (sector, steps) = increment_and_persist(Conf::new(41), CONF_ADDR);
    assert_eq!(sector.value(), Conf::new(42));
    assert_eq!(steps, sector.write(CONF_ADDR));
    let (sector, _) = increment_and_persist(Conf::new(u32::MAX - 1), CONF_ADDR);
    assert_eq!(sector.value(), Conf::new(u32::MAX));
}

#[test]
fn increment_of_an_invalid_record_starts_from_the_default() {
    let stale = Conf { validity: 0xFF, boot_counter: 0xFFFF_FFFF };
    let (sector, _) = increment_and_persist(stale, CONF_ADDR);
    assert_eq!(sector.value(), Conf::new(1));
}

#[test]
fn boot_cycles_count_up_from_an_erased_sector() {
    let mut chip = FlashChip::new(CHIP_SIZE);
    assert_eq!(read_or_default(&read_sector(&chip)).boot_counter(), 0);
    for boots in 1..=20u32 {
        let conf = boot(&mut chip);
        assert!(conf.is_valid());
        assert_eq!(conf.boot_counter(), boots);
        assert!(chip.in_xip());
    }
    assert_eq!(read_or_default(&read_sector(&chip)).boot_counter(), 20);
}

#[test]
fn boot_cycles_leave_the_rest_of_flash_alone() {
    let mut mem = vec![0xFFu8; CHIP_SIZE];
    for (i, byte) in mem.iter_mut().enumerate().take(CHIP_SIZE - 4096) {
        *byte = (i % 253) as u8;
    }
    let mut chip = FlashChip::from_bytes(mem.clone());
    for _ in 0..3 {
        boot(&mut chip);
    }
    assert_eq!(chip.read(0, CONF_OFFSET).unwrap(), mem[..CHIP_SIZE - 4096].to_vec());
    assert_eq!(&chip.read(CONF_OFFSET, 5).unwrap(), &[0x55, 3, 0, 0, 0]);
    assert_eq!(chip.read(CONF_OFFSET + 5, 4091).unwrap(), vec![0xFF; 4091]);
}

#[test]
fn end_to_end_from_erased_flash() {
    let mut chip = FlashChip::new(CHIP_SIZE);
    assert_eq!(chip.read(CONF_OFFSET, 4096).unwrap(), vec![0xFF; 4096]);

    let stored = read_sector(&chip).value();
    assert!(!stored.is_valid());
    let conf = stored.valid();
    assert_eq!(conf.boot_counter(), 0);

    let next = Conf::new(conf.boot_counter() + 1);
    assert_eq!(next, Conf { validity: 0x55, boot_counter: 1 });
    let sector = FlashSector::new(next);
    chip.run(&sector.write(CONF_ADDR), sector.data());

    let read_back = read_sector(&chip).value();
    assert!(read_back.is_valid());
    assert_eq!(read_back.boot_counter(), 1);
}

#[test]
fn corrupted_marker_falls_back_to_default() {
    let mut chip = FlashChip::new(CHIP_SIZE);
    for _ in 0..5 {
        boot(&mut chip);
    }
    let mut mem = chip.read(0, CHIP_SIZE as u32).unwrap();
    mem[CHIP_SIZE - 4096] = 0x54;
    let mut chip = FlashChip::from_bytes(mem);
    assert_eq!(confirm_persisted(&read_sector(&chip)), None);
    assert_eq!(read_or_default(&read_sector(&chip)), Conf::new(0));
    assert_eq!(boot(&mut chip), Conf::new(1));
}
