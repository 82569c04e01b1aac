use rp2040_flash::conf::Conf;
use rp2040_flash::flash::{flash_range_erase_and_program, FlashStep, XipRestorer};
use rp2040_flash::flash_sector::{
    check_placement, is_aligned, is_valid_placement, FlashSector, Payload, SectorError,
    FLASH_END_MAX, FLASH_ORIGIN, FLASH_SECTOR_SIZE,
};

#[test]
fn bytes_are_stored_as_they_are() {
    assert_eq!(<[u8; 3]>::size(), 3);
    assert_eq!([1u8, 2, 3].encode(), vec![1, 2, 3]);
    assert_eq!(<[u8; 3]>::decode(&[9, 8, 7]), [9, 8, 7]);
    assert_eq!(<[u8; 0]>::decode(&[]), []);
}

type Word = [u8; 2];
type Full = [u8; 4096];
type TooBig = [u8; 4097];

fn full_pattern() -> Full {
    let mut bytes = [0u8; 4096];
    for (i, byte) in bytes.iter_mut().enumerate() {
        *byte = (i % 256) as u8;
    }
    bytes
}

const CONF_ADDR: usize = 0x1000_0000 + 2 * 1024 * 1024 - 4096;

#[test]
fn window_constants() {
    assert_eq!(FLASH_ORIGIN, 0x1000_0000);
    assert_eq!(FLASH_END_MAX, FLASH_ORIGIN + 16 * 1024 * 1024);
    assert_eq!(FLASH_SECTOR_SIZE, 4096);
}

#[test]
fn default_sector_is_erased() {
    let sector: FlashSector<Conf> = FlashSector::default();
    assert_eq!(sector.data(), &[0xFFu8; 4096]);
}

#[test]
fn new_sector_holds_value_then_erased_fill() {
    let sector = FlashSector::new([0x12u8, 0x34]);
    assert_eq!(&sector.data()[..2], &[0x12, 0x34]);
    assert!(sector.data()[2..].iter().all(|b| *b == 0xFF));
    assert_eq!(sector.data().len(), 4096);
}

#[test]
fn value_put_in_is_value_read() {
    for word in [[0u8, 0], [0, 1], [0x55, 0xAA], [0xFF, 0xFF]] {
        assert_eq!(FlashSector::new(word).value(), word);
    }
    let full = full_pattern();
    assert_eq!(FlashSector::new(full).value(), full);
    assert_eq!(FlashSector::new(full).data(), &full);
    assert_eq!(FlashSector::new([7u8; 0]).data(), &[0xFFu8; 4096]);
    assert_eq!(FlashSector::new(Conf::new(77)).value(), Conf::new(77));
}

#[test]
fn payload_that_fills_the_sector_fits() {
    assert!(FlashSector::<Full>::payload_fits());
    assert!(FlashSector::<Word>::payload_fits());
    assert!(FlashSector::<Conf>::payload_fits());
    assert!(!FlashSector::<TooBig>::payload_fits());
}

#[test]
fn oversized_payload_is_refused() {
    assert!(matches!(FlashSector::try_new([0u8; 4097]), Err(SectorError::Oversized)));
    let stored = [0u8; 4096];
    assert!(matches!(
        FlashSector::<TooBig>::try_read(CONF_ADDR, &stored),
        Err(SectorError::Oversized)
    ));
    assert!(matches!(
        FlashSector::<TooBig>::try_read(1, &stored),
        Err(SectorError::Oversized)
    ));
    assert_eq!(FlashSector::<TooBig>::default().try_value(), Err(SectorError::Oversized));
    assert_eq!(FlashSector::new([3u8, 4]).try_value(), Ok([3u8, 4]));
    assert_eq!(FlashSector::<Word>::default().try_value(), Ok([0xFFu8, 0xFF]));
    assert!(FlashSector::try_new([0u8, 1]).is_ok());
    assert!(FlashSector::try_new(full_pattern()).is_ok());
}

#[test]
fn read_keeps_only_the_bytes_of_the_value() {
    let mut stored = [0x11u8; 4096];
    stored[0] = 0xBE;
    stored[1] = 0xEF;
    let sector: FlashSector<Word> = FlashSector::read(CONF_ADDR, &stored);
    assert_eq!(sector.value(), [0xBE, 0xEF]);
    assert_eq!(&sector.data()[..2], &[0xBE, 0xEF]);
    assert!(sector.data()[2..].iter().all(|b| *b == 0xFF));
}

#[test]
fn placement_is_checked_in_order() {
    assert_eq!(check_placement(FLASH_ORIGIN), None);
    assert_eq!(check_placement(FLASH_END_MAX - 4096), None);
    assert_eq!(check_placement(CONF_ADDR), None);
    assert_eq!(check_placement(0), Some(SectorError::OutOfRange));
    assert_eq!(check_placement(FLASH_ORIGIN - 4096), Some(SectorError::OutOfRange));
    assert_eq!(check_placement(FLASH_ORIGIN - 1), Some(SectorError::OutOfRange));
    assert_eq!(check_placement(FLASH_END_MAX - 4095), Some(SectorError::OutOfRange));
    assert_eq!(check_placement(FLASH_END_MAX), Some(SectorError::OutOfRange));
    assert_eq!(check_placement(usize::MAX), Some(SectorError::OutOfRange));
    assert_eq!(check_placement(FLASH_ORIGIN + 1), Some(SectorError::Misaligned));
    assert_eq!(check_placement(FLASH_ORIGIN + 256), Some(SectorError::Misaligned));
    assert_eq!(check_placement(FLASH_END_MAX - 4097), Some(SectorError::Misaligned));
    assert!(is_valid_placement(CONF_ADDR));
    assert!(!is_valid_placement(CONF_ADDR + 2048));
    assert!(!is_valid_placement(4096));
}

#[test]
fn misplaced_read_is_refused() {
    let stored = [0xFFu8; 4096];
    assert!(matches!(
        FlashSector::<Conf>::try_read(FLASH_ORIGIN + 8, &stored),
        Err(SectorError::Misaligned)
    ));
    assert!(matches!(
        FlashSector::<Conf>::try_read(FLASH_END_MAX, &stored),
        Err(SectorError::OutOfRange)
    ));
    assert!(matches!(
        FlashSector::<Conf>::try_read(0x2000_0000, &stored),
        Err(SectorError::OutOfRange)
    ));
    assert!(FlashSector::<Conf>::try_read(CONF_ADDR, &stored).is_ok());
}

#[test]
fn misplaced_write_is_refused() {
    let sector = FlashSector::new([0u8, 7]);
    assert_eq!(sector.try_write(FLASH_ORIGIN + 100), Err(SectorError::Misaligned));
    assert_eq!(sector.try_write(FLASH_ORIGIN - 4096), Err(SectorError::OutOfRange));
    assert_eq!(sector.try_write(FLASH_END_MAX), Err(SectorError::OutOfRange));
    assert_eq!(sector.try_write(CONF_ADDR), Ok(sector.write(CONF_ADDR)));
}

#[test]
fn write_replaces_the_whole_sector() {
    let sector = FlashSector::new([0xCAu8, 0xFE]);
    assert_eq!(
        sector.write(CONF_ADDR),
        vec![
            FlashStep::SnapshotLoader,
            FlashStep::ConnectInternalFlash,
            FlashStep::ExitXip,
            FlashStep::RangeErase {
                addr: 0x001F_F000,
                count: 4096,
                block_size: 0x8000_0000,
                block_cmd: 0
            },
            FlashStep::RangeProgram { addr: 0x001F_F000, count: 4096 },
            FlashStep::FlushCache,
            FlashStep::EnterCmdXip(XipRestorer::LoaderSnapshot),
        ]
    );
    assert_eq!(
        sector.write(FLASH_ORIGIN),
        flash_range_erase_and_program(0, sector.data(), true)
    );
    assert_eq!(
        sector.write(FLASH_END_MAX - 4096),
        flash_range_erase_and_program(0x00FF_F000, sector.data(), true)
    );
}

#[test]
fn alignment_to_powers_of_two() {
    assert!(is_aligned(0, 4096));
    assert!(is_aligned(8192, 4096));
    assert!(!is_aligned(8191, 4096));
    assert!(!is_aligned(2048, 4096));
    assert!(is_aligned(5, 1));
    assert!(is_aligned(6, 2));
    assert!(!is_aligned(7, 2));
    assert!(is_aligned(0x1000_0000, 0x1000_0000));
}
