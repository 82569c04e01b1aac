//! The configuration record: a boot counter guarded by a validity marker.
//!
//! The record lives in one flash sector. Its first byte is a marker that a
//! written record always carries and that erased flash never shows, so a
//! sector that was never written, or lost its contents, is told apart from a
//! record whose counter really is zero.

use vstd::prelude::*;
use crate::chip::ChipModel;
use crate::flash::{erase_and_program_plan, FlashStep};
use crate::flash_sector::{
    erased_sector, flash_offset, holds_sector, law_write_then_read, overlay, sector_at,
    valid_placement, value_of, FlashSector, Payload, FLASH_SECTOR_SIZE,
};

verus! {

/// The marker of a record that was written on purpose.
pub const VALIDITY_MARKER: u8 = 0x55;

/// Number of bytes of a stored record: the marker, then the counter, least
/// significant byte first.
pub const CONF_SIZE: usize = 5;

/// The configuration record.
#[derive(Clone, Copy, Debug, PartialEq, Eq, Structural)]
pub struct Conf {
    /// [`VALIDITY_MARKER`] in a record that was written on purpose.
    pub validity: u8,
    /// Number of boots counted so far.
    pub boot_counter: u32,
}

/// The four bytes of a counter, least significant first.
pub open spec fn counter_bytes(counter: u32) -> Seq<u8> {
    seq![
        (counter % 0x100) as u8,
        (counter / 0x100 % 0x100) as u8,
        (counter / 0x1_0000 % 0x100) as u8,
        (counter / 0x100_0000) as u8,
    ]
}

/// The counter that four bytes stand for, least significant first.
pub open spec fn counter_value(bytes: Seq<u8>) -> u32 {
    (bytes[0] + bytes[1] * 0x100 + bytes[2] * 0x1_0000 + bytes[3] * 0x100_0000) as u32
}

/// The record that a consumer works with in place of `conf`: `conf` itself if
/// it is valid, the default record otherwise.
pub open spec fn valid_or_default(conf: Conf) -> Conf {
    if conf.validity == VALIDITY_MARKER {
        conf
    } else {
        Conf { validity: VALIDITY_MARKER, boot_counter: 0 }
    }
}

impl Default for Conf {
    /// A valid record that has counted no boot.
    fn default() -> (conf: Self)
        ensures
            conf == (Conf { validity: VALIDITY_MARKER, boot_counter: 0 }),
    {
        Conf { validity: VALIDITY_MARKER, boot_counter: 0 }
    }
}

impl Conf {
    /// A valid record with the given counter.
    pub fn new(counter: u32) -> (conf: Self)
        ensures
            conf == (Conf { validity: VALIDITY_MARKER, boot_counter: counter }),
    {
        Conf { validity: VALIDITY_MARKER, boot_counter: counter }
    }

    /// Whether the record carries the marker.
    pub fn is_valid(&self) -> (valid: bool)
        ensures
            valid == (self.validity == VALIDITY_MARKER),
    {
        self.validity == VALIDITY_MARKER
    }

    /// The record itself if it is valid, the default record otherwise.
    pub fn valid(self) -> (conf: Self)
        ensures
            conf == valid_or_default(self),
    {
        if self.is_valid() {
            self
        } else {
            Conf::default()
        }
    }

    /// Number of boots counted so far.
    pub fn boot_counter(&self) -> (counter: u32)
        ensures
            counter == self.boot_counter,
    {
        self.boot_counter
    }
}

impl Payload for Conf {
    open spec fn layout_size() -> nat {
        CONF_SIZE as nat
    }

    open spec fn to_bytes(&self) -> Seq<u8> {
        seq![self.validity] + counter_bytes(self.boot_counter)
    }

    open spec fn from_bytes(bytes: Seq<u8>) -> Self {
        Conf { validity: bytes[0], boot_counter: counter_value(bytes.subrange(1, 5)) }
    }

    proof fn lemma_layout(value: Self) {
        let stored = value.to_bytes();
        assert(stored.subrange(1, 5) =~= counter_bytes(value.boot_counter));
    }

    fn size() -> (size: usize) {
        CONF_SIZE
    }

    fn encode(&self) -> (bytes: Vec<u8>) {
        let counter = self.boot_counter;
        let mut bytes: Vec<u8> = Vec::new();
        bytes.push(self.validity);
        bytes.push((counter % 0x100) as u8);
        bytes.push((counter / 0x100 % 0x100) as u8);
        bytes.push((counter / 0x1_0000 % 0x100) as u8);
        bytes.push((counter / 0x100_0000) as u8);
        assert(bytes@ =~= self.to_bytes());
        bytes
    }

    fn decode(bytes: &[u8]) -> (value: Self) {
        let low: u32 = bytes[1] as u32;
        let mid_low: u32 = bytes[2] as u32;
        let mid_high: u32 = bytes[3] as u32;
        let high: u32 = bytes[4] as u32;
        Conf {
            validity: bytes[0],
            boot_counter: low + mid_low * 0x100 + mid_high * 0x1_0000 + high * 0x100_0000,
        }
    }
}

/// What is known of the record in flash.
#[derive(Clone, Copy, Debug, PartialEq, Eq, Structural)]
pub enum ConfState {
    /// The sector has been read and not looked at yet.
    Unknown,
    /// The sector holds a valid record with this counter.
    Valid(u32),
    /// The sector holds no valid record; the default record stands in for it,
    /// and is not written until the next update.
    Default,
}

/// The state that a record read from flash leads to.
pub open spec fn state_of(stored: Conf) -> ConfState {
    if stored.validity == VALIDITY_MARKER {
        ConfState::Valid(stored.boot_counter)
    } else {
        ConfState::Default
    }
}

impl ConfState {
    /// Looks at the record that was read from flash.
    pub fn observe(stored: &Conf) -> (state: ConfState)
        ensures
            state == state_of(*stored),
    {
        if stored.is_valid() {
            ConfState::Valid(stored.boot_counter())
        } else {
            ConfState::Default
        }
    }

    /// The record to work with, once the sector has been looked at.
    pub fn record(&self) -> (conf: Option<Conf>)
        ensures
            conf == match *self {
                ConfState::Unknown => None::<Conf>,
                ConfState::Valid(counter) => Some(
                    Conf { validity: VALIDITY_MARKER, boot_counter: counter },
                ),
                ConfState::Default => Some(Conf { validity: VALIDITY_MARKER, boot_counter: 0 }),
            },
    {
        match self {
            ConfState::Unknown => None,
            ConfState::Valid(counter) => Some(Conf::new(*counter)),
            ConfState::Default => Some(Conf::default()),
        }
    }
}

/// The record that follows `current`: valid, with one boot more than `current`
/// has if it is valid, and with one boot otherwise.
pub open spec fn incremented(current: Conf) -> Conf {
    Conf {
        validity: VALIDITY_MARKER,
        boot_counter: (valid_or_default(current).boot_counter + 1) as u32,
    }
}

/// The record that a sector read from flash stands for: the stored one if it
/// is valid, the default record otherwise. Nothing is written back.
pub fn read_or_default(sector: &FlashSector<Conf>) -> (conf: Conf)
    ensures
        conf == valid_or_default(value_of::<Conf>(sector@)),
        conf.validity == VALIDITY_MARKER,
{
    sector.value().valid()
}

/// Counts one more boot: builds the record that follows `current` and plans
/// the replacement of the sector at the memory address `mem_addr` by it.
///
/// The plan is to be run with the bytes of the returned sector as data. After
/// that the sector is read again and handed to [`confirm_persisted`].
pub fn increment_and_persist(current: Conf, mem_addr: usize) -> (update: (
    FlashSector<Conf>,
    Vec<FlashStep>,
))
    requires
        valid_placement(mem_addr),
        valid_or_default(current).boot_counter < u32::MAX,
    ensures
        update.0@ == overlay(incremented(current).to_bytes()),
        value_of::<Conf>(update.0@) == incremented(current),
        update.1@ == erase_and_program_plan(
            flash_offset(mem_addr),
            FLASH_SECTOR_SIZE as u32,
            true,
        ),
{
    let sector = FlashSector::new(Conf::new(current.valid().boot_counter() + 1));
    let steps = sector.write(mem_addr);
    (sector, steps)
}

/// The check after an update: the record in the sector that was read back, or
/// `None` if it is not valid. An invalid record at this point means that the
/// write failed silently; it is not tried again.
pub fn confirm_persisted(read_back: &FlashSector<Conf>) -> (conf: Option<Conf>)
    ensures
        conf == if value_of::<Conf>(read_back@).validity == VALIDITY_MARKER {
            Some(value_of::<Conf>(read_back@))
        } else {
            None
        },
{
    let conf = read_back.value();
    if conf.is_valid() {
        Some(conf)
    } else {
        None
    }
}

/// An erased sector holds no valid record, so the default record stands in for
/// it.
pub proof fn law_erased_is_default()
    ensures
        value_of::<Conf>(erased_sector()).validity != VALIDITY_MARKER,
        state_of(value_of::<Conf>(erased_sector())) == ConfState::Default,
        valid_or_default(value_of::<Conf>(erased_sector())) == (Conf {
            validity: VALIDITY_MARKER,
            boot_counter: 0,
        }),
{
}

/// A valid record with any counter is read back from its sector as it was
/// written: valid, with the same counter.
pub proof fn law_record_round_trip(counter: u32)
    ensures
        value_of::<Conf>(
            overlay((Conf { validity: VALIDITY_MARKER, boot_counter: counter }).to_bytes()),
        ) == (Conf { validity: VALIDITY_MARKER, boot_counter: counter }),
{
    crate::flash_sector::law_value_round_trip(
        Conf { validity: VALIDITY_MARKER, boot_counter: counter },
    );
}

/// The chip after one boot: the record at `mem_addr` is read, or the default
/// taken in its place, and the record that follows it is written.
pub open spec fn boot_cycle(chip: ChipModel, mem_addr: usize) -> ChipModel {
    let current = value_of::<Conf>(sector_at(chip, mem_addr));
    chip.run(
        erase_and_program_plan(flash_offset(mem_addr), FLASH_SECTOR_SIZE as u32, true),
        overlay(incremented(current).to_bytes()),
    )
}

/// The chip after `boots` boots.
pub open spec fn boot_cycles(chip: ChipModel, mem_addr: usize, boots: nat) -> ChipModel
    decreases boots,
{
    if boots == 0 {
        chip
    } else {
        boot_cycle(boot_cycles(chip, mem_addr, (boots - 1) as nat), mem_addr)
    }
}

/// Counting boots: on a chip in XIP mode whose sector at `mem_addr` is erased,
/// after any number of boots that a counter can hold the record in the sector
/// counts that many, and the chip is in XIP mode.
pub proof fn law_boot_cycles(chip: ChipModel, mem_addr: usize, boots: nat)
    requires
        chip.xip,
        holds_sector(chip, mem_addr),
        sector_at(chip, mem_addr) == erased_sector(),
        boots <= u32::MAX,
    ensures
        ({
            let after = boot_cycles(chip, mem_addr, boots);
            let stored = value_of::<Conf>(sector_at(after, mem_addr));
            &&& after.xip
            &&& after.mem.len() == chip.mem.len()
            &&& valid_or_default(stored).boot_counter == boots
            &&& boots > 0 ==> stored == (Conf {
                validity: VALIDITY_MARKER,
                boot_counter: boots as u32,
            })
        }),
    decreases boots,
{
    if boots == 0 {
        law_erased_is_default();
    } else {
        law_boot_cycles(chip, mem_addr, (boots - 1) as nat);
        let before = boot_cycles(chip, mem_addr, (boots - 1) as nat);
        let current = value_of::<Conf>(sector_at(before, mem_addr));
        law_write_then_read(before, mem_addr, incremented(current));
        crate::flash_sector::law_sector_write(
            before,
            mem_addr,
            overlay(incremented(current).to_bytes()),
        );
    }
}

} // verus!
