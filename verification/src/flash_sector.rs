//! One erase unit of flash, seen as a typed value.
//!
//! A [`FlashSector`] is exactly one sector: the stored form of a value at its
//! start, erased bytes behind it. It is read and written as a whole, since
//! flash cannot set a bit again without erasing the sector that holds it.

use core::marker::PhantomData;
use vstd::prelude::*;
use crate::chip::{law_erase_and_program, written, ChipModel, FLASH_ERASED_VALUE};
use crate::flash::{erase_and_program_plan, flash_range_erase_and_program, FlashStep};

verus! {

/// Address at which flash appears in memory while in XIP mode.
pub const FLASH_ORIGIN: usize = 0x1000_0000;

/// End of the XIP window: the RP2040 addresses at most 16 MiB of flash.
pub const FLASH_END_MAX: usize = 0x1100_0000;

/// Size of a sector in bytes.
pub const FLASH_SECTOR_SIZE: usize = 4096;

/// A value with a fixed layout in flash.
///
/// The layout outlives the firmware that wrote it, so it is spelled out byte by
/// byte instead of being left to the compiler. Every sequence of
/// `layout_size()` bytes is read as some value, valid or not; telling them
/// apart is up to the type.
pub trait Payload: Sized {
    /// Number of bytes of the stored form.
    spec fn layout_size() -> nat;

    /// The stored form of a value.
    spec fn to_bytes(&self) -> Seq<u8>;

    /// The value that stored bytes stand for.
    spec fn from_bytes(bytes: Seq<u8>) -> Self;

    /// The stored form has the announced size and is read back as the value
    /// that was stored.
    proof fn lemma_layout(value: Self)
        ensures
            value.to_bytes().len() == Self::layout_size(),
            Self::from_bytes(value.to_bytes()) == value,
    ;

    /// Number of bytes of the stored form.
    fn size() -> (size: usize)
        ensures
            size == Self::layout_size(),
    ;

    /// Writes out the stored form of the value.
    fn encode(&self) -> (bytes: Vec<u8>)
        ensures
            bytes@ == self.to_bytes(),
    ;

    /// Reads a value from its stored form.
    fn decode(bytes: &[u8]) -> (value: Self)
        requires
            bytes@.len() == Self::layout_size(),
        ensures
            value == Self::from_bytes(bytes@),
    ;
}

/// Plain bytes are stored as they are.
impl<const N: usize> Payload for [u8; N] {
    open spec fn layout_size() -> nat {
        N as nat
    }

    open spec fn to_bytes(&self) -> Seq<u8> {
        self@
    }

    open spec fn from_bytes(bytes: Seq<u8>) -> Self {
        choose|array: [u8; N]| array@ == bytes
    }

    proof fn lemma_layout(value: Self) {
        let read = Self::from_bytes(value@);
        assert(read@ == value@);
        assert(read =~= value);
    }

    fn size() -> (size: usize) {
        N
    }

    fn encode(&self) -> (bytes: Vec<u8>) {
        vstd::slice::slice_to_vec(self.as_slice())
    }

    fn decode(bytes: &[u8]) -> (value: Self) {
        let mut value = [0u8;N];
        let mut i: usize = 0;
        while i < N
            invariant
                i <= N,
                bytes@.len() == N,
                forall|j: int| 0 <= j < i ==> value@[j] == bytes@[j],
            decreases N - i,
        {
            value[i] = bytes[i];
            i += 1;
        }
        proof {
            assert(value@ =~= bytes@);
            let read = Self::from_bytes(bytes@);
            assert(read@ == bytes@);
            assert(read =~= value);
        }
        value
    }
}

/// A sector that holds a `T` at its start.
pub struct FlashSector<T: Payload> {
    data: [u8; 4096],
    payload: PhantomData<T>,
}

impl<T: Payload> View for FlashSector<T> {
    type V = Seq<u8>;

    closed spec fn view(&self) -> Seq<u8> {
        self.data@
    }
}

/// The bytes of a sector that has been erased and not written since.
pub open spec fn erased_sector() -> Seq<u8> {
    Seq::new(FLASH_SECTOR_SIZE as nat, |i: int| FLASH_ERASED_VALUE)
}

/// The bytes of a sector with `bytes` at its start and erased bytes behind.
pub open spec fn overlay(bytes: Seq<u8>) -> Seq<u8> {
    Seq::new(
        FLASH_SECTOR_SIZE as nat,
        |i: int|
            if i < bytes.len() {
                bytes[i]
            } else {
                FLASH_ERASED_VALUE
            },
    )
}

/// Whether a `T` fits into one sector.
pub open spec fn fits<T: Payload>() -> bool {
    T::layout_size() <= FLASH_SECTOR_SIZE
}

/// The value that the bytes of a sector stand for. Nothing is checked: an
/// erased sector is read as a value too.
pub open spec fn value_of<T: Payload>(sector: Seq<u8>) -> T {
    T::from_bytes(sector.subrange(0, T::layout_size() as int))
}

/// Whether a sector may be placed at the memory address `mem_addr`: inside the
/// XIP window, and on a sector boundary.
pub open spec fn valid_placement(mem_addr: usize) -> bool {
    &&& FLASH_ORIGIN <= mem_addr <= FLASH_END_MAX - FLASH_SECTOR_SIZE
    &&& (mem_addr - FLASH_ORIGIN) % (FLASH_SECTOR_SIZE as int) == 0
}

/// The flash offset that belongs to a memory address of the XIP window.
pub open spec fn flash_offset(mem_addr: usize) -> u32 {
    (mem_addr - FLASH_ORIGIN) as u32
}

/// Why a sector was refused.
#[derive(Clone, Copy, Debug, PartialEq, Eq, Structural)]
pub enum SectorError {
    /// The value does not fit into one sector.
    Oversized,
    /// The address lies outside the XIP window, or so close to its end that
    /// the sector would not.
    OutOfRange,
    /// The address is not on a sector boundary.
    Misaligned,
}

/// What is wrong with placing a sector at the memory address `mem_addr`, if
/// anything.
pub open spec fn placement_error(mem_addr: usize) -> Option<SectorError> {
    if mem_addr < FLASH_ORIGIN || mem_addr > FLASH_END_MAX - FLASH_SECTOR_SIZE {
        Some(SectorError::OutOfRange)
    } else if (mem_addr - FLASH_ORIGIN) % (FLASH_SECTOR_SIZE as int) != 0 {
        Some(SectorError::Misaligned)
    } else {
        None
    }
}

/// Finds what is wrong with placing a sector at the memory address `mem_addr`.
pub fn check_placement(mem_addr: usize) -> (error: Option<SectorError>)
    ensures
        error == placement_error(mem_addr),
        error is None <==> valid_placement(mem_addr),
{
    assert(vstd::arithmetic::power2::is_pow2(FLASH_SECTOR_SIZE as int)) by {
        reveal_with_fuel(vstd::arithmetic::power2::is_pow2, 13);
    }
    if mem_addr < FLASH_ORIGIN || mem_addr > FLASH_END_MAX - FLASH_SECTOR_SIZE {
        Some(SectorError::OutOfRange)
    } else if !is_aligned(mem_addr - FLASH_ORIGIN, FLASH_SECTOR_SIZE) {
        Some(SectorError::Misaligned)
    } else {
        None
    }
}

/// Whether `addr` is a multiple of `alignment`, a power of two.
pub fn is_aligned(addr: usize, alignment: usize) -> (ok: bool)
    requires
        vstd::arithmetic::power2::is_pow2(alignment as int),
    ensures
        ok == (addr % alignment == 0),
{
    assert(alignment > 0) by {
        reveal(vstd::arithmetic::power2::is_pow2);
    }
    addr % alignment == 0
}

/// Whether a sector may be placed at the memory address `mem_addr`.
pub fn is_valid_placement(mem_addr: usize) -> (ok: bool)
    ensures
        ok == valid_placement(mem_addr),
{
    mem_addr >= FLASH_ORIGIN && mem_addr <= FLASH_END_MAX - FLASH_SECTOR_SIZE && (mem_addr
        - FLASH_ORIGIN) % FLASH_SECTOR_SIZE == 0
}

impl<T: Payload> Default for FlashSector<T> {
    /// An erased sector.
    fn default() -> (sector: Self)
        ensures
            sector@ == erased_sector(),
    {
        let sector = FlashSector { data: [FLASH_ERASED_VALUE;4096], payload: PhantomData };
        assert(sector.data@ =~= erased_sector());
        sector
    }
}

impl<T: Payload> FlashSector<T> {
    /// Whether a `T` fits into one sector.
    pub fn payload_fits() -> (ok: bool)
        ensures
            ok == fits::<T>(),
    {
        T::size() <= FLASH_SECTOR_SIZE
    }

    /// A sector with the stored form of `bytes` at its start.
    fn with_bytes(bytes: &[u8]) -> (sector: Self)
        requires
            bytes@.len() <= FLASH_SECTOR_SIZE,
        ensures
            sector@ == overlay(bytes@),
    {
        let mut data = [FLASH_ERASED_VALUE;4096];
        let mut i: usize = 0;
        while i < bytes.len()
            invariant
                i <= bytes@.len() <= FLASH_SECTOR_SIZE,
                data@ == overlay(bytes@.subrange(0, i as int)),
            decreases bytes@.len() - i,
        {
            data[i] = bytes[i];
            i += 1;
        }
        assert(bytes@.subrange(0, i as int) =~= bytes@);
        FlashSector { data, payload: PhantomData }
    }

    /// A sector that holds `value`.
    pub fn new(value: T) -> (sector: Self)
        requires
            fits::<T>(),
        ensures
            sector@ == overlay(value.to_bytes()),
            value_of::<T>(sector@) == value,
    {
        let bytes = value.encode();
        proof {
            T::lemma_layout(value);
            assert(overlay(value.to_bytes()).subrange(0, T::layout_size() as int)
                =~= value.to_bytes());
        }
        Self::with_bytes(bytes.as_slice())
    }

    /// The sector at the memory address `mem_addr`, read from `stored`, the
    /// bytes found there. Only the bytes that a `T` takes are kept; the rest of
    /// the sector is taken as erased.
    pub fn read(mem_addr: usize, stored: &[u8; 4096]) -> (sector: Self)
        requires
            fits::<T>(),
            valid_placement(mem_addr),
        ensures
            sector@ == overlay(stored@.subrange(0, T::layout_size() as int)),
            value_of::<T>(sector@) == value_of::<T>(stored@),
    {
        let taken = vstd::slice::slice_subrange(stored.as_slice(), 0, T::size());
        proof {
            assert(overlay(taken@).subrange(0, T::layout_size() as int) =~= taken@);
        }
        Self::with_bytes(taken)
    }

    /// Plans the replacement of the sector at the memory address `mem_addr` by
    /// this one: the sector is erased, then programmed with [`Self::data`], and
    /// a copy of the second-stage boot loader brings the chip back into XIP mode.
    pub fn write(&self, mem_addr: usize) -> (steps: Vec<FlashStep>)
        requires
            valid_placement(mem_addr),
        ensures
            steps@ == erase_and_program_plan(
                flash_offset(mem_addr),
                FLASH_SECTOR_SIZE as u32,
                true,
            ),
    {
        let flash_addr = mem_addr - FLASH_ORIGIN;
        flash_range_erase_and_program(flash_addr as u32, self.data.as_slice(), true)
    }

    /// A sector that holds `value`, unless a `T` does not fit into a sector.
    pub fn try_new(value: T) -> (outcome: Result<Self, SectorError>)
        ensures
            outcome is Ok <==> fits::<T>(),
            outcome matches Ok(sector) ==> sector@ == overlay(value.to_bytes()) && value_of::<T>(
                sector@,
            ) == value,
            outcome matches Err(error) ==> error == SectorError::Oversized,
    {
        if !Self::payload_fits() {
            return Err(SectorError::Oversized);
        }
        Ok(Self::new(value))
    }

    /// The sector at `mem_addr` like [`Self::read`], unless a `T` does not fit
    /// into a sector or the sector cannot lie at `mem_addr`.
    pub fn try_read(mem_addr: usize, stored: &[u8; 4096]) -> (outcome: Result<Self, SectorError>)
        ensures
            outcome is Ok <==> fits::<T>() && valid_placement(mem_addr),
            outcome matches Ok(sector) ==> sector@ == overlay(
                stored@.subrange(0, T::layout_size() as int),
            ) && value_of::<T>(sector@) == value_of::<T>(stored@),
            outcome matches Err(error) ==> error == if !fits::<T>() {
                SectorError::Oversized
            } else {
                placement_error(mem_addr).unwrap()
            },
    {
        if !Self::payload_fits() {
            return Err(SectorError::Oversized);
        }
        match check_placement(mem_addr) {
            Some(error) => Err(error),
            None => Ok(Self::read(mem_addr, stored)),
        }
    }

    /// The plan of [`Self::write`], unless the sector cannot lie at `mem_addr`.
    /// Nothing is planned for a refused address, so the hardware is never
    /// reached with it.
    pub fn try_write(&self, mem_addr: usize) -> (outcome: Result<Vec<FlashStep>, SectorError>)
        ensures
            outcome is Ok <==> valid_placement(mem_addr),
            outcome matches Ok(steps) ==> steps@ == erase_and_program_plan(
                flash_offset(mem_addr),
                FLASH_SECTOR_SIZE as u32,
                true,
            ),
            outcome matches Err(error) ==> Some(error) == placement_error(mem_addr),
    {
        match check_placement(mem_addr) {
            Some(error) => Err(error),
            None => Ok(self.write(mem_addr)),
        }
    }

    /// The value at the start of the sector like [`Self::value`], unless a `T`
    /// does not fit into a sector.
    pub fn try_value(&self) -> (outcome: Result<T, SectorError>)
        ensures
            outcome is Ok <==> fits::<T>(),
            outcome matches Ok(value) ==> value == value_of::<T>(self@),
            outcome matches Err(error) ==> error == SectorError::Oversized,
    {
        if !Self::payload_fits() {
            return Err(SectorError::Oversized);
        }
        Ok(self.value())
    }

    /// The bytes of the sector.
    pub fn data(&self) -> (data: &[u8; 4096])
        ensures
            data@ == self@,
    {
        &self.data
    }

    /// The value at the start of the sector, unchecked.
    pub fn value(&self) -> (value: T)
        requires
            fits::<T>(),
        ensures
            value == value_of::<T>(self@),
    {
        let stored = vstd::slice::slice_subrange(self.data.as_slice(), 0, T::size());
        T::decode(stored)
    }
}

/// The bytes of the sector at the memory address `mem_addr` of a chip.
pub open spec fn sector_at(chip: ChipModel, mem_addr: usize) -> Seq<u8> {
    chip.mem.subrange(flash_offset(mem_addr) as int, flash_offset(mem_addr) + FLASH_SECTOR_SIZE)
}

/// Whether the chip has a whole sector at the memory address `mem_addr`.
pub open spec fn holds_sector(chip: ChipModel, mem_addr: usize) -> bool {
    valid_placement(mem_addr) && flash_offset(mem_addr) + FLASH_SECTOR_SIZE <= chip.mem.len()
}

/// A value that is put into a sector is the value that the sector holds.
pub proof fn law_value_round_trip<T: Payload>(value: T)
    requires
        fits::<T>(),
    ensures
        value_of::<T>(overlay(value.to_bytes())) == value,
{
    T::lemma_layout(value);
    assert(overlay(value.to_bytes()).subrange(0, T::layout_size() as int) =~= value.to_bytes());
}

/// Writing a sector replaces the whole sector and nothing else: on a chip in
/// XIP mode, after the plan of [`FlashSector::write`] has run with the bytes of
/// the sector as data, the chip holds exactly these bytes at `mem_addr`, every
/// byte outside the sector is as before, and the chip is in XIP mode again.
pub proof fn law_sector_write(chip: ChipModel, mem_addr: usize, sector: Seq<u8>)
    requires
        chip.xip,
        holds_sector(chip, mem_addr),
        sector.len() == FLASH_SECTOR_SIZE,
    ensures
        ({
            let plan = erase_and_program_plan(
                flash_offset(mem_addr),
                FLASH_SECTOR_SIZE as u32,
                true,
            );
            let after = chip.run(plan, sector);
            &&& after.xip
            &&& after.mem.len() == chip.mem.len()
            &&& sector_at(after, mem_addr) == sector
            &&& forall|i: int|
                0 <= i < chip.mem.len() && !(flash_offset(mem_addr) <= i < flash_offset(mem_addr)
                    + FLASH_SECTOR_SIZE) ==> after.mem[i] == chip.mem[i]
        }),
{
    law_erase_and_program(chip, flash_offset(mem_addr), sector, true);
    let after = written(chip.mem, flash_offset(mem_addr) as int, sector);
    assert(after.subrange(
        flash_offset(mem_addr) as int,
        flash_offset(mem_addr) + FLASH_SECTOR_SIZE,
    ) =~= sector);
}

/// A value that is written to flash is the value that is read back: on a chip
/// in XIP mode, after the plan of [`FlashSector::write`] has run for the sector
/// that holds `value`, the sector at `mem_addr` holds `value`.
pub proof fn law_write_then_read<T: Payload>(chip: ChipModel, mem_addr: usize, value: T)
    requires
        fits::<T>(),
        chip.xip,
        holds_sector(chip, mem_addr),
    ensures
        ({
            let plan = erase_and_program_plan(
                flash_offset(mem_addr),
                FLASH_SECTOR_SIZE as u32,
                true,
            );
            let after = chip.run(plan, overlay(value.to_bytes()));
            &&& after.xip
            &&& value_of::<T>(sector_at(after, mem_addr)) == value
        }),
{
    law_sector_write(chip, mem_addr, overlay(value.to_bytes()));
    law_value_round_trip(value);
}

} // verus!
