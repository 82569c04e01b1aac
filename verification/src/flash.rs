//! Planning of erase and program operations.
//!
//! An operation is a list of [`FlashStep`]s. The list always opens by connecting
//! the flash pads and leaving execute-in-place (XIP) mode, and always closes by
//! flushing the cache and entering XIP mode again; erase and program are placed
//! between them, erase first.

use vstd::prelude::*;
use crate::ssi::{command_ok, read_flash, Phase, ReadModel, ReadState, MAX_FRAMES};

verus! {

/// Size in bytes of the smallest region that can be erased.
pub const SECTOR_SIZE: u32 = 4096;

/// Size in bytes of the smallest region that can be programmed.
pub const PAGE_SIZE: u32 = 256;

/// Block size handed to the ROM erase routine. It exceeds every supported flash
/// size, so the routine never takes its block-erase path and erases sector by
/// sector.
pub const ERASE_BLOCK_SIZE: u32 = 0x8000_0000;

/// Block-erase command handed to the ROM erase routine; unused, see
/// [`ERASE_BLOCK_SIZE`].
pub const ERASE_BLOCK_CMD: u8 = 0;

/// Size in bytes of the second-stage boot loader at the start of flash.
pub const BOOT2_SIZE: u32 = 256;

/// Opcode of the command "read unique ID".
pub const CMD_READ_UNIQUE_ID: u8 = 0x4B;

/// Number of dummy frames between the opcode 0x4B and the unique ID.
pub const UNIQUE_ID_DUMMY_LEN: u32 = 4;

/// Opcode of the command "read JEDEC ID".
pub const CMD_READ_JEDEC_ID: u8 = 0x9F;

/// Number of bytes of a JEDEC ID: the manufacturer, then two bytes for the
/// device.
pub const JEDEC_ID_LEN: u32 = 3;

/// Which routine brings the chip back into XIP mode.
#[derive(Clone, Copy, Debug, PartialEq, Eq, Structural)]
pub enum XipRestorer {
    /// The boot ROM's own routine, a slow but widely supported serial read.
    Rom,
    /// A copy of the second-stage boot loader, taken into RAM before XIP mode is
    /// left. It is entered one byte past its start.
    LoaderSnapshot,
}

/// The routines resolved for one operation.
///
/// Connecting the pads, leaving XIP mode, flushing the cache and entering XIP
/// mode are part of every table. The erase and program routines are looked up
/// only on request; a routine that is absent must not be invoked.
#[derive(Clone, Copy, Debug, PartialEq, Eq, Structural)]
pub struct FlashFunctionPointers {
    /// Whether the erase routine is present.
    pub flash_range_erase: bool,
    /// Whether the program routine is present.
    pub flash_range_program: bool,
    /// The routine that restores XIP mode.
    pub flash_enter_cmd_xip: XipRestorer,
}

/// One action on the flash chip, performed by a boot-ROM routine or by the
/// loader snapshot.
#[derive(Clone, Copy, Debug, PartialEq, Eq, Structural)]
pub enum FlashStep {
    /// Copy the first [`BOOT2_SIZE`] bytes of flash into RAM. Flash must still be
    /// readable, so this comes before XIP mode is left.
    SnapshotLoader,
    /// Restore the flash pads and connect the bus controller to them.
    ConnectInternalFlash,
    /// Leave XIP mode; from here on flash cannot be read as memory.
    ExitXip,
    /// Erase `count` bytes starting at the flash offset `addr`.
    RangeErase { addr: u32, count: u32, block_size: u32, block_cmd: u8 },
    /// Program `count` bytes starting at the flash offset `addr` from the start of
    /// the caller's data buffer.
    RangeProgram { addr: u32, count: u32 },
    /// Flush and re-enable the XIP cache.
    FlushCache,
    /// Enter XIP mode through the given routine.
    EnterCmdXip(XipRestorer),
}

/// Whether `addr` is a multiple of `unit`.
pub open spec fn aligned(addr: int, unit: int) -> bool {
    addr % unit == 0
}

/// Whether a range may be erased: start and length are whole sectors.
pub open spec fn erase_aligned(addr: u32, len: u32) -> bool {
    aligned(addr as int, SECTOR_SIZE as int) && aligned(len as int, SECTOR_SIZE as int)
}

/// Whether a range may be programmed: start and length are whole pages.
pub open spec fn program_aligned(addr: u32, len: u32) -> bool {
    aligned(addr as int, PAGE_SIZE as int) && aligned(len as int, PAGE_SIZE as int)
}

/// The table that [`flash_function_pointers`] and
/// [`flash_function_pointers_with_boot2`] resolve.
pub open spec fn resolved(erase: bool, write: bool, restorer: XipRestorer) -> FlashFunctionPointers {
    FlashFunctionPointers {
        flash_range_erase: erase,
        flash_range_program: write,
        flash_enter_cmd_xip: restorer,
    }
}

/// Resolves the routines for an operation that restores XIP mode through the
/// boot ROM.
pub fn flash_function_pointers(erase: bool, write: bool) -> (ptrs: FlashFunctionPointers)
    ensures
        ptrs == resolved(erase, write, XipRestorer::Rom),
{
    FlashFunctionPointers {
        flash_range_erase: erase,
        flash_range_program: write,
        flash_enter_cmd_xip: XipRestorer::Rom,
    }
}

/// Resolves the routines for an operation that restores XIP mode through a
/// snapshot of the second-stage boot loader.
///
/// The snapshot itself stays with the platform code, which has to keep it
/// untouched until the operation is over.
pub fn flash_function_pointers_with_boot2(erase: bool, write: bool) -> (ptrs: FlashFunctionPointers)
    ensures
        ptrs == resolved(erase, write, XipRestorer::LoaderSnapshot),
{
    FlashFunctionPointers {
        flash_range_erase: erase,
        flash_range_program: write,
        flash_enter_cmd_xip: XipRestorer::LoaderSnapshot,
    }
}

/// The restorer that goes with the `use_boot2` flag of the public operations.
pub open spec fn restorer_for(use_boot2: bool) -> XipRestorer {
    if use_boot2 {
        XipRestorer::LoaderSnapshot
    } else {
        XipRestorer::Rom
    }
}

/// What has to happen before XIP mode is left: with `use_boot2` the loader is
/// copied to RAM, otherwise nothing.
pub open spec fn snapshot_steps(use_boot2: bool) -> Seq<FlashStep> {
    if use_boot2 {
        seq![FlashStep::SnapshotLoader]
    } else {
        Seq::empty()
    }
}

/// The erase step of a critical section, if the erase routine is present.
pub open spec fn erase_steps(addr: u32, len: u32, ptrs: FlashFunctionPointers) -> Seq<FlashStep> {
    if ptrs.flash_range_erase {
        seq![
            FlashStep::RangeErase {
                addr,
                count: len,
                block_size: ERASE_BLOCK_SIZE,
                block_cmd: ERASE_BLOCK_CMD,
            },
        ]
    } else {
        Seq::empty()
    }
}

/// The program step of a critical section, if there is data and the program
/// routine is present.
pub open spec fn program_steps(addr: u32, len: u32, has_data: bool, ptrs: FlashFunctionPointers) -> Seq<
    FlashStep,
> {
    if has_data && ptrs.flash_range_program {
        seq![FlashStep::RangeProgram { addr, count: len }]
    } else {
        Seq::empty()
    }
}

/// The steps of one critical section, in the order in which they are performed:
/// connect, leave XIP mode, erase if selected, program if selected, flush the
/// cache, enter XIP mode.
pub open spec fn critical_section(addr: u32, len: u32, has_data: bool, ptrs: FlashFunctionPointers) -> Seq<
    FlashStep,
> {
    seq![FlashStep::ConnectInternalFlash, FlashStep::ExitXip] + erase_steps(addr, len, ptrs)
        + program_steps(addr, len, has_data, ptrs) + seq![
        FlashStep::FlushCache,
        FlashStep::EnterCmdXip(ptrs.flash_enter_cmd_xip),
    ]
}

/// The whole of an erase operation.
pub open spec fn erase_plan(addr: u32, len: u32, use_boot2: bool) -> Seq<FlashStep> {
    snapshot_steps(use_boot2) + critical_section(
        addr,
        len,
        false,
        resolved(true, false, restorer_for(use_boot2)),
    )
}

/// The whole of an erase followed by a program of `len` bytes.
pub open spec fn erase_and_program_plan(addr: u32, len: u32, use_boot2: bool) -> Seq<FlashStep> {
    snapshot_steps(use_boot2) + critical_section(
        addr,
        len,
        true,
        resolved(true, true, restorer_for(use_boot2)),
    )
}

/// The whole of a program operation of `len` bytes.
pub open spec fn program_plan(addr: u32, len: u32, use_boot2: bool) -> Seq<FlashStep> {
    snapshot_steps(use_boot2) + critical_section(
        addr,
        len,
        true,
        resolved(false, true, restorer_for(use_boot2)),
    )
}

/// Lays out one critical section on the flash range `addr .. addr + len`.
///
/// The erase step is taken if `ptrs` holds the erase routine, the program step
/// if `data` is given and `ptrs` holds the program routine. Whoever performs the
/// steps must own the flash bus for all of them: interrupts off, the second core
/// halted, no DMA from flash.
pub fn write_flash_inner(addr: u32, len: u32, data: Option<&[u8]>, ptrs: &FlashFunctionPointers) -> (steps:
    Vec<FlashStep>)
    requires
        ptrs.flash_range_erase ==> erase_aligned(addr, len),
        data.is_some() && ptrs.flash_range_program ==> program_aligned(addr, len)
            && data.unwrap()@.len() == len,
    ensures
        steps@ == critical_section(addr, len, data.is_some(), *ptrs),
{
    let mut steps: Vec<FlashStep> = Vec::new();
    steps.push(FlashStep::ConnectInternalFlash);
    steps.push(FlashStep::ExitXip);
    if ptrs.flash_range_erase {
        steps.push(
            FlashStep::RangeErase {
                addr,
                count: len,
                block_size: ERASE_BLOCK_SIZE,
                block_cmd: ERASE_BLOCK_CMD,
            },
        );
    }
    if data.is_some() && ptrs.flash_range_program {
        steps.push(FlashStep::RangeProgram { addr, count: len });
    }
    steps.push(FlashStep::FlushCache);
    steps.push(FlashStep::EnterCmdXip(ptrs.flash_enter_cmd_xip));
    steps
}

/// Starts a plan: the loader snapshot comes first, while flash can still be read.
fn begin_plan(use_boot2: bool) -> (steps: Vec<FlashStep>)
    ensures
        steps@ == snapshot_steps(use_boot2),
{
    let mut steps: Vec<FlashStep> = Vec::new();
    if use_boot2 {
        steps.push(FlashStep::SnapshotLoader);
    }
    steps
}

/// Resolves the routines of an operation with the restorer that `use_boot2`
/// selects.
fn resolve(erase: bool, write: bool, use_boot2: bool) -> (ptrs: FlashFunctionPointers)
    ensures
        ptrs == resolved(erase, write, restorer_for(use_boot2)),
{
    if use_boot2 {
        flash_function_pointers_with_boot2(erase, write)
    } else {
        flash_function_pointers(erase, write)
    }
}

/// Whether the range `addr .. addr + len` may be erased.
pub fn is_erase_aligned(addr: u32, len: u32) -> (ok: bool)
    ensures
        ok == erase_aligned(addr, len),
{
    addr % SECTOR_SIZE == 0 && len % SECTOR_SIZE == 0
}

/// Whether the range `addr .. addr + len` may be programmed.
pub fn is_program_aligned(addr: u32, len: u32) -> (ok: bool)
    ensures
        ok == program_aligned(addr, len),
{
    addr % PAGE_SIZE == 0 && len % PAGE_SIZE == 0
}

/// Plans the erasure of the flash range starting at offset `addr` with length
/// `len`, both multiples of [`SECTOR_SIZE`].
///
/// With `use_boot2` a copy of the second-stage boot loader brings the chip back
/// into XIP mode.
pub fn flash_range_erase(addr: u32, len: u32, use_boot2: bool) -> (steps: Vec<FlashStep>)
    requires
        erase_aligned(addr, len),
    ensures
        steps@ == erase_plan(addr, len, use_boot2),
{
    let mut steps = begin_plan(use_boot2);
    let ptrs = resolve(true, false, use_boot2);
    let mut section = write_flash_inner(addr, len, None, &ptrs);
    steps.append(&mut section);
    steps
}

/// Plans erasing the flash range starting at offset `addr` and rewriting it with
/// `data`. `addr` and the length of `data` are multiples of [`SECTOR_SIZE`].
///
/// With `use_boot2` a copy of the second-stage boot loader brings the chip back
/// into XIP mode.
pub fn flash_range_erase_and_program(addr: u32, data: &[u8], use_boot2: bool) -> (steps: Vec<
    FlashStep,
>)
    requires
        data@.len() <= u32::MAX,
        erase_aligned(addr, data@.len() as u32),
    ensures
        steps@ == erase_and_program_plan(addr, data@.len() as u32, use_boot2),
{
    let mut steps = begin_plan(use_boot2);
    let ptrs = resolve(true, true, use_boot2);
    let len = data.len() as u32;
    assert(program_aligned(addr, len)) by {
        lemma_sector_is_pages(addr as int);
        lemma_sector_is_pages(len as int);
    }
    let mut section = write_flash_inner(addr, len, Some(data), &ptrs);
    steps.append(&mut section);
    steps
}

/// Plans writing `data` to the flash range starting at offset `addr`, without
/// erasing. `addr` and the length of `data` are multiples of [`PAGE_SIZE`].
///
/// With `use_boot2` a copy of the second-stage boot loader brings the chip back
/// into XIP mode.
pub fn flash_range_program(addr: u32, data: &[u8], use_boot2: bool) -> (steps: Vec<FlashStep>)
    requires
        data@.len() <= u32::MAX,
        program_aligned(addr, data@.len() as u32),
    ensures
        steps@ == program_plan(addr, data@.len() as u32, use_boot2),
{
    let mut steps = begin_plan(use_boot2);
    let ptrs = resolve(false, true, use_boot2);
    let len = data.len() as u32;
    let mut section = write_flash_inner(addr, len, Some(data), &ptrs);
    steps.append(&mut section);
    steps
}

/// Why an operation was refused before anything was planned.
#[derive(Clone, Copy, Debug, PartialEq, Eq, Structural)]
pub enum FlashError {
    /// The data is longer than a flash offset can express.
    TooLong,
    /// Start or length of the range is not a multiple of the unit of the
    /// operation.
    Misaligned,
}

/// The outcome of planning an operation of `len` bytes at `addr` whose unit is
/// the sector (`by_sector`) or the page.
pub open spec fn checked_plan(addr: u32, len: nat, by_sector: bool, plan: Seq<FlashStep>) -> Result<
    Seq<FlashStep>,
    FlashError,
> {
    if len > u32::MAX {
        Err(FlashError::TooLong)
    } else if by_sector && !erase_aligned(addr, len as u32) {
        Err(FlashError::Misaligned)
    } else if !by_sector && !program_aligned(addr, len as u32) {
        Err(FlashError::Misaligned)
    } else {
        Ok(plan)
    }
}

/// Whether `outcome` is `expected`, a plan being taken for the steps it holds.
pub open spec fn is_outcome(outcome: Result<Vec<FlashStep>, FlashError>, expected: Result<
    Seq<FlashStep>,
    FlashError,
>) -> bool {
    match (outcome, expected) {
        (Ok(steps), Ok(plan)) => steps@ == plan,
        (Err(error), Err(reason)) => error == reason,
        _ => false,
    }
}

/// Plans the erasure of a flash range like [`flash_range_erase`], or refuses a
/// range that is not made of whole sectors. Nothing is planned for a refused
/// range, so the hardware is never reached with it.
pub fn erase(addr: u32, len: u32, use_boot2: bool) -> (outcome: Result<Vec<FlashStep>, FlashError>)
    ensures
        is_outcome(outcome, checked_plan(addr, len as nat, true, erase_plan(addr, len, use_boot2))),
{
    if !is_erase_aligned(addr, len) {
        return Err(FlashError::Misaligned);
    }
    Ok(flash_range_erase(addr, len, use_boot2))
}

/// Plans erasing and rewriting a flash range like
/// [`flash_range_erase_and_program`], or refuses data that is too long or a
/// range that is not made of whole sectors.
pub fn erase_and_program(addr: u32, data: &[u8], use_boot2: bool) -> (outcome: Result<
    Vec<FlashStep>,
    FlashError,
>)
    ensures
        is_outcome(
            outcome,
            checked_plan(
                addr,
                data@.len(),
                true,
                erase_and_program_plan(addr, data@.len() as u32, use_boot2),
            ),
        ),
{
    if data.len() > u32::MAX as usize {
        return Err(FlashError::TooLong);
    }
    if !is_erase_aligned(addr, data.len() as u32) {
        return Err(FlashError::Misaligned);
    }
    Ok(flash_range_erase_and_program(addr, data, use_boot2))
}

/// Plans writing to a flash range like [`flash_range_program`], or refuses data
/// that is too long or a range that is not made of whole pages.
pub fn program(addr: u32, data: &[u8], use_boot2: bool) -> (outcome: Result<Vec<FlashStep>, FlashError>)
    ensures
        is_outcome(
            outcome,
            checked_plan(addr, data@.len(), false, program_plan(addr, data@.len() as u32, use_boot2)),
        ),
{
    if data.len() > u32::MAX as usize {
        return Err(FlashError::TooLong);
    }
    if !is_program_aligned(addr, data.len() as u32) {
        return Err(FlashError::Misaligned);
    }
    Ok(flash_range_program(addr, data, use_boot2))
}

/// The phase in which a read command begins: with `use_boot2` the loader
/// snapshot is taken first.
pub open spec fn first_phase(use_boot2: bool) -> Phase {
    if use_boot2 {
        Phase::Snapshot
    } else {
        Phase::Connect
    }
}

/// The read command that sends the single byte `opcode`.
pub open spec fn opcode_command(opcode: u8, dummy_len: u32, data_len: u32, use_boot2: bool) -> ReadModel {
    ReadModel::start(
        seq![opcode],
        dummy_len,
        data_len,
        restorer_for(use_boot2),
        first_phase(use_boot2),
    )
}

/// Sets up the read command that sends the single byte `opcode`.
fn begin_read(opcode: u8, dummy_len: u32, data_len: u32, use_boot2: bool) -> (state: ReadState)
    requires
        command_ok(1, dummy_len, data_len),
    ensures
        state@ == opcode_command(opcode, dummy_len, data_len, use_boot2),
        state@.wf(),
{
    let ptrs = resolve(false, false, use_boot2);
    let cmd = [opcode];
    assert(cmd@ =~= seq![opcode]);
    let state = read_flash(cmd.as_slice(), dummy_len, data_len, &ptrs);
    if use_boot2 {
        state.preceded_by_snapshot()
    } else {
        state
    }
}

/// Sets up the command that reads `len` bytes of the chip's unique ID.
///
/// Not every flash chip knows this command, and one that does not answers with
/// arbitrary bytes: check the JEDEC ID first. Where the ID is longer than `len`
/// bytes, the bytes read need not be unique.
///
/// With `use_boot2` a copy of the second-stage boot loader brings the chip back
/// into XIP mode.
pub fn flash_unique_id(len: u32, use_boot2: bool) -> (state: ReadState)
    requires
        1 <= len <= MAX_FRAMES - UNIQUE_ID_DUMMY_LEN,
    ensures
        state@ == opcode_command(CMD_READ_UNIQUE_ID, UNIQUE_ID_DUMMY_LEN, len, use_boot2),
        state@.wf(),
{
    begin_read(CMD_READ_UNIQUE_ID, UNIQUE_ID_DUMMY_LEN, len, use_boot2)
}

/// Sets up the command that reads the chip's JEDEC ID; [`jedec_id`] turns its
/// response into a number.
///
/// With `use_boot2` a copy of the second-stage boot loader brings the chip back
/// into XIP mode.
pub fn flash_jedec_id(use_boot2: bool) -> (state: ReadState)
    ensures
        state@ == opcode_command(CMD_READ_JEDEC_ID, 0, JEDEC_ID_LEN, use_boot2),
        state@.wf(),
{
    begin_read(CMD_READ_JEDEC_ID, 0, JEDEC_ID_LEN, use_boot2)
}

/// The number that three response bytes stand for, the first byte being the
/// most significant.
pub open spec fn jedec_value(response: Seq<u8>) -> int {
    response[0] * 0x1_0000 + response[1] * 0x100 + response[2]
}

/// Assembles the JEDEC ID from the response to [`flash_jedec_id`]: manufacturer
/// and device in the low three bytes, the top byte zero. A Winbond W25Q16JV
/// gives `0xEF7015`.
pub fn jedec_id(response: &[u8]) -> (id: u32)
    requires
        response@.len() == JEDEC_ID_LEN,
    ensures
        id == jedec_value(response@),
        id <= 0x00FF_FFFF,
{
    let manufacturer: u32 = response[0] as u32;
    let device_high: u32 = response[1] as u32;
    let device_low: u32 = response[2] as u32;
    manufacturer * 0x1_0000 + device_high * 0x100 + device_low
}

/// A whole number of sectors is a whole number of pages.
pub proof fn lemma_sector_is_pages(x: int)
    requires
        aligned(x, SECTOR_SIZE as int),
    ensures
        aligned(x, PAGE_SIZE as int),
{
    assert(x == 256 * (16 * (x / 4096)) + x % 4096);
}

} // verus!
