//! A model of the flash chip, on which plans can be run.
//!
//! The model holds what the plans of [`crate::flash`] are about: the bytes of
//! the chip, whether it is in XIP mode, and whether a loader snapshot has been
//! taken. Erasing sets bytes to all ones; programming can only clear bits; both
//! work only while XIP mode is off. [`ChipModel`] is the mathematical model and
//! the laws of this module are stated over it. [`FlashChip`] is the same thing
//! as an executable value, for tests and for hosts without the hardware.

use vstd::prelude::*;
use crate::flash::{
    critical_section, erase_aligned, erase_and_program_plan, erase_plan, erase_steps,
    program_aligned, program_plan, program_steps, resolved, restorer_for, snapshot_steps,
    FlashFunctionPointers, FlashStep, XipRestorer,
};

verus! {

/// The value of every byte of an erased sector.
pub const FLASH_ERASED_VALUE: u8 = 0xff;

/// The state of a flash chip.
pub struct ChipModel {
    /// The bytes of the chip, by flash offset.
    pub mem: Seq<u8>,
    /// Whether the chip is in XIP mode, so that it can be read as memory.
    pub xip: bool,
    /// Whether a copy of the second-stage boot loader has been taken.
    pub snapshot: bool,
}

/// `mem` with the bytes of `addr .. addr + count` erased.
pub open spec fn erased(mem: Seq<u8>, addr: int, count: int) -> Seq<u8> {
    Seq::new(
        mem.len(),
        |i: int|
            if addr <= i < addr + count {
                FLASH_ERASED_VALUE
            } else {
                mem[i]
            },
    )
}

/// `mem` after `data` has been programmed at `addr`: a bit stays set only where
/// `data` has it set too.
pub open spec fn programmed(mem: Seq<u8>, addr: int, data: Seq<u8>) -> Seq<u8> {
    Seq::new(
        mem.len(),
        |i: int|
            if addr <= i < addr + data.len() {
                mem[i] & data[i - addr]
            } else {
                mem[i]
            },
    )
}

/// `mem` with the bytes from `addr` on replaced by `data`.
pub open spec fn written(mem: Seq<u8>, addr: int, data: Seq<u8>) -> Seq<u8> {
    Seq::new(
        mem.len(),
        |i: int|
            if addr <= i < addr + data.len() {
                data[i - addr]
            } else {
                mem[i]
            },
    )
}

impl ChipModel {
    /// The chip after one step. `data` is the buffer that program steps read.
    ///
    /// Erase and program leave the chip as it is while XIP mode is on, and for a
    /// range that is not aligned to their unit. A program step that asks for
    /// more bytes than `data` holds does nothing. The loader snapshot can be
    /// taken only while XIP mode is on, and restores XIP mode only if it has
    /// been taken.
    pub open spec fn step(self, step: FlashStep, data: Seq<u8>) -> ChipModel {
        match step {
            FlashStep::SnapshotLoader => if self.xip {
                ChipModel { snapshot: true, ..self }
            } else {
                self
            },
            FlashStep::ConnectInternalFlash => self,
            FlashStep::ExitXip => ChipModel { xip: false, ..self },
            FlashStep::RangeErase { addr, count, .. } => if !self.xip
                && erase_aligned(addr, count) {
                ChipModel { mem: erased(self.mem, addr as int, count as int), ..self }
            } else {
                self
            },
            FlashStep::RangeProgram { addr, count } => if !self.xip && program_aligned(addr, count)
                && count <= data.len() {
                ChipModel {
                    mem: programmed(self.mem, addr as int, data.subrange(0, count as int)),
                    ..self
                }
            } else {
                self
            },
            FlashStep::FlushCache => self,
            FlashStep::EnterCmdXip(restorer) => match restorer {
                XipRestorer::Rom => ChipModel { xip: true, ..self },
                XipRestorer::LoaderSnapshot => ChipModel { xip: self.snapshot, ..self },
            },
        }
    }

    /// The chip after the steps, taken from first to last.
    pub open spec fn run(self, steps: Seq<FlashStep>, data: Seq<u8>) -> ChipModel
        decreases steps.len(),
    {
        if steps.len() == 0 {
            self
        } else {
            self.run(steps.drop_last(), data).step(steps.last(), data)
        }
    }
}

/// Running a plan with one more step is running the plan, then the step.
pub proof fn lemma_run_push(chip: ChipModel, steps: Seq<FlashStep>, step: FlashStep, data: Seq<u8>)
    ensures
        chip.run(steps.push(step), data) == chip.run(steps, data).step(step, data),
{
    assert(steps.push(step).drop_last() =~= steps);
}

/// Running two plans one after the other is running their concatenation.
pub proof fn lemma_run_concat(chip: ChipModel, first: Seq<FlashStep>, second: Seq<FlashStep>, data: Seq<u8>)
    ensures
        chip.run(first + second, data) == chip.run(first, data).run(second, data),
    decreases second.len(),
{
    if second.len() == 0 {
        assert(first + second =~= first);
    } else {
        lemma_run_concat(chip, first, second.drop_last(), data);
        assert((first + second).drop_last() =~= first + second.drop_last());
    }
}

/// A plan of one step.
pub proof fn lemma_run_one(chip: ChipModel, step: FlashStep, data: Seq<u8>)
    ensures
        chip.run(seq![step], data) == chip.step(step, data),
{
    lemma_run_push(chip, Seq::empty(), step, data);
    assert(seq![step] =~= Seq::<FlashStep>::empty().push(step));
}

/// A plan of two steps.
pub proof fn lemma_run_two(chip: ChipModel, first: FlashStep, second: FlashStep, data: Seq<u8>)
    ensures
        chip.run(seq![first, second], data) == chip.step(first, data).step(second, data),
{
    lemma_run_one(chip, first, data);
    lemma_run_push(chip, seq![first], second, data);
    assert(seq![first, second] =~= seq![first].push(second));
}

/// Programming erased bytes stores the data as it is.
pub proof fn lemma_program_erased(mem: Seq<u8>, addr: int, data: Seq<u8>)
    ensures
        programmed(erased(mem, addr, data.len() as int), addr, data) == written(mem, addr, data),
{
    assert forall|d: u8| #[trigger] (0xffu8 & d) == d by {
        assert(0xffu8 & d == d) by (bit_vector);
    }
    assert(programmed(erased(mem, addr, data.len() as int), addr, data) =~= written(
        mem,
        addr,
        data,
    ));
}

/// What one critical section does to a chip.
///
/// XIP mode is off while the range is erased and programmed, so both take
/// effect, erase first; at the end the chip is back in XIP mode, provided that
/// the loader snapshot was taken if the table relies on it.
pub proof fn law_critical_section(
    chip: ChipModel,
    addr: u32,
    len: u32,
    data: Option<Seq<u8>>,
    ptrs: FlashFunctionPointers,
)
    requires
        ptrs.flash_range_erase ==> erase_aligned(addr, len),
        data is Some && ptrs.flash_range_program ==> program_aligned(addr, len) && data.unwrap().len()
            == len,
    ensures
        ({
            let buffer = if data is Some {
                data.unwrap()
            } else {
                Seq::empty()
            };
            let after = chip.run(critical_section(addr, len, data is Some, ptrs), buffer);
            let cleared = if ptrs.flash_range_erase {
                erased(chip.mem, addr as int, len as int)
            } else {
                chip.mem
            };
            &&& after.mem == if data is Some && ptrs.flash_range_program {
                programmed(cleared, addr as int, buffer)
            } else {
                cleared
            }
            &&& after.xip == (ptrs.flash_enter_cmd_xip == XipRestorer::Rom || chip.snapshot)
            &&& after.snapshot == chip.snapshot
        }),
{
    let buffer = if data is Some {
        data.unwrap()
    } else {
        Seq::empty()
    };
    let opening = seq![FlashStep::ConnectInternalFlash, FlashStep::ExitXip];
    let erase = erase_steps(addr, len, ptrs);
    let program = program_steps(addr, len, data is Some, ptrs);
    let closing = seq![FlashStep::FlushCache, FlashStep::EnterCmdXip(ptrs.flash_enter_cmd_xip)];
    lemma_run_concat(chip, opening + erase + program, closing, buffer);
    lemma_run_concat(chip, opening + erase, program, buffer);
    lemma_run_concat(chip, opening, erase, buffer);
    lemma_run_two(chip, FlashStep::ConnectInternalFlash, FlashStep::ExitXip, buffer);
    let left = chip.run(opening, buffer);
    if ptrs.flash_range_erase {
        lemma_run_one(left, erase[0], buffer);
    }
    let cleared = left.run(erase, buffer);
    if data is Some && ptrs.flash_range_program {
        lemma_run_one(cleared, program[0], buffer);
        assert(buffer.subrange(0, len as int) =~= buffer);
    }
    let filled = cleared.run(program, buffer);
    lemma_run_two(
        filled,
        FlashStep::FlushCache,
        FlashStep::EnterCmdXip(ptrs.flash_enter_cmd_xip),
        buffer,
    );
}

/// What the steps before the critical section do to a chip in XIP mode.
proof fn lemma_snapshot_steps(chip: ChipModel, use_boot2: bool, data: Seq<u8>)
    requires
        chip.xip,
    ensures
        chip.run(snapshot_steps(use_boot2), data) == (ChipModel {
            snapshot: chip.snapshot || use_boot2,
            ..chip
        }),
{
    if use_boot2 {
        lemma_run_one(chip, FlashStep::SnapshotLoader, data);
    }
}

/// Erasing: on a chip in XIP mode, the plan of
/// [`crate::flash::flash_range_erase`] sets every byte of the range to
/// [`FLASH_ERASED_VALUE`], leaves all other bytes alone, and ends in XIP mode.
pub proof fn law_erase(chip: ChipModel, addr: u32, len: u32, use_boot2: bool)
    requires
        chip.xip,
        erase_aligned(addr, len),
    ensures
        chip.run(erase_plan(addr, len, use_boot2), Seq::empty()) == (ChipModel {
            mem: erased(chip.mem, addr as int, len as int),
            xip: true,
            snapshot: chip.snapshot || use_boot2,
        }),
{
    let data = Seq::<u8>::empty();
    let ptrs = resolved(true, false, restorer_for(use_boot2));
    lemma_snapshot_steps(chip, use_boot2, data);
    let ready = chip.run(snapshot_steps(use_boot2), data);
    lemma_run_concat(chip, snapshot_steps(use_boot2), critical_section(addr, len, false, ptrs), data);
    law_critical_section(ready, addr, len, None, ptrs);
}

/// Erasing and programming: on a chip in XIP mode, the plan of
/// [`crate::flash::flash_range_erase_and_program`] replaces the bytes of the
/// range by `data`, whatever they were, leaves all other bytes alone, and ends
/// in XIP mode.
pub proof fn law_erase_and_program(chip: ChipModel, addr: u32, data: Seq<u8>, use_boot2: bool)
    requires
        chip.xip,
        data.len() <= u32::MAX,
        erase_aligned(addr, data.len() as u32),
    ensures
        chip.run(erase_and_program_plan(addr, data.len() as u32, use_boot2), data) == (ChipModel {
            mem: written(chip.mem, addr as int, data),
            xip: true,
            snapshot: chip.snapshot || use_boot2,
        }),
{
    let len = data.len() as u32;
    let ptrs = resolved(true, true, restorer_for(use_boot2));
    crate::flash::lemma_sector_is_pages(addr as int);
    crate::flash::lemma_sector_is_pages(len as int);
    lemma_snapshot_steps(chip, use_boot2, data);
    let ready = chip.run(snapshot_steps(use_boot2), data);
    lemma_run_concat(chip, snapshot_steps(use_boot2), critical_section(addr, len, true, ptrs), data);
    law_critical_section(ready, addr, len, Some(data), ptrs);
    lemma_program_erased(chip.mem, addr as int, data);
}

/// Programming: on a chip in XIP mode, the plan of
/// [`crate::flash::flash_range_program`] clears in the range every bit that is
/// clear in `data`, sets none, leaves all other bytes alone, and ends in XIP
/// mode.
pub proof fn law_program(chip: ChipModel, addr: u32, data: Seq<u8>, use_boot2: bool)
    requires
        chip.xip,
        data.len() <= u32::MAX,
        program_aligned(addr, data.len() as u32),
    ensures
        chip.run(program_plan(addr, data.len() as u32, use_boot2), data) == (ChipModel {
            mem: programmed(chip.mem, addr as int, data),
            xip: true,
            snapshot: chip.snapshot || use_boot2,
        }),
{
    let len = data.len() as u32;
    let ptrs = resolved(false, true, restorer_for(use_boot2));
    lemma_snapshot_steps(chip, use_boot2, data);
    let ready = chip.run(snapshot_steps(use_boot2), data);
    lemma_run_concat(chip, snapshot_steps(use_boot2), critical_section(addr, len, true, ptrs), data);
    law_critical_section(ready, addr, len, Some(data), ptrs);
}

/// A flash chip held in memory.
#[derive(Debug)]
pub struct FlashChip {
    mem: Vec<u8>,
    xip: bool,
    snapshot: bool,
}

impl View for FlashChip {
    type V = ChipModel;

    closed spec fn view(&self) -> ChipModel {
        ChipModel { mem: self.mem@, xip: self.xip, snapshot: self.snapshot }
    }
}

/// Erases the bytes of `addr .. addr + count` that `mem` has.
fn erase_bytes(mem: &mut Vec<u8>, addr: u32, count: u32)
    ensures
        final(mem)@ == erased(old(mem)@, addr as int, count as int),
{
    let ghost before = mem@;
    let size = mem.len();
    let start = addr as usize;
    if start < size {
        let room = size - start;
        let n = if (count as usize) < room {
            count as usize
        } else {
            room
        };
        let mut i: usize = 0;
        while i < n
            invariant
                i <= n,
                start + n <= size,
                start == addr,
                mem@.len() == size,
                mem@ == erased(before, addr as int, i as int),
            decreases n - i,
        {
            mem[start + i] = FLASH_ERASED_VALUE;
            i += 1;
        }
    }
}

/// Programs `data` into the bytes from `addr` on that `mem` has.
fn program_bytes(mem: &mut Vec<u8>, addr: u32, data: &[u8])
    ensures
        final(mem)@ == programmed(old(mem)@, addr as int, data@),
{
    let ghost before = mem@;
    let size = mem.len();
    let start = addr as usize;
    if start < size {
        let room = size - start;
        let n = if data.len() < room {
            data.len()
        } else {
            room
        };
        let mut i: usize = 0;
        while i < n
            invariant
                i <= n,
                n <= data@.len(),
                start + n <= size,
                start == addr,
                mem@.len() == size,
                mem@ == programmed(before, addr as int, data@.subrange(0, i as int)),
            decreases n - i,
        {
            let stored = mem[start + i];
            mem[start + i] = stored & data[i];
            i += 1;
        }
        assert(programmed(before, addr as int, data@.subrange(0, n as int)) =~= programmed(
            before,
            addr as int,
            data@,
        ));
    }
}

impl FlashChip {
    /// A chip of `size` bytes, all erased, in XIP mode.
    pub fn new(size: usize) -> (chip: FlashChip)
        ensures
            chip@ == (ChipModel {
                mem: Seq::new(size as nat, |i: int| FLASH_ERASED_VALUE),
                xip: true,
                snapshot: false,
            }),
    {
        let mut mem: Vec<u8> = Vec::new();
        let mut i: usize = 0;
        while i < size
            invariant
                i <= size,
                mem@ == Seq::new(i as nat, |j: int| FLASH_ERASED_VALUE),
            decreases size - i,
        {
            mem.push(FLASH_ERASED_VALUE);
            i += 1;
        }
        FlashChip { mem, xip: true, snapshot: false }
    }

    /// A chip with the given contents, in XIP mode.
    pub fn from_bytes(mem: Vec<u8>) -> (chip: FlashChip)
        ensures
            chip@ == (ChipModel { mem: mem@, xip: true, snapshot: false }),
    {
        FlashChip { mem, xip: true, snapshot: false }
    }

    /// The number of bytes of the chip.
    pub fn size(&self) -> (size: usize)
        ensures
            size == self@.mem.len(),
    {
        self.mem.len()
    }

    /// Whether the chip is in XIP mode.
    pub fn in_xip(&self) -> (xip: bool)
        ensures
            xip == self@.xip,
    {
        self.xip
    }

    /// Reads `len` bytes at the flash offset `addr` through the XIP window.
    /// There is nothing to read while XIP mode is off, nor past the end of the
    /// chip.
    pub fn read(&self, addr: u32, len: u32) -> (bytes: Option<Vec<u8>>)
        ensures
            bytes is Some <==> self@.xip && addr + len <= self@.mem.len(),
            bytes is Some ==> bytes.unwrap()@ == self@.mem.subrange(addr as int, addr + len),
    {
        let size = self.mem.len();
        let start = addr as usize;
        if !self.xip || start > size || (len as usize) > size - start {
            return None;
        }
        let window = vstd::slice::slice_subrange(self.mem.as_slice(), start, start + len as usize);
        Some(vstd::slice::slice_to_vec(window))
    }

    /// Performs one step on the chip; program steps read from `data`.
    pub fn apply(&mut self, step: FlashStep, data: &[u8])
        ensures
            final(self)@ == old(self)@.step(step, data@),
    {
        match step {
            FlashStep::SnapshotLoader => {
                if self.xip {
                    self.snapshot = true;
                }
            },
            FlashStep::ConnectInternalFlash => {},
            FlashStep::ExitXip => {
                self.xip = false;
            },
            FlashStep::RangeErase { addr, count, .. } => {
                if !self.xip && crate::flash::is_erase_aligned(addr, count) {
                    erase_bytes(&mut self.mem, addr, count);
                }
            },
            FlashStep::RangeProgram { addr, count } => {
                if !self.xip && crate::flash::is_program_aligned(addr, count) && count as usize
                    <= data.len() {
                    let source = vstd::slice::slice_subrange(data, 0, count as usize);
                    program_bytes(&mut self.mem, addr, source);
                }
            },
            FlashStep::FlushCache => {},
            FlashStep::EnterCmdXip(restorer) => {
                match restorer {
                    XipRestorer::Rom => {
                        self.xip = true;
                    },
                    XipRestorer::LoaderSnapshot => {
                        self.xip = self.snapshot;
                    },
                }
            },
        }
    }

    /// Performs the steps of a plan on the chip, from first to last.
    pub fn run(&mut self, steps: &[FlashStep], data: &[u8])
        ensures
            final(self)@ == old(self)@.run(steps@, data@),
    {
        let ghost before = self@;
        let mut i: usize = 0;
        while i < steps.len()
            invariant
                i <= steps@.len(),
                self@ == before.run(steps@.subrange(0, i as int), data@),
            decreases steps@.len() - i,
        {
            proof {
                lemma_run_push(before, steps@.subrange(0, i as int), steps@[i as int], data@);
                assert(steps@.subrange(0, i + 1) =~= steps@.subrange(0, i as int).push(
                    steps@[i as int],
                ));
            }
            self.apply(steps[i], data);
            i += 1;
        }
        assert(steps@.subrange(0, i as int) =~= steps@);
    }
}

} // verus!
