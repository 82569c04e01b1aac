//! Single-response read commands, issued on the bus controller directly.
//!
//! Commands such as "read JEDEC ID" cannot go through the XIP window. They are
//! sent by driving the registers of the synchronous serial interface (SSI) by
//! hand while XIP mode is off. This module is the sequencer for that: a state
//! machine that names the next bus access and takes in what the access
//! returned. It never touches the hardware itself, so any backend that can
//! perform a [`BusAction`] can drive it.

use vstd::prelude::*;
use crate::flash::{FlashFunctionPointers, FlashStep, XipRestorer};

verus! {

/// Address of the first SSI register.
pub const SSI_BASE: u32 = 0x1800_0000;

/// Transfer mode "EEPROM read" in `CTRLR0` (field TMOD, bits 9:8, value 3):
/// the controller sends the command frames, then clocks in the announced number
/// of data frames.
pub const CTRLR0_TMOD_EEPROM_READ: u32 = 0x300;

/// Status bit "receive FIFO not empty" in `SR` (bit 3).
pub const SR_RFNE: u32 = 0x8;

/// Number of data frames that `CTRLR1` can announce: its field NDF is 16 bits
/// wide and holds the count minus one.
pub const MAX_FRAMES: u32 = 0x1_0000;

/// The SSI registers that a read command uses.
#[derive(Clone, Copy, Debug, PartialEq, Eq, Structural)]
pub enum Register {
    /// Control register 0: frame format and transfer mode.
    Ctrlr0,
    /// Control register 1: number of data frames of a read, minus one.
    Ctrlr1,
    /// Enable register: bit 0 switches the controller on.
    Ssienr,
    /// Status register.
    Sr,
    /// Data register: a write queues a frame, a read takes one from the receive
    /// FIFO. It is accessed one byte at a time.
    Dr0,
}

/// Offset of a register from [`SSI_BASE`].
pub open spec fn register_offset(reg: Register) -> u32 {
    match reg {
        Register::Ctrlr0 => 0x00,
        Register::Ctrlr1 => 0x04,
        Register::Ssienr => 0x08,
        Register::Sr => 0x28,
        Register::Dr0 => 0x60,
    }
}

impl Register {
    /// Offset of the register from [`SSI_BASE`].
    pub fn offset(self) -> (off: u32)
        ensures
            off == register_offset(self),
    {
        match self {
            Register::Ctrlr0 => 0x00,
            Register::Ctrlr1 => 0x04,
            Register::Ssienr => 0x08,
            Register::Sr => 0x28,
            Register::Dr0 => 0x60,
        }
    }

    /// Address of the register.
    pub fn address(self) -> (addr: u32)
        ensures
            addr == SSI_BASE + register_offset(self),
    {
        SSI_BASE + self.offset()
    }
}

/// What the backend has to do next.
#[derive(Clone, Copy, Debug, PartialEq, Eq, Structural)]
pub enum BusAction {
    /// Perform a step through the boot ROM or the loader snapshot.
    Rom(FlashStep),
    /// Read the register and hand its value to the sequencer.
    Read(Register),
    /// Write the value to the register.
    Write(Register, u32),
    /// Nothing: the command is over and the chip is back in XIP mode.
    Finished,
}

/// Where the sequencer stands; each phase is one bus access.
#[derive(Clone, Copy, Debug, PartialEq, Eq, Structural)]
pub enum Phase {
    /// Take the loader snapshot.
    Snapshot,
    /// Connect the flash pads.
    Connect,
    /// Leave XIP mode.
    ExitXip,
    /// Switch the controller off so that it can be reconfigured.
    Disable,
    /// Read control register 0.
    LoadControl,
    /// Write control register 0 back with the transfer mode set; the value to
    /// write is carried along.
    StoreControl(u32),
    /// Announce the number of frames to receive.
    SetFrames,
    /// Switch the controller on.
    Enable,
    /// Queue the command byte with the given index.
    Send(usize),
    /// Wait for a dummy frame; the count is that of dummy frames dropped so far.
    PollDummy(u32),
    /// Take a dummy frame out of the FIFO and drop it.
    DropDummy(u32),
    /// Wait for a response frame.
    PollData,
    /// Take a response frame out of the FIFO and keep it.
    TakeData,
    /// Switch the controller off.
    DisableAgain,
    /// Put the frame count back to zero, its value after reset; the XIP
    /// restorer does not do so, and XIP reads fail with any other value.
    ResetFrames,
    /// Enter XIP mode.
    EnterXip,
    /// The command is over.
    Done,
}

/// A read command: the bytes to send, the number of frames to drop after them,
/// and the number of response bytes.
#[derive(Debug)]
pub struct FlashCommand {
    /// Opcode, followed by address bytes if the command has any.
    pub cmd_addr: Vec<u8>,
    /// Number of frames that the chip sends before the response.
    pub dummy_len: u32,
    /// Number of response bytes.
    pub data_len: u32,
}

/// The sequencer as a mathematical value.
pub struct ReadModel {
    pub cmd_addr: Seq<u8>,
    pub dummy_len: u32,
    pub data_len: u32,
    pub restorer: XipRestorer,
    pub phase: Phase,
    pub data: Seq<u8>,
}

/// The state of one read command in progress.
#[derive(Debug)]
pub struct ReadState {
    cmd: FlashCommand,
    restorer: XipRestorer,
    phase: Phase,
    data: Vec<u8>,
}

impl View for ReadState {
    type V = ReadModel;

    closed spec fn view(&self) -> ReadModel {
        ReadModel {
            cmd_addr: self.cmd.cmd_addr@,
            dummy_len: self.cmd.dummy_len,
            data_len: self.cmd.data_len,
            restorer: self.restorer,
            phase: self.phase,
            data: self.data@,
        }
    }
}

impl ReadState {
    /// Only states that a command passes through exist.
    #[verifier::type_invariant]
    spec fn well_formed(&self) -> bool {
        self@.wf()
    }
}

/// Whether the status value says that a frame waits in the receive FIFO.
pub open spec fn rx_ready(status: u32) -> bool {
    status & SR_RFNE != 0
}

/// The byte that a read of the data register delivered.
pub open spec fn frame_byte(value: u32) -> u8 {
    (value % 256) as u8
}

/// Whether a command can be issued: it sends at least one byte, expects at
/// least one, and the frames to receive fit the frame counter.
pub open spec fn command_ok(cmd_len: nat, dummy_len: u32, data_len: u32) -> bool {
    &&& 1 <= cmd_len <= u32::MAX
    &&& 1 <= data_len
    &&& dummy_len + data_len <= MAX_FRAMES
}

impl ReadModel {
    /// The first state of a command.
    pub open spec fn start(
        cmd_addr: Seq<u8>,
        dummy_len: u32,
        data_len: u32,
        restorer: XipRestorer,
        phase: Phase,
    ) -> ReadModel {
        ReadModel { cmd_addr, dummy_len, data_len, restorer, phase, data: Seq::empty() }
    }

    /// Whether the response is still empty in this phase.
    pub open spec fn before_response(self) -> bool {
        match self.phase {
            Phase::Snapshot
            | Phase::Connect
            | Phase::ExitXip
            | Phase::Disable
            | Phase::LoadControl
            | Phase::StoreControl(_)
            | Phase::SetFrames
            | Phase::Enable
            | Phase::Send(_)
            | Phase::PollDummy(_)
            | Phase::DropDummy(_) => true,
            _ => false,
        }
    }

    /// Whether the response is complete in this phase.
    pub open spec fn after_response(self) -> bool {
        match self.phase {
            Phase::DisableAgain | Phase::ResetFrames | Phase::EnterXip | Phase::Done => true,
            _ => false,
        }
    }

    /// The states that a command passes through.
    pub open spec fn wf(self) -> bool {
        &&& command_ok(self.cmd_addr.len(), self.dummy_len, self.data_len)
        &&& self.data.len() <= self.data_len
        &&& self.before_response() ==> self.data.len() == 0
        &&& self.after_response() ==> self.data.len() == self.data_len
        &&& match self.phase {
            Phase::Send(i) => i < self.cmd_addr.len(),
            Phase::PollDummy(k) | Phase::DropDummy(k) => k < self.dummy_len,
            Phase::PollData | Phase::TakeData => self.data.len() < self.data_len,
            _ => true,
        }
    }

    /// The phase after the last command byte, or after the last dummy frame.
    pub open spec fn receive_phase(self, dropped: int) -> Phase {
        if dropped < self.dummy_len {
            Phase::PollDummy(dropped as u32)
        } else {
            Phase::PollData
        }
    }

    /// The bus access of the current phase.
    pub open spec fn action(self) -> BusAction {
        match self.phase {
            Phase::Snapshot => BusAction::Rom(FlashStep::SnapshotLoader),
            Phase::Connect => BusAction::Rom(FlashStep::ConnectInternalFlash),
            Phase::ExitXip => BusAction::Rom(FlashStep::ExitXip),
            Phase::Disable => BusAction::Write(Register::Ssienr, 0),
            Phase::LoadControl => BusAction::Read(Register::Ctrlr0),
            Phase::StoreControl(value) => BusAction::Write(Register::Ctrlr0, value),
            Phase::SetFrames => BusAction::Write(
                Register::Ctrlr1,
                (self.dummy_len + self.data_len - 1) as u32,
            ),
            Phase::Enable => BusAction::Write(Register::Ssienr, 1),
            Phase::Send(i) => BusAction::Write(Register::Dr0, self.cmd_addr[i as int] as u32),
            Phase::PollDummy(_) => BusAction::Read(Register::Sr),
            Phase::DropDummy(_) => BusAction::Read(Register::Dr0),
            Phase::PollData => BusAction::Read(Register::Sr),
            Phase::TakeData => BusAction::Read(Register::Dr0),
            Phase::DisableAgain => BusAction::Write(Register::Ssienr, 0),
            Phase::ResetFrames => BusAction::Write(Register::Ctrlr1, 0),
            Phase::EnterXip => BusAction::Rom(FlashStep::EnterCmdXip(self.restorer)),
            Phase::Done => BusAction::Finished,
        }
    }

    /// The state after the current access has been performed. `input` is the
    /// value that a register read returned; after a ROM step or a register write
    /// it is ignored.
    pub open spec fn next(self, input: u32) -> ReadModel {
        match self.phase {
            Phase::Snapshot => ReadModel { phase: Phase::Connect, ..self },
            Phase::Connect => ReadModel { phase: Phase::ExitXip, ..self },
            Phase::ExitXip => ReadModel { phase: Phase::Disable, ..self },
            Phase::Disable => ReadModel { phase: Phase::LoadControl, ..self },
            Phase::LoadControl => ReadModel {
                phase: Phase::StoreControl(input | CTRLR0_TMOD_EEPROM_READ),
                ..self
            },
            Phase::StoreControl(_) => ReadModel { phase: Phase::SetFrames, ..self },
            Phase::SetFrames => ReadModel { phase: Phase::Enable, ..self },
            Phase::Enable => ReadModel { phase: Phase::Send(0), ..self },
            Phase::Send(i) => if i + 1 < self.cmd_addr.len() {
                ReadModel { phase: Phase::Send((i + 1) as usize), ..self }
            } else {
                ReadModel { phase: self.receive_phase(0), ..self }
            },
            Phase::PollDummy(k) => if rx_ready(input) {
                ReadModel { phase: Phase::DropDummy(k), ..self }
            } else {
                self
            },
            Phase::DropDummy(k) => ReadModel { phase: self.receive_phase(k + 1), ..self },
            Phase::PollData => if rx_ready(input) {
                ReadModel { phase: Phase::TakeData, ..self }
            } else {
                self
            },
            Phase::TakeData => ReadModel {
                phase: if self.data.len() + 1 < self.data_len {
                    Phase::PollData
                } else {
                    Phase::DisableAgain
                },
                data: self.data.push(frame_byte(input)),
                ..self
            },
            Phase::DisableAgain => ReadModel { phase: Phase::ResetFrames, ..self },
            Phase::ResetFrames => ReadModel { phase: Phase::EnterXip, ..self },
            Phase::EnterXip => ReadModel { phase: Phase::Done, ..self },
            Phase::Done => self,
        }
    }
}

impl ReadState {
    /// The phase that the command is in.
    pub fn phase(&self) -> (phase: Phase)
        ensures
            phase == self@.phase,
    {
        self.phase
    }

    /// Whether the command is over.
    pub fn is_done(&self) -> (done: bool)
        ensures
            done == (self@.phase == Phase::Done),
    {
        match self.phase {
            Phase::Done => true,
            _ => false,
        }
    }

    /// The response bytes received so far; all of them once the command is over.
    pub fn response(&self) -> (data: &Vec<u8>)
        ensures
            data@ == self@.data,
            self@.wf(),
    {
        proof {
            use_type_invariant(self);
        }
        &self.data
    }

    /// Puts the loader snapshot in front of a command that has not begun.
    pub fn preceded_by_snapshot(self) -> (state: ReadState)
        requires
            self@.phase == Phase::Connect,
        ensures
            state@ == (ReadModel { phase: Phase::Snapshot, ..self@ }),
            state@.wf(),
    {
        proof {
            use_type_invariant(&self);
        }
        ReadState { cmd: self.cmd, restorer: self.restorer, phase: Phase::Snapshot, data: self.data }
    }

    /// The bus access to perform now.
    pub fn action(&self) -> (action: BusAction)
        ensures
            action == self@.action(),
            self@.wf(),
    {
        proof {
            use_type_invariant(self);
        }
        match self.phase {
            Phase::Snapshot => BusAction::Rom(FlashStep::SnapshotLoader),
            Phase::Connect => BusAction::Rom(FlashStep::ConnectInternalFlash),
            Phase::ExitXip => BusAction::Rom(FlashStep::ExitXip),
            Phase::Disable => BusAction::Write(Register::Ssienr, 0),
            Phase::LoadControl => BusAction::Read(Register::Ctrlr0),
            Phase::StoreControl(value) => BusAction::Write(Register::Ctrlr0, value),
            Phase::SetFrames => BusAction::Write(
                Register::Ctrlr1,
                self.cmd.dummy_len + self.cmd.data_len - 1,
            ),
            Phase::Enable => BusAction::Write(Register::Ssienr, 1),
            Phase::Send(i) => BusAction::Write(Register::Dr0, self.cmd.cmd_addr[i] as u32),
            Phase::PollDummy(_) => BusAction::Read(Register::Sr),
            Phase::DropDummy(_) => BusAction::Read(Register::Dr0),
            Phase::PollData => BusAction::Read(Register::Sr),
            Phase::TakeData => BusAction::Read(Register::Dr0),
            Phase::DisableAgain => BusAction::Write(Register::Ssienr, 0),
            Phase::ResetFrames => BusAction::Write(Register::Ctrlr1, 0),
            Phase::EnterXip => BusAction::Rom(FlashStep::EnterCmdXip(self.restorer)),
            Phase::Done => BusAction::Finished,
        }
    }
}

/// The phase in which frames are received once `dropped` dummy frames are gone.
fn receive_phase(cmd: &FlashCommand, dropped: u32) -> (phase: Phase)
    ensures
        phase == if dropped < cmd.dummy_len {
            Phase::PollDummy(dropped)
        } else {
            Phase::PollData
        },
{
    if dropped < cmd.dummy_len {
        Phase::PollDummy(dropped)
    } else {
        Phase::PollData
    }
}

/// Whether the status value says that a frame waits in the receive FIFO.
pub fn is_rx_ready(status: u32) -> (ready: bool)
    ensures
        ready == rx_ready(status),
{
    status & SR_RFNE != 0
}

/// Whether a command of `cmd_len` bytes with these frame counts can be issued.
pub fn is_command_ok(cmd_len: usize, dummy_len: u32, data_len: u32) -> (ok: bool)
    ensures
        ok == command_ok(cmd_len as nat, dummy_len, data_len),
{
    1 <= cmd_len && cmd_len <= u32::MAX as usize && 1 <= data_len && data_len <= MAX_FRAMES
        && dummy_len <= MAX_FRAMES - data_len
}

/// Sets up a read command that sends `cmd_addr`, drops `dummy_len` frames and
/// receives `data_len` bytes, with the XIP restorer of `ptrs`.
pub fn read_flash(cmd_addr: &[u8], dummy_len: u32, data_len: u32, ptrs: &FlashFunctionPointers) -> (state:
    ReadState)
    requires
        command_ok(cmd_addr@.len(), dummy_len, data_len),
    ensures
        state@ == ReadModel::start(
            cmd_addr@,
            dummy_len,
            data_len,
            ptrs.flash_enter_cmd_xip,
            Phase::Connect,
        ),
        state@.wf(),
{
    let cmd = FlashCommand { cmd_addr: vstd::slice::slice_to_vec(cmd_addr), dummy_len, data_len };
    ReadState { cmd, restorer: ptrs.flash_enter_cmd_xip, phase: Phase::Connect, data: Vec::new() }
}

/// Moves a read command on by one bus access.
///
/// `state` is the command before the access that [`ReadState::action`] named,
/// `input` the value that the access returned if it was a register read. While
/// the receive FIFO is empty the command stays where it is and polls again;
/// there is no timeout.
pub fn read_flash_inner(state: ReadState, input: u32) -> (after: ReadState)
    ensures
        after@ == state@.next(input),
        after@.wf(),
{
    proof {
        use_type_invariant(&state);
    }
    let ReadState { cmd, restorer, phase, data } = state;
    let mut data = data;
    let phase = match phase {
        Phase::Snapshot => Phase::Connect,
        Phase::Connect => Phase::ExitXip,
        Phase::ExitXip => Phase::Disable,
        Phase::Disable => Phase::LoadControl,
        Phase::LoadControl => Phase::StoreControl(input | CTRLR0_TMOD_EEPROM_READ),
        Phase::StoreControl(_) => Phase::SetFrames,
        Phase::SetFrames => Phase::Enable,
        Phase::Enable => Phase::Send(0),
        Phase::Send(i) => {
            if i + 1 < cmd.cmd_addr.len() {
                Phase::Send(i + 1)
            } else {
                receive_phase(&cmd, 0)
            }
        },
        Phase::PollDummy(k) => {
            if is_rx_ready(input) {
                Phase::DropDummy(k)
            } else {
                Phase::PollDummy(k)
            }
        },
        Phase::DropDummy(k) => receive_phase(&cmd, k + 1),
        Phase::PollData => {
            if is_rx_ready(input) {
                Phase::TakeData
            } else {
                Phase::PollData
            }
        },
        Phase::TakeData => {
            data.push((input % 256) as u8);
            if data.len() < cmd.data_len as usize {
                Phase::PollData
            } else {
                Phase::DisableAgain
            }
        },
        Phase::DisableAgain => Phase::ResetFrames,
        Phase::ResetFrames => Phase::EnterXip,
        Phase::EnterXip => Phase::Done,
        Phase::Done => Phase::Done,
    };
    ReadState { cmd, restorer, phase, data }
}

/// A bus on which every frame is there when it is asked for: the value of
/// control register 0, a status value, and the frames that the chip sends after
/// the command, dummy frames first.
pub struct ReadyBus {
    pub control: u32,
    pub status: u32,
    pub frames: Seq<u8>,
}

impl ReadyBus {
    /// Whether the bus answers the command of `state`: its status shows a frame
    /// waiting, and it has a frame for every one that the command receives.
    pub open spec fn serves(self, state: ReadModel) -> bool {
        &&& rx_ready(self.status)
        &&& self.frames.len() == state.dummy_len + state.data_len
    }

    /// What the bus returns to the access of `state`.
    pub open spec fn answer(self, state: ReadModel) -> u32 {
        match state.phase {
            Phase::LoadControl => self.control,
            Phase::PollDummy(_) | Phase::PollData => self.status,
            Phase::DropDummy(k) => self.frames[k as int] as u32,
            Phase::TakeData => self.frames[state.dummy_len + state.data.len()] as u32,
            _ => 0,
        }
    }

    /// The command after `steps` accesses to the bus.
    pub open spec fn drive(self, state: ReadModel, steps: nat) -> ReadModel
        decreases steps,
    {
        if steps == 0 {
            state
        } else {
            self.drive(state.next(self.answer(state)), (steps - 1) as nat)
        }
    }
}

impl ReadModel {
    /// Number of accesses from the receive phase to the end, with `dropped`
    /// dummy frames gone and `taken` response bytes there.
    pub open spec fn receive_steps(self, dropped: int, taken: int) -> int {
        2 * (self.dummy_len - dropped) + 2 * (self.data_len - taken) + 3
    }

    /// Number of accesses that the command still makes on a bus that never
    /// keeps it waiting.
    pub open spec fn steps_left(self) -> int {
        match self.phase {
            Phase::Snapshot => 8 + self.cmd_addr.len() + self.receive_steps(0, 0),
            Phase::Connect => 7 + self.cmd_addr.len() + self.receive_steps(0, 0),
            Phase::ExitXip => 6 + self.cmd_addr.len() + self.receive_steps(0, 0),
            Phase::Disable => 5 + self.cmd_addr.len() + self.receive_steps(0, 0),
            Phase::LoadControl => 4 + self.cmd_addr.len() + self.receive_steps(0, 0),
            Phase::StoreControl(_) => 3 + self.cmd_addr.len() + self.receive_steps(0, 0),
            Phase::SetFrames => 2 + self.cmd_addr.len() + self.receive_steps(0, 0),
            Phase::Enable => 1 + self.cmd_addr.len() + self.receive_steps(0, 0),
            Phase::Send(i) => self.cmd_addr.len() - i + self.receive_steps(0, 0),
            Phase::PollDummy(k) => self.receive_steps(k as int, 0),
            Phase::DropDummy(k) => self.receive_steps(k as int, 0) - 1,
            Phase::PollData => self.receive_steps(self.dummy_len as int, self.data.len() as int),
            Phase::TakeData => self.receive_steps(self.dummy_len as int, self.data.len() as int)
                - 1,
            Phase::DisableAgain => 3,
            Phase::ResetFrames => 2,
            Phase::EnterXip => 1,
            Phase::Done => 0,
        }
    }
}

/// While the receive FIFO is empty the command waits where it is.
pub proof fn law_poll_waits(state: ReadModel, status: u32)
    requires
        state.phase is PollDummy || state.phase is PollData,
        !rx_ready(status),
    ensures
        state.next(status) == state,
{
}

/// One access on a ready bus brings the command one step closer to its end and
/// adds to the response nothing but the frame that was due.
proof fn lemma_ready_step(bus: ReadyBus, state: ReadModel)
    requires
        state.wf(),
        bus.serves(state),
        state.phase != Phase::Done,
        state.data == bus.frames.subrange(
            state.dummy_len as int,
            state.dummy_len + state.data.len(),
        ),
    ensures
        ({
            let after = state.next(bus.answer(state));
            &&& after.wf()
            &&& bus.serves(after)
            &&& after.steps_left() == state.steps_left() - 1
            &&& after.data == bus.frames.subrange(
                after.dummy_len as int,
                after.dummy_len + after.data.len(),
            )
        }),
{
    let after = state.next(bus.answer(state));
    if state.phase is TakeData {
        let frame = bus.frames[state.dummy_len + state.data.len()];
        assert(frame_byte(frame as u32) == frame);
        assert(after.data =~= bus.frames.subrange(
            after.dummy_len as int,
            after.dummy_len + after.data.len(),
        ));
    }
}

/// On a ready bus a command that is under way comes to its end after
/// `steps_left` accesses, and its response is then the frames that followed the
/// dummy frames, in the order in which the chip sent them.
pub proof fn law_ready_run(bus: ReadyBus, state: ReadModel)
    requires
        state.wf(),
        bus.serves(state),
        state.data == bus.frames.subrange(
            state.dummy_len as int,
            state.dummy_len + state.data.len(),
        ),
    ensures
        state.steps_left() >= 0,
        ({
            let end = bus.drive(state, state.steps_left() as nat);
            &&& end.phase == Phase::Done
            &&& end.data == bus.frames.subrange(
                state.dummy_len as int,
                state.dummy_len + state.data_len,
            )
            &&& end.cmd_addr == state.cmd_addr
            &&& end.restorer == state.restorer
        }),
    decreases state.steps_left(),
{
    if state.phase != Phase::Done {
        lemma_ready_step(bus, state);
        law_ready_run(bus, state.next(bus.answer(state)));
    }
}

/// A command that [`read_flash`] has set up, run on a ready bus from its first
/// access, returns the frames that followed the dummy frames.
pub proof fn law_read_response(
    bus: ReadyBus,
    cmd_addr: Seq<u8>,
    dummy_len: u32,
    data_len: u32,
    restorer: XipRestorer,
)
    requires
        command_ok(cmd_addr.len(), dummy_len, data_len),
        bus.frames.len() == dummy_len + data_len,
        rx_ready(bus.status),
    ensures
        ({
            let state = ReadModel::start(cmd_addr, dummy_len, data_len, restorer, Phase::Connect);
            let end = bus.drive(state, (7 + cmd_addr.len() + 2 * dummy_len + 2 * data_len + 3) as nat);
            &&& end.phase == Phase::Done
            &&& end.data == bus.frames.subrange(dummy_len as int, dummy_len + data_len)
        }),
{
    let state = ReadModel::start(cmd_addr, dummy_len, data_len, restorer, Phase::Connect);
    assert(state.data =~= bus.frames.subrange(dummy_len as int, dummy_len + 0));
    law_ready_run(bus, state);
}

} // verus!
