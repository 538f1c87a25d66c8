use vstd::prelude::*;
use arrayvec::ArrayVec;
use crate::arrayvec_specs::{bytes8, bytes8_len, bytes8_new, bytes8_pop_front, bytes8_push, bytes8_set};
use crate::addressable::{AccessWidth, Addressable};
use crate::irq::{with_bit, InterruptController};
use crate::scheduler::{spec_insert_task, spec_unscheduled, Event, Scheduler, Task, lemma_unscheduled_len_bound};

verus! {

/// Where a controller is in its reply to a poll.
#[derive(Debug, Clone, Copy, PartialEq, Eq, Structural)]
pub enum GamepadState {
    Init,
    IdLow,
    IdHigh,
    SwitchLow,
    SwitchHigh,
    AnalogInput0,
    AnalogInput1,
    AnalogInput2,
    AnalogInput3,
}

impl GamepadState {
    pub open spec fn spec_index(self) -> int {
        match self {
            GamepadState::Init => 0,
            GamepadState::IdLow => 1,
            GamepadState::IdHigh => 2,
            GamepadState::SwitchLow => 3,
            GamepadState::SwitchHigh => 4,
            GamepadState::AnalogInput0 => 5,
            GamepadState::AnalogInput1 => 6,
            GamepadState::AnalogInput2 => 7,
            GamepadState::AnalogInput3 => 8,
        }
    }

    fn index(self) -> (r: usize)
        ensures
            r == self.spec_index(),
    {
        match self {
            GamepadState::Init => 0,
            GamepadState::IdLow => 1,
            GamepadState::IdHigh => 2,
            GamepadState::SwitchLow => 3,
            GamepadState::SwitchHigh => 4,
            GamepadState::AnalogInput0 => 5,
            GamepadState::AnalogInput1 => 6,
            GamepadState::AnalogInput2 => 7,
            GamepadState::AnalogInput3 => 8,
        }
    }
}

/// The controller's buttons, in the order of their bits.
#[derive(Copy, Clone)]
pub enum Button {
    Select,
    L3,
    R3,
    Start,
    Up,
    Right,
    Down,
    Left,
    L2,
    R2,
    L1,
    R1,
    Triangle,
    Circle,
    Cross,
    Square,
}

impl Button {
    /// The button's bit in the digital switch word.
    pub open spec fn spec_bit(self) -> u16 {
        match self {
            Button::Select => 0,
            Button::L3 => 1,
            Button::R3 => 2,
            Button::Start => 3,
            Button::Up => 4,
            Button::Right => 5,
            Button::Down => 6,
            Button::Left => 7,
            Button::L2 => 8,
            Button::R2 => 9,
            Button::L1 => 10,
            Button::R1 => 11,
            Button::Triangle => 12,
            Button::Circle => 13,
            Button::Cross => 14,
            Button::Square => 15,
        }
    }

    /// The button's bit in the digital switch word.
    pub fn bit(self) -> (r: u16)
        ensures
            r == self.spec_bit(),
            r < 16,
    {
        match self {
            Button::Select => 0,
            Button::L3 => 1,
            Button::R3 => 2,
            Button::Start => 3,
            Button::Up => 4,
            Button::Right => 5,
            Button::Down => 6,
            Button::Left => 7,
            Button::L2 => 8,
            Button::R2 => 9,
            Button::L1 => 10,
            Button::R1 => 11,
            Button::Triangle => 12,
            Button::Circle => 13,
            Button::Cross => 14,
            Button::Square => 15,
        }
    }
}

/// The analog sticks' axes, in the order of `joystick_axes`.
#[derive(Copy, Clone)]
pub enum Axis {
    RightX,
    RightY,
    LeftX,
    LeftY,
}

/// A digital or an analog controller.
#[derive(Debug, Clone, Copy, PartialEq, Eq, Structural)]
pub enum GamepadMode {
    Digital,
    Analog,
}

/// Entry `i` of the reply sequence of a controller in mode `m`: the state
/// and, when the state must see one, the byte the console sends.
pub open spec fn spec_pad_table(m: GamepadMode, i: int) -> (GamepadState, Option<u8>) {
    match m {
        GamepadMode::Digital => if i == 0 {
            (GamepadState::Init, None)
        } else if i == 1 {
            (GamepadState::IdLow, Some(0x01u8))
        } else if i == 2 {
            (GamepadState::IdHigh, Some(0x42u8))
        } else if i == 3 {
            (GamepadState::SwitchLow, None)
        } else {
            (GamepadState::SwitchHigh, None)
        },
        GamepadMode::Analog => if i == 0 {
            (GamepadState::Init, Some(0x00u8))
        } else if i == 1 {
            (GamepadState::IdLow, Some(0x01u8))
        } else if i == 2 {
            (GamepadState::IdHigh, Some(0x42u8))
        } else if i == 3 {
            (GamepadState::SwitchLow, None)
        } else if i == 4 {
            (GamepadState::SwitchHigh, None)
        } else if i == 5 {
            (GamepadState::AnalogInput0, None)
        } else if i == 6 {
            (GamepadState::AnalogInput1, Some(0x00u8))
        } else if i == 7 {
            (GamepadState::AnalogInput2, Some(0x00u8))
        } else {
            (GamepadState::AnalogInput3, Some(0x00u8))
        },
    }
}

/// Length of the reply sequence of a controller in mode `m`.
pub open spec fn spec_pad_len(m: GamepadMode) -> int {
    match m {
        GamepadMode::Digital => 5,
        GamepadMode::Analog => 9,
    }
}

/// The state after `cur` when the console sends `byte`, or `None` when the
/// byte is not the one expected.
pub open spec fn spec_pad_next(m: GamepadMode, cur: GamepadState, byte: u8) -> Option<GamepadState> {
    let e = spec_pad_table(m, (cur.spec_index() + 1) % spec_pad_len(m));
    if e.1 matches Some(b) && b != byte {
        None
    } else {
        Some(e.0)
    }
}

impl GamepadMode {
    /// The two ID bytes the controller answers with.
    pub open spec fn spec_id(self) -> (u8, u8) {
        match self {
            GamepadMode::Digital => (0x41, 0x5a),
            GamepadMode::Analog => (0x73, 0x5a),
        }
    }

    fn id(self) -> (r: (u8, u8))
        ensures
            r == self.spec_id(),
    {
        match self {
            GamepadMode::Digital => (0x41, 0x5a),
            GamepadMode::Analog => (0x73, 0x5a),
        }
    }

    /// The state after `current_state` when the console sends
    /// `received_byte`, or `None` when it is not the byte expected.
    pub fn next(self, current_state: GamepadState, received_byte: u8) -> (r: Option<GamepadState>)
        ensures
            r == spec_pad_next(self, current_state, received_byte),
    {
        let len: usize = match self {
            GamepadMode::Digital => 5,
            GamepadMode::Analog => 9,
        };
        let i = (current_state.index() + 1) % len;
        let (next_state, check_byte): (GamepadState, Option<u8>) = match self {
            GamepadMode::Digital => if i == 0 {
                (GamepadState::Init, None)
            } else if i == 1 {
                (GamepadState::IdLow, Some(0x01u8))
            } else if i == 2 {
                (GamepadState::IdHigh, Some(0x42u8))
            } else if i == 3 {
                (GamepadState::SwitchLow, None)
            } else {
                (GamepadState::SwitchHigh, None)
            },
            GamepadMode::Analog => if i == 0 {
                (GamepadState::Init, Some(0x00u8))
            } else if i == 1 {
                (GamepadState::IdLow, Some(0x01u8))
            } else if i == 2 {
                (GamepadState::IdHigh, Some(0x42u8))
            } else if i == 3 {
                (GamepadState::SwitchLow, None)
            } else if i == 4 {
                (GamepadState::SwitchHigh, None)
            } else if i == 5 {
                (GamepadState::AnalogInput0, None)
            } else if i == 6 {
                (GamepadState::AnalogInput1, Some(0x00u8))
            } else if i == 7 {
                (GamepadState::AnalogInput2, Some(0x00u8))
            } else {
                (GamepadState::AnalogInput3, Some(0x00u8))
            },
        };
        match check_byte {
            Some(b) => if b == received_byte {
                Some(next_state)
            } else {
                None
            },
            None => Some(next_state),
        }
    }
}

/// A controller plugged into a port.
pub struct Gamepad {
    pub state: GamepadState,
    pub mode: GamepadMode,
    pub in_ack: bool,
    /// Button bits, 0 when pressed.
    pub digital_switches: u16,
    /// Right X, right Y, left X, left Y.
    pub joystick_axes: [u8; 4],
}

/// The byte a controller in state `g` answers with.
/// The controller back to waiting for a poll, its inputs kept.
pub open spec fn spec_pad_reset(g: Gamepad) -> Gamepad {
    Gamepad { state: GamepadState::Init, in_ack: false, ..g }
}

pub open spec fn spec_pad_reply(g: Gamepad) -> u8 {
    match g.state {
        GamepadState::Init => 0xff,
        GamepadState::IdLow => g.mode.spec_id().0,
        GamepadState::IdHigh => g.mode.spec_id().1,
        GamepadState::SwitchLow => g.digital_switches as u8,
        GamepadState::SwitchHigh => (g.digital_switches >> 8u16) as u8,
        GamepadState::AnalogInput0 => g.joystick_axes[0],
        GamepadState::AnalogInput1 => g.joystick_axes[1],
        GamepadState::AnalogInput2 => g.joystick_axes[2],
        GamepadState::AnalogInput3 => g.joystick_axes[3],
    }
}

/// One byte `data` exchanged with controller `old`, giving `new` and the
/// answer `r`.
pub open spec fn spec_pad_step(old: Gamepad, data: u8, new: Gamepad, r: u8) -> bool {
    &&& new.mode == old.mode
    &&& new.digital_switches == old.digital_switches
    &&& new.joystick_axes == old.joystick_axes
    &&& match spec_pad_next(old.mode, old.state, data) {
        Some(st) => new.state == st && new.in_ack == (st != GamepadState::Init) && r == spec_pad_reply(old),
        None => new.state == GamepadState::Init && !new.in_ack && r == 0xff,
    }
}

impl Default for Gamepad {
    /// A digital controller with no button pressed and centred sticks.
    fn default() -> (r: Self)
        ensures
            r.state == GamepadState::Init,
            r.mode == GamepadMode::Digital,
            !r.in_ack,
            r.digital_switches == 0xffff,
            r.joystick_axes@ == seq![0x80u8, 0x80, 0x80, 0x80],
    {
        let r = Gamepad {
            state: GamepadState::Init,
            mode: GamepadMode::Digital,
            digital_switches: 0xFFFF,
            joystick_axes: [0x80; 4],
            in_ack: false,
        };
        assert(r.joystick_axes@ =~= seq![0x80u8, 0x80, 0x80, 0x80]);
        r
    }
}

impl Gamepad {
    /// Exchanges one byte: answers for the current state and moves on when
    /// the console sent what the state expects; otherwise goes back to the
    /// start and answers FFh.
    pub fn send_and_receive_byte(&mut self, data: u8) -> (r: u8)
        ensures
            spec_pad_step(*old(self), data, *final(self), r),
    {
        let (id_low, id_high) = self.mode.id();
        let received = match self.state {
            GamepadState::Init => 0xFF,
            GamepadState::IdLow => id_low,
            GamepadState::IdHigh => id_high,
            GamepadState::SwitchLow => self.digital_switches as u8,
            GamepadState::SwitchHigh => (self.digital_switches >> 8) as u8,
            GamepadState::AnalogInput0 => self.joystick_axes[0],
            GamepadState::AnalogInput1 => self.joystick_axes[1],
            GamepadState::AnalogInput2 => self.joystick_axes[2],
            GamepadState::AnalogInput3 => self.joystick_axes[3],
        };
        match self.mode.next(self.state, data) {
            Some(state) => {
                self.state = state;
                self.in_ack = state != GamepadState::Init;
                received
            },
            None => {
                self.reset();
                0xFF
            },
        }
    }

    /// Whether the controller acknowledged the last byte.
    pub fn in_ack(&self) -> (r: bool)
        ensures
            r == self.in_ack,
    {
        self.in_ack
    }

    /// Goes back to waiting for a poll.
    pub fn reset(&mut self)
        ensures
            *final(self) == spec_pad_reset(*old(self)),
    {
        self.in_ack = false;
        self.state = GamepadState::Init;
    }

    /// Sets the sticks: `(x, y)` of the left and of the right one.
    pub fn set_stick_axis(&mut self, left: (u8, u8), right: (u8, u8))
        ensures
            final(self).joystick_axes@ == seq![right.0, right.1, left.0, left.1],
            final(self).state == old(self).state && final(self).mode == old(self).mode,
            final(self).in_ack == old(self).in_ack,
            final(self).digital_switches == old(self).digital_switches,
    {
        self.joystick_axes = [right.0, right.1, left.0, left.1];
        assert(self.joystick_axes@ =~= seq![right.0, right.1, left.0, left.1]);
    }

    /// Sets the button bits (0 when pressed).
    pub fn set_buttons(&mut self, buttons: u16)
        ensures
            final(self).digital_switches == buttons,
            final(self).state == old(self).state && final(self).mode == old(self).mode,
            final(self).in_ack == old(self).in_ack,
            final(self).joystick_axes == old(self).joystick_axes,
    {
        self.digital_switches = buttons;
    }

    /// Presses (`pressed`) or releases one button: its bit goes to 0 while
    /// it is held, back to 1 when let go.
    pub fn set_button(&mut self, button: Button, pressed: bool)
        ensures
            final(self).digital_switches == with_bit16(old(self).digital_switches, button.spec_bit(), !pressed),
            *final(self) == (Gamepad { digital_switches: final(self).digital_switches, ..*old(self) }),
    {
        let b = button.bit();
        self.digital_switches = set_bit16(self.digital_switches, b, !pressed);
    }
}

/// Where a memory card is in a command.
#[derive(Debug, Clone, Copy, PartialEq, Eq, Structural)]
pub enum MemcardState {
    Init,
    Flag,
    CardId1,
    CardId2,
    CmdAck1,
    CmdAck2,
    Recv04h,
    Recv00h,
    Recv80h,
    SendMsb,
    SendLsb,
    SendSector,
    RecvSector,
    SendChecksum,
    RecvChecksum,
    AckMsb,
    AckLsb,
    MemEnd,
}

/// The status byte that ends a read or write.
#[derive(Clone, Copy, PartialEq, Eq, Structural, Debug)]
pub enum EndResponse {
    Good,
    BadChecksum,
    BadSector,
}

impl EndResponse {
    pub open spec fn spec_code(self) -> u8 {
        match self {
            EndResponse::Good => 0x47,
            EndResponse::BadChecksum => 0x4e,
            EndResponse::BadSector => 0xff,
        }
    }

    /// The byte sent for this status.
    pub fn code(self) -> (r: u8)
        ensures
            r == self.spec_code(),
    {
        match self {
            EndResponse::Good => 0x47,
            EndResponse::BadChecksum => 0x4e,
            EndResponse::BadSector => 0xff,
        }
    }
}

/// A memory card command.
#[derive(Debug, Clone, Copy, PartialEq, Eq, Structural)]
pub enum MemcardCommand {
    Read,
    Write,
    GetId,
}

/// Length of the state sequence of command `c`.
pub open spec fn spec_mc_len(c: MemcardCommand) -> int {
    match c {
        MemcardCommand::Read => 13,
        MemcardCommand::Write => 11,
        MemcardCommand::GetId => 10,
    }
}

/// Entry `i` of the state sequence of command `c`: the state and, when the
/// state must see one, the byte the console sends.
pub open spec fn spec_mc_table(c: MemcardCommand, i: int) -> (MemcardState, Option<u8>) {
    match c {
        MemcardCommand::GetId => if i == 0 {
            (MemcardState::Init, None)
        } else if i == 1 {
            (MemcardState::Flag, Some(0x81u8))
        } else if i == 2 {
            (MemcardState::CardId1, Some(0x53u8))
        } else if i == 3 {
            (MemcardState::CardId2, Some(0x00u8))
        } else if i == 4 {
            (MemcardState::CmdAck1, Some(0x00u8))
        } else if i == 5 {
            (MemcardState::CmdAck2, Some(0x00u8))
        } else if i == 6 {
            (MemcardState::Recv04h, Some(0x00u8))
        } else if i == 7 || i == 8 {
            (MemcardState::Recv00h, Some(0x00u8))
        } else {
            (MemcardState::Recv80h, Some(0x00u8))
        },
        MemcardCommand::Read => if i == 0 {
            (MemcardState::Init, None)
        } else if i == 1 {
            (MemcardState::Flag, Some(0x81u8))
        } else if i == 2 {
            (MemcardState::CardId1, Some(0x52u8))
        } else if i == 3 {
            (MemcardState::CardId2, Some(0x00u8))
        } else if i == 4 {
            (MemcardState::SendMsb, Some(0x00u8))
        } else if i == 5 {
            (MemcardState::SendLsb, None)
        } else if i == 6 {
            (MemcardState::CmdAck1, None)
        } else if i == 7 {
            (MemcardState::CmdAck2, Some(0x00u8))
        } else if i == 8 {
            (MemcardState::AckMsb, Some(0x00u8))
        } else if i == 9 {
            (MemcardState::AckLsb, Some(0x00u8))
        } else if i == 10 {
            (MemcardState::RecvSector, Some(0x00u8))
        } else if i == 11 {
            (MemcardState::RecvChecksum, Some(0x00u8))
        } else {
            (MemcardState::MemEnd, Some(0x00u8))
        },
        MemcardCommand::Write => if i == 0 {
            (MemcardState::Init, None)
        } else if i == 1 {
            (MemcardState::Flag, Some(0x81u8))
        } else if i == 2 {
            (MemcardState::CardId1, Some(0x57u8))
        } else if i == 3 {
            (MemcardState::CardId2, Some(0x00u8))
        } else if i == 4 {
            (MemcardState::SendMsb, Some(0x00u8))
        } else if i == 5 {
            (MemcardState::SendLsb, None)
        } else if i == 6 {
            (MemcardState::SendSector, None)
        } else if i == 7 {
            (MemcardState::SendChecksum, None)
        } else if i == 8 {
            (MemcardState::CmdAck1, None)
        } else if i == 9 {
            (MemcardState::CmdAck2, Some(0x00u8))
        } else {
            (MemcardState::MemEnd, Some(0x00u8))
        },
    }
}

/// The command after the console sent `recv` in state `cur`: at the flag,
/// the byte selects the command.
pub open spec fn spec_mc_command(c: MemcardCommand, cur: MemcardState, recv: u8) -> Option<MemcardCommand> {
    if cur == MemcardState::Flag {
        if recv == 0x52 {
            Some(MemcardCommand::Read)
        } else if recv == 0x57 {
            Some(MemcardCommand::Write)
        } else if recv == 0x53 {
            Some(MemcardCommand::GetId)
        } else {
            None
        }
    } else {
        Some(c)
    }
}

/// The next state and its index after the console sent `recv` in state
/// `cur` at index `idx`, or `None` when the byte is not the one expected.
pub open spec fn spec_mc_next(c: MemcardCommand, cur: MemcardState, recv: u8, idx: int) -> Option<(MemcardState, int)> {
    match spec_mc_command(c, cur, recv) {
        None => None,
        Some(c2) => {
            let ni = (idx + 1) % spec_mc_len(c2);
            let e = spec_mc_table(c2, ni);
            if e.1 matches Some(b) && b != recv {
                None
            } else {
                Some((e.0, ni))
            }
        },
    }
}

fn mc_table(c: MemcardCommand, i: usize) -> (r: (MemcardState, Option<u8>))
    ensures
        r == spec_mc_table(c, i as int),
{
    match c {
        MemcardCommand::GetId => if i == 0 {
            (MemcardState::Init, None)
        } else if i == 1 {
            (MemcardState::Flag, Some(0x81u8))
        } else if i == 2 {
            (MemcardState::CardId1, Some(0x53u8))
        } else if i == 3 {
            (MemcardState::CardId2, Some(0x00u8))
        } else if i == 4 {
            (MemcardState::CmdAck1, Some(0x00u8))
        } else if i == 5 {
            (MemcardState::CmdAck2, Some(0x00u8))
        } else if i == 6 {
            (MemcardState::Recv04h, Some(0x00u8))
        } else if i == 7 || i == 8 {
            (MemcardState::Recv00h, Some(0x00u8))
        } else {
            (MemcardState::Recv80h, Some(0x00u8))
        },
        MemcardCommand::Read => if i == 0 {
            (MemcardState::Init, None)
        } else if i == 1 {
            (MemcardState::Flag, Some(0x81u8))
        } else if i == 2 {
            (MemcardState::CardId1, Some(0x52u8))
        } else if i == 3 {
            (MemcardState::CardId2, Some(0x00u8))
        } else if i == 4 {
            (MemcardState::SendMsb, Some(0x00u8))
        } else if i == 5 {
            (MemcardState::SendLsb, None)
        } else if i == 6 {
            (MemcardState::CmdAck1, None)
        } else if i == 7 {
            (MemcardState::CmdAck2, Some(0x00u8))
        } else if i == 8 {
            (MemcardState::AckMsb, Some(0x00u8))
        } else if i == 9 {
            (MemcardState::AckLsb, Some(0x00u8))
        } else if i == 10 {
            (MemcardState::RecvSector, Some(0x00u8))
        } else if i == 11 {
            (MemcardState::RecvChecksum, Some(0x00u8))
        } else {
            (MemcardState::MemEnd, Some(0x00u8))
        },
        MemcardCommand::Write => if i == 0 {
            (MemcardState::Init, None)
        } else if i == 1 {
            (MemcardState::Flag, Some(0x81u8))
        } else if i == 2 {
            (MemcardState::CardId1, Some(0x57u8))
        } else if i == 3 {
            (MemcardState::CardId2, Some(0x00u8))
        } else if i == 4 {
            (MemcardState::SendMsb, Some(0x00u8))
        } else if i == 5 {
            (MemcardState::SendLsb, None)
        } else if i == 6 {
            (MemcardState::SendSector, None)
        } else if i == 7 {
            (MemcardState::SendChecksum, None)
        } else if i == 8 {
            (MemcardState::CmdAck1, None)
        } else if i == 9 {
            (MemcardState::CmdAck2, Some(0x00u8))
        } else {
            (MemcardState::MemEnd, Some(0x00u8))
        },
    }
}

impl MemcardCommand {
    /// Moves on from state `current` at index `state_idx` when the console
    /// sent `recv`: at the flag the byte selects the command (kept in
    /// `self`); `None` when the byte is not the one expected.
    pub fn next(&mut self, current: MemcardState, recv: u8, state_idx: usize) -> (r: Option<(MemcardState, usize)>)
        requires
            state_idx < 13,
        ensures
            r matches Some(p) ==> spec_mc_next(*old(self), current, recv, state_idx as int) == Some((p.0, p.1 as int)),
            r is None ==> spec_mc_next(*old(self), current, recv, state_idx as int) is None,
            *final(self) == (match spec_mc_command(*old(self), current, recv) {
                Some(c) => c,
                None => *old(self),
            }),
    {
        if current == MemcardState::Flag {
            if recv == 0x52 {
                *self = MemcardCommand::Read;
            } else if recv == 0x57 {
                *self = MemcardCommand::Write;
            } else if recv == 0x53 {
                *self = MemcardCommand::GetId;
            } else {
                return None;
            }
        }
        let len: usize = match *self {
            MemcardCommand::Read => 13,
            MemcardCommand::Write => 11,
            MemcardCommand::GetId => 10,
        };
        let next_idx = (state_idx + 1) % len;
        let (next_state, check_byte) = mc_table(*self, next_idx);
        match check_byte {
            Some(b) => if b == recv {
                Some((next_state, next_idx))
            } else {
                None
            },
            None => Some((next_state, next_idx)),
        }
    }
}

/// Bytes of one memory card sector.
pub const FRAME_SIZE: usize = 0x80;

/// Bytes of a memory card.
pub const MEMCARD_BYTES: usize = 0x20000;

/// A memory card: its protocol state and its contents.
pub struct Memcard {
    pub in_ack: bool,
    pub state: MemcardState,
    pub command: MemcardCommand,
    pub state_idx: usize,
    pub sector_number: u16,
    pub checksum: u8,
    pub sector_buffer: [u8; 128],
    pub bytes_left: usize,
    pub end_response: EndResponse,
    pub directory_not_read: bool,
    /// Set when a sector was written since the card was loaded.
    pub is_dirty: bool,
    pub data: Vec<u8>,
}

/// The card back to waiting for a command, its contents and last
/// sector kept.
pub open spec fn spec_mc_reset(m: Memcard) -> Memcard {
    Memcard { in_ack: false, state: MemcardState::Init, state_idx: 0, ..m }
}

/// `v` with the 128 bytes at `at` replaced by `s`.
pub open spec fn spec_splice(v: Seq<u8>, at: int, s: Seq<u8>) -> Seq<u8> {
    v.subrange(0, at) + s + v.subrange(at + 128, v.len() as int)
}

impl Memcard {
    pub open spec fn wf(&self) -> bool {
        &&& self.data@.len() == MEMCARD_BYTES
        &&& self.state_idx < spec_mc_len(self.command)
        &&& self.bytes_left <= 128
        &&& (self.state == MemcardState::RecvSector || self.state == MemcardState::SendSector) ==> self.bytes_left >= 1
    }

    /// A card holding `data`, which must be a whole card image.
    pub fn from_data(data: Vec<u8>) -> (r: Option<Memcard>)
        ensures
            r is Some <==> data@.len() == MEMCARD_BYTES,
            r matches Some(m) ==> m.wf() && m.data@ == data@ && m.state == MemcardState::Init && !m.in_ack
                && m.state_idx == 0 && m.directory_not_read && !m.is_dirty,
    {
        if data.len() != MEMCARD_BYTES {
            return None;
        }
        Some(Memcard {
            in_ack: false,
            state: MemcardState::Init,
            command: MemcardCommand::Read,
            state_idx: 0,
            sector_number: 0,
            checksum: 0,
            sector_buffer: [0; 128],
            bytes_left: 0,
            end_response: EndResponse::Good,
            directory_not_read: true,
            is_dirty: false,
            data,
        })
    }

    /// Whether the card acknowledged the last byte.
    pub fn in_ack(&self) -> (r: bool)
        ensures
            r == self.in_ack,
    {
        self.in_ack
    }

    /// Goes back to waiting for a command.
    pub fn reset(&mut self)
        ensures
            *final(self) == spec_mc_reset(*old(self)),
    {
        self.in_ack = false;
        self.state = MemcardState::Init;
        self.state_idx = 0;
    }

    /// Copies sector `sector_number` into the sector buffer.
    pub fn load_sector(&mut self)
        requires
            old(self).data@.len() == MEMCARD_BYTES,
            old(self).sector_number <= 0x3ff,
        ensures
            final(self).sector_buffer@ == old(self).data@.subrange(
                old(self).sector_number * 128,
                old(self).sector_number * 128 + 128,
            ),
            final(self).data@ == old(self).data@,
            final(self).in_ack == old(self).in_ack && final(self).state == old(self).state,
            final(self).command == old(self).command && final(self).state_idx == old(self).state_idx,
            final(self).sector_number == old(self).sector_number && final(self).checksum == old(self).checksum,
            final(self).bytes_left == old(self).bytes_left && final(self).end_response == old(self).end_response,
            final(self).directory_not_read == old(self).directory_not_read && final(self).is_dirty == old(self).is_dirty,
    {
        let address = (self.sector_number as usize) * FRAME_SIZE;
        let mut i: usize = 0;
        while i < 128
            invariant
                i <= 128,
                address == old(self).sector_number * 128,
                self.data@ == old(self).data@,
                self.data@.len() == MEMCARD_BYTES,
                old(self).sector_number <= 0x3ff,
                self.in_ack == old(self).in_ack && self.state == old(self).state,
                self.command == old(self).command && self.state_idx == old(self).state_idx,
                self.sector_number == old(self).sector_number && self.checksum == old(self).checksum,
                self.bytes_left == old(self).bytes_left && self.end_response == old(self).end_response,
                self.directory_not_read == old(self).directory_not_read && self.is_dirty == old(self).is_dirty,
                forall|j: int| 0 <= j < i ==> self.sector_buffer@[j] == self.data@[address + j],
            decreases 128 - i,
        {
            self.sector_buffer[i] = self.data[address + i];
            i = i + 1;
        }
        assert(self.sector_buffer@ =~= old(self).data@.subrange(address as int, address + 128));
    }

    /// Writes the sector buffer to sector `sector_number`.
    pub fn save_sector(&mut self)
        requires
            old(self).data@.len() == MEMCARD_BYTES,
            old(self).sector_number <= 0x3ff,
        ensures
            final(self).data@ == spec_splice(old(self).data@, old(self).sector_number * 128, old(self).sector_buffer@),
            final(self).is_dirty,
            final(self).sector_buffer == old(self).sector_buffer,
            final(self).in_ack == old(self).in_ack && final(self).state == old(self).state,
            final(self).command == old(self).command && final(self).state_idx == old(self).state_idx,
            final(self).sector_number == old(self).sector_number && final(self).checksum == old(self).checksum,
            final(self).bytes_left == old(self).bytes_left && final(self).end_response == old(self).end_response,
            final(self).directory_not_read == old(self).directory_not_read,
    {
        let address = (self.sector_number as usize) * FRAME_SIZE;
        let mut i: usize = 0;
        while i < 128
            invariant
                i <= 128,
                address == old(self).sector_number * 128,
                self.data@.len() == MEMCARD_BYTES,
                old(self).sector_number <= 0x3ff,
                self.sector_buffer == old(self).sector_buffer,
                self.in_ack == old(self).in_ack && self.state == old(self).state,
                self.command == old(self).command && self.state_idx == old(self).state_idx,
                self.sector_number == old(self).sector_number && self.checksum == old(self).checksum,
                self.bytes_left == old(self).bytes_left && self.end_response == old(self).end_response,
                self.directory_not_read == old(self).directory_not_read,
                forall|j: int| 0 <= j < MEMCARD_BYTES ==> #[trigger] self.data@[j] == if address <= j < address + i {
                    old(self).sector_buffer@[j - address]
                } else {
                    old(self).data@[j]
                },
            decreases 128 - i,
        {
            self.data.set(address + i, self.sector_buffer[i]);
            i = i + 1;
        }
        self.is_dirty = true;
        assert(self.data@ =~= spec_splice(old(self).data@, address as int, old(self).sector_buffer@));
    }
}

/// The byte a memory card in state `m` answers with when the console
/// sends `data` (before the card moves on).
pub open spec fn spec_mc_reply(m: Memcard, data: u8) -> u8 {
    match m.state {
        MemcardState::Init => 0xff,
        MemcardState::CardId1 => 0x5a,
        MemcardState::CardId2 => 0x5d,
        MemcardState::CmdAck2 => 0x5d,
        MemcardState::CmdAck1 => 0x5c,
        MemcardState::Recv04h => 0x04,
        MemcardState::Recv00h => 0x00,
        MemcardState::Recv80h => 0x80,
        MemcardState::AckMsb => (m.sector_number >> 8u16) as u8,
        MemcardState::AckLsb => (m.sector_number & 0xff) as u8,
        MemcardState::Flag => if m.directory_not_read { 0x08 } else { 0x00 },
        MemcardState::SendMsb => 0,
        MemcardState::SendLsb => 0,
        MemcardState::RecvSector => m.sector_buffer[128 - m.bytes_left],
        MemcardState::SendSector => 0,
        MemcardState::RecvChecksum => m.checksum,
        MemcardState::SendChecksum => 0,
        MemcardState::MemEnd => m.end_response.spec_code(),
    }
}

/// Whether a sector transfer is still under way after this byte: the card
/// then stays in its state.
pub open spec fn spec_mc_stays(m: Memcard) -> bool {
    (m.state == MemcardState::RecvSector || m.state == MemcardState::SendSector) && m.bytes_left > 1
}

/// The sector number after the console sent `data` in state `m`.
pub open spec fn spec_mc_sector(m: Memcard, data: u8) -> u16 {
    if m.state == MemcardState::SendMsb {
        ((data as u16) << 8u16) as u16
    } else if m.state == MemcardState::SendLsb {
        if (m.sector_number | (data as u16)) > 0x3ff { 0xffff } else { m.sector_number | (data as u16) }
    } else {
        m.sector_number
    }
}

/// The running checksum after the console sent `data` in state `m`.
pub open spec fn spec_mc_checksum(m: Memcard, data: u8) -> u8 {
    match m.state {
        MemcardState::SendMsb => data,
        MemcardState::SendLsb => m.checksum ^ data,
        MemcardState::RecvSector => m.checksum ^ m.sector_buffer[128 - m.bytes_left],
        MemcardState::SendSector => m.checksum ^ data,
        _ => m.checksum,
    }
}

/// The status that will end the command, after the console sent `data`.
pub open spec fn spec_mc_end(m: Memcard, data: u8) -> EndResponse {
    if m.state == MemcardState::SendLsb && (m.sector_number | (data as u16)) > 0x3ff {
        EndResponse::BadSector
    } else if m.state == MemcardState::SendChecksum {
        if m.checksum == data { EndResponse::Good } else { EndResponse::BadChecksum }
    } else {
        m.end_response
    }
}

/// Whether `data` moves the card into sending a sector.
pub open spec fn spec_mc_enters_read(m: Memcard, data: u8) -> bool {
    match spec_mc_next(m.command, m.state, data, m.state_idx as int) {
        Some(p) => p.0 == MemcardState::RecvSector,
        None => false,
    }
}

/// Whether the card can take `data` without reading or writing outside
/// itself: a sector outside the card (set by a bad address) is never read
/// or written.
pub open spec fn spec_mc_byte_ok(m: Memcard, data: u8) -> bool {
    &&& (m.state == MemcardState::MemEnd && m.command == MemcardCommand::Write) ==> m.sector_number <= 0x3ff
    &&& (!spec_mc_stays(m) && spec_mc_enters_read(m, data)) ==> spec_mc_sector(m, data) <= 0x3ff
}

/// One byte `data` exchanged with memory card `old`, giving `new` and the
/// answer `r`.
pub open spec fn spec_mc_step(old: Memcard, data: u8, new: Memcard, r: u8) -> bool {
    &&& new.wf()
    &&& new.sector_number == spec_mc_sector(old, data)
    &&& new.checksum == spec_mc_checksum(old, data)
    &&& new.end_response == spec_mc_end(old, data)
    &&& new.directory_not_read == (old.directory_not_read && old.state != MemcardState::MemEnd)
    &&& new.is_dirty == (old.is_dirty || (old.state == MemcardState::MemEnd && old.command == MemcardCommand::Write))
    &&& new.data@ == (if old.state == MemcardState::MemEnd && old.command == MemcardCommand::Write {
        spec_splice(old.data@, old.sector_number * 128, old.sector_buffer@)
    } else {
        old.data@
    })
    &&& spec_mc_stays(old) ==> {
        &&& r == spec_mc_reply(old, data)
        &&& new.state == old.state && new.state_idx == old.state_idx
        &&& new.command == old.command && new.in_ack == old.in_ack
        &&& new.bytes_left == old.bytes_left - 1
        &&& old.state == MemcardState::SendSector ==> new.sector_buffer@ == old.sector_buffer@.update(128 - old.bytes_left, data)
        &&& old.state == MemcardState::RecvSector ==> new.sector_buffer@ == old.sector_buffer@
    }
    &&& !spec_mc_stays(old) ==> match spec_mc_next(old.command, old.state, data, old.state_idx as int) {
        Some(p) => {
            &&& r == spec_mc_reply(old, data)
            &&& new.state == p.0 && new.state_idx == p.1
            &&& new.in_ack == (p.0 != MemcardState::Init)
            &&& spec_mc_command(old.command, old.state, data) == Some(new.command)
            &&& new.bytes_left == (if p.0 == MemcardState::RecvSector || p.0 == MemcardState::SendSector {
                128
            } else if old.state == MemcardState::RecvSector || old.state == MemcardState::SendSector {
                (old.bytes_left - 1) as usize
            } else {
                old.bytes_left
            })
            &&& new.sector_buffer@ == (if p.0 == MemcardState::RecvSector {
                old.data@.subrange(spec_mc_sector(old, data) * 128, spec_mc_sector(old, data) * 128 + 128)
            } else if old.state == MemcardState::SendSector {
                old.sector_buffer@.update(128 - old.bytes_left, data)
            } else {
                old.sector_buffer@
            })
        },
        None => {
            &&& r == 0xff
            &&& new.state == MemcardState::Init && new.state_idx == 0 && !new.in_ack
            &&& new.command == (match spec_mc_command(old.command, old.state, data) {
                Some(c) => c,
                None => old.command,
            })
            &&& new.bytes_left == (if old.state == MemcardState::RecvSector || old.state == MemcardState::SendSector {
                (old.bytes_left - 1) as usize
            } else {
                old.bytes_left
            })
            &&& new.sector_buffer@ == (if old.state == MemcardState::SendSector {
                old.sector_buffer@.update(128 - old.bytes_left, data)
            } else {
                old.sector_buffer@
            })
        },
    }
}

impl Memcard {
    /// Whether the card can take `data` without reading or writing outside
    /// itself.
    pub fn byte_ok(&self, data: u8) -> (r: bool)
        requires
            self.wf(),
        ensures
            r == spec_mc_byte_ok(*self, data),
    {
        if self.state == MemcardState::MemEnd && self.command == MemcardCommand::Write && self.sector_number > 0x3ff {
            return false;
        }
        let stays = (self.state == MemcardState::RecvSector || self.state == MemcardState::SendSector) && self.bytes_left > 1;
        if stays {
            return true;
        }
        let mut cmd = self.command;
        match cmd.next(self.state, data, self.state_idx) {
            Some((s, _)) => {
                if s != MemcardState::RecvSector {
                    return true;
                }
                let sector: u16 = if self.state == MemcardState::SendMsb {
                    (data as u16) << 8
                } else if self.state == MemcardState::SendLsb {
                    if (self.sector_number | (data as u16)) > 0x3ff { 0xffff } else { self.sector_number | (data as u16) }
                } else {
                    self.sector_number
                };
                sector <= 0x3ff
            },
            None => true,
        }
    }

    /// The card's answer to `data` in its current state, and its effect on
    /// the sector, checksum, status and card contents; `true` when a sector
    /// transfer is still under way.
    fn respond(&mut self, data: u8) -> (r: (u8, bool))
        requires
            old(self).wf(),
            (old(self).state == MemcardState::MemEnd && old(self).command == MemcardCommand::Write) ==> old(self).sector_number
                <= 0x3ff,
        ensures
            r.0 == spec_mc_reply(*old(self), data),
            r.1 == spec_mc_stays(*old(self)),
            final(self).data@.len() == MEMCARD_BYTES,
            final(self).state == old(self).state && final(self).state_idx == old(self).state_idx,
            final(self).command == old(self).command && final(self).in_ack == old(self).in_ack,
            final(self).sector_number == spec_mc_sector(*old(self), data),
            final(self).checksum == spec_mc_checksum(*old(self), data),
            final(self).end_response == spec_mc_end(*old(self), data),
            final(self).directory_not_read == (old(self).directory_not_read && old(self).state != MemcardState::MemEnd),
            final(self).is_dirty == (old(self).is_dirty || (old(self).state == MemcardState::MemEnd && old(self).command
                == MemcardCommand::Write)),
            final(self).data@ == if old(self).state == MemcardState::MemEnd && old(self).command == MemcardCommand::Write {
                spec_splice(old(self).data@, old(self).sector_number * 128, old(self).sector_buffer@)
            } else {
                old(self).data@
            },
            final(self).bytes_left == if old(self).state == MemcardState::RecvSector || old(self).state
                == MemcardState::SendSector {
                (old(self).bytes_left - 1) as usize
            } else {
                old(self).bytes_left
            },
            final(self).sector_buffer@ == if old(self).state == MemcardState::SendSector {
                old(self).sector_buffer@.update(128 - old(self).bytes_left, data)
            } else {
                old(self).sector_buffer@
            },
    {
        match self.state {
            MemcardState::Init => (0xFF, false),
            MemcardState::CardId1 => (0x5A, false),
            MemcardState::CardId2 => (0x5D, false),
            MemcardState::CmdAck2 => (0x5D, false),
            MemcardState::CmdAck1 => (0x5C, false),
            MemcardState::Recv04h => (0x04, false),
            MemcardState::Recv00h => (0x00, false),
            MemcardState::Recv80h => (0x80, false),
            MemcardState::AckMsb => ((self.sector_number >> 8) as u8, false),
            MemcardState::AckLsb => ((self.sector_number & 0xFF) as u8, false),
            MemcardState::Flag => (if self.directory_not_read { 0x08 } else { 0x00 }, false),
            MemcardState::SendMsb => {
                self.sector_number = (data as u16) << 8;
                self.checksum = data;
                (0x00, false)
            },
            MemcardState::SendLsb => {
                self.sector_number = self.sector_number | (data as u16);
                self.checksum = self.checksum ^ data;
                if self.sector_number > 0x3FF {
                    self.sector_number = 0xFFFF;
                    self.end_response = EndResponse::BadSector;
                }
                (0x00, false)
            },
            MemcardState::RecvSector => {
                let byte = self.sector_buffer[128 - self.bytes_left];
                self.bytes_left = self.bytes_left - 1;
                self.checksum = self.checksum ^ byte;
                (byte, self.bytes_left > 0)
            },
            MemcardState::SendSector => {
                self.sector_buffer[128 - self.bytes_left] = data;
                self.bytes_left = self.bytes_left - 1;
                self.checksum = self.checksum ^ data;
                (0, self.bytes_left > 0)
            },
            MemcardState::RecvChecksum => (self.checksum, false),
            MemcardState::SendChecksum => {
                self.end_response = if self.checksum == data {
                    EndResponse::Good
                } else {
                    EndResponse::BadChecksum
                };
                (0, false)
            },
            MemcardState::MemEnd => {
                if self.command == MemcardCommand::Write {
                    self.save_sector();
                }
                self.directory_not_read = false;
                (self.end_response.code(), false)
            },
        }
    }

    /// Exchanges one byte of a read, write or ID command: answers for the
    /// current state and moves on when the console sent what the state
    /// expects; otherwise goes back to waiting and answers FFh. A sector is
    /// loaded into the buffer when a read reaches the data, and saved to the
    /// card at the end of a write.
    #[verifier::rlimit(50)]
    pub fn send_and_receive_byte(&mut self, data: u8) -> (r: u8)
        requires
            old(self).wf(),
            spec_mc_byte_ok(*old(self), data),
        ensures
            spec_mc_step(*old(self), data, *final(self), r),
    {
        let (send, stays) = self.respond(data);
        if stays {
            return send;
        }
        match self.command.next(self.state, data, self.state_idx) {
            Some((next_state, next_idx)) => {
                if next_state == MemcardState::RecvSector {
                    self.load_sector();
                    self.bytes_left = 128;
                }
                if next_state == MemcardState::SendSector {
                    self.bytes_left = 128;
                }
                self.state = next_state;
                self.state_idx = next_idx;
                self.in_ack = self.state != MemcardState::Init;
                send
            },
            None => {
                self.reset();
                0xFF
            },
        }
    }
}

/// Which device the controller port is talking to.
#[derive(Clone, Copy, PartialEq, Eq, Structural, Debug)]
pub enum State {
    Idle,
    GamepadComm,
    MemcardComm,
}

/// The controller and memory card port (SIO0): its registers, receive FIFO
/// and the devices plugged into it.
pub struct Sio {
    /// SIO_CTRL: bit 0 TX enable, 1 DTR, 2 RX enable, 4 acknowledge, 6 reset,
    /// 12 DSR interrupt enable, 13 port select.
    pub control: u16,
    pub boudrate_reload: u16,
    pub mode: u16,
    /// SIO_STAT: bit 1 RX FIFO not empty, 7 DSR input level, 9 interrupt
    /// request.
    pub status: u32,
    pub transfer: Option<u8>,
    pub received: ArrayVec<u8, 8>,
    pub state: State,
    pub gamepad1: Gamepad,
    pub gamepad2: Gamepad,
    pub memcard1: Memcard,
    pub memcard2: Memcard,
}

pub open spec fn spec_bit16(x: u16, n: u16) -> bool {
    (x >> n) & 1 == 1
}

/// The device that a byte `data` goes to, with the port state `st`:
/// `Some(true)` a controller, `Some(false)` a memory card, `None` neither.
pub open spec fn spec_sio_target(st: State, data: u8) -> Option<bool> {
    match st {
        State::Idle => if data == 0x01 { Some(true) } else if data == 0x81 { Some(false) } else { None },
        State::GamepadComm => Some(true),
        State::MemcardComm => Some(false),
    }
}

/// One byte `data` exchanged with the device on the selected port (`o`
/// becomes `n`): the answer `r.0`, and in `r.1` whether the device
/// acknowledged and stays selected; registers and FIFO untouched.
pub open spec fn spec_sio_exchange(o: Sio, data: u8, n: Sio, r: (u8, bool)) -> bool {
    &&& n.control == o.control && n.status == o.status
    &&& n.transfer == o.transfer && n.received == o.received
    &&& n.mode == o.mode && n.boudrate_reload == o.boudrate_reload
    &&& r.1 == (n.state != State::Idle)
    &&& match spec_sio_target(o.state, data) {
        None => r.0 == 0xff && n.state == State::Idle && n.gamepad1 == o.gamepad1
            && n.gamepad2 == o.gamepad2 && n.memcard1 == o.memcard1
            && n.memcard2 == o.memcard2,
        Some(true) => if o.port2() {
            spec_pad_step(o.gamepad2, data, n.gamepad2, r.0) && n.gamepad1 == o.gamepad1
                && n.state == (if n.gamepad2.in_ack { State::GamepadComm } else { State::Idle })
                && n.memcard1 == o.memcard1 && n.memcard2 == o.memcard2
        } else {
            spec_pad_step(o.gamepad1, data, n.gamepad1, r.0) && n.gamepad2 == o.gamepad2
                && n.state == (if n.gamepad1.in_ack { State::GamepadComm } else { State::Idle })
                && n.memcard1 == o.memcard1 && n.memcard2 == o.memcard2
        },
        Some(false) => if o.port2() {
            spec_mc_step(o.memcard2, data, n.memcard2, r.0) && n.memcard1 == o.memcard1
                && n.state == (if n.memcard2.in_ack { State::MemcardComm } else { State::Idle })
                && n.gamepad1 == o.gamepad1 && n.gamepad2 == o.gamepad2
        } else {
            spec_mc_step(o.memcard1, data, n.memcard1, r.0) && n.memcard2 == o.memcard2
                && n.state == (if n.memcard1.in_ack { State::MemcardComm } else { State::Idle })
                && n.gamepad1 == o.gamepad1 && n.gamepad2 == o.gamepad2
        },
    }
}

/// A received byte `msg` stored (`o` becomes `n`) when receiving is on
/// (RX enable or DTR): a full FIFO has its newest byte replaced, the
/// RX-not-empty flag rises and RX enable drops.
pub open spec fn spec_push_received(o: Sio, n: Sio, msg: u8) -> bool {
    &&& n.memcard1 == o.memcard1 && n.memcard2 == o.memcard2
    &&& n.gamepad1 == o.gamepad1 && n.gamepad2 == o.gamepad2
    &&& n.state == o.state && n.transfer == o.transfer
    &&& n.mode == o.mode && n.boudrate_reload == o.boudrate_reload
    &&& if spec_bit16(o.control, 2) || spec_bit16(o.control, 1) {
        &&& bytes8(n.received) == if bytes8(o.received).len() == 8 {
            bytes8(o.received).update(7, msg)
        } else {
            bytes8(o.received).push(msg)
        }
        &&& n.status == with_bit(o.status, 1, true)
        &&& n.control == with_bit16(o.control, 2, false)
    } else {
        n.received == o.received && n.status == o.status && n.control == o.control
    }
}

/// The event queue `q` after a byte went out at `cycle`: with the device's
/// acknowledgement, the serial interrupt (when DSR interrupts are enabled
/// in `control`) after eight reload periods, and the end of the DSR pulse.
pub open spec fn spec_send_schedule(q: Seq<Task>, cycle: u64, control: u16, reload: u16, ack: bool) -> Seq<Task> {
    let q1 = if spec_bit16(control, 12) && ack {
        spec_insert_task(
            spec_unscheduled(q, Event::SerialSend),
            Task { cycle: (cycle + reload * 8) as u64, event: Event::SerialSend, repeat: None },
        )
    } else {
        q
    };
    if ack {
        spec_insert_task(spec_unscheduled(q1, Event::DsrOff), Task { cycle: (cycle + 96) as u64, event: Event::DsrOff, repeat: None })
    } else {
        q1
    }
}

/// The waiting byte of `o` went out (`o` becomes `n`, the queue `os`
/// becomes `ns`): exchanged with the selected device, the DSR level set to
/// its acknowledgement, the answer received, the events scheduled.
#[verifier::opaque]
pub open spec fn spec_sio_sent(o: Sio, n: Sio, os: Scheduler, ns: Scheduler) -> bool {
    exists|mid: Sio, r: (u8, bool)|
        #[trigger] spec_sio_exchange(Sio { transfer: None, ..o }, o.transfer->0, mid, r) && spec_push_received(
            Sio { status: with_bit(mid.status, 7, r.1), ..mid },
            n,
            r.0,
        ) && ns.cycle == os.cycle && ns.view() == spec_send_schedule(os.view(), os.cycle, o.control, o.boudrate_reload, r.1)
}

/// What an attempt to send the waiting byte does (`o` becomes `n`, the
/// queue `os` becomes `ns`): with TX enabled and a byte waiting it goes
/// out, unless it would make a memory card read or write outside itself
/// (`r` false, nothing changes); otherwise nothing happens.
#[verifier::opaque]
pub open spec fn spec_try_send(o: Sio, n: Sio, os: Scheduler, ns: Scheduler, r: bool) -> bool {
    &&& r == !(spec_bit16(o.control, 0) && o.spec_transfer_faults())
    &&& if spec_bit16(o.control, 0) && o.transfer is Some && r {
        spec_sio_sent(o, n, os, ns)
    } else {
        n == o && ns == os
    }
}

/// The port with its registers at their reset values, the FIFO empty and
/// the devices back at the start of their protocols (`n.received` aside).
pub open spec fn spec_sio_reset(o: Sio, n: Sio) -> bool {
    &&& n == Sio {
        control: 0,
        boudrate_reload: 0,
        mode: 0,
        status: 0x22005,
        transfer: None,
        received: n.received,
        state: State::Idle,
        gamepad1: spec_pad_reset(o.gamepad1),
        gamepad2: spec_pad_reset(o.gamepad2),
        memcard1: spec_mc_reset(o.memcard1),
        memcard2: spec_mc_reset(o.memcard2),
    }
    &&& bytes8(n.received) == Seq::<u8>::empty()
}

/// The SIO_CTRL value kept from a write of `val`: bits 14-15 clear, and
/// the acknowledge bit (4) clear after it acted.
pub open spec fn spec_control_kept(val: u16) -> u16 {
    let c0 = val & !0xC000u16;
    if spec_bit16(c0, 4) { with_bit16(c0, 4, false) } else { c0 }
}

/// SIO_STAT after a write of `val` to SIO_CTRL acknowledged (bit 4) the
/// interrupt request (bit 9).
pub open spec fn spec_control_status(status: u32, val: u16) -> u32 {
    if spec_bit16(val & !0xC000u16, 4) { with_bit(status, 9, false) } else { status }
}

/// The port with its devices back at the start of their protocols and the
/// DSR level low, as when DTR is off.
pub open spec fn spec_dtr_off(o: Sio) -> Sio {
    Sio {
        status: with_bit(o.status, 7, false),
        gamepad1: spec_pad_reset(o.gamepad1),
        gamepad2: spec_pad_reset(o.gamepad2),
        memcard1: spec_mc_reset(o.memcard1),
        memcard2: spec_mc_reset(o.memcard2),
        ..o
    }
}

/// What a write of `val` to SIO_CTRL does (`o` becomes `n`, the queue `os`
/// becomes `ns`): bits 14-15 stay clear; acknowledge (bit 4) clears the
/// interrupt request and itself; reset (bit 6) resets the port; with DTR
/// (bit 1) off the devices reset and the DSR level drops; with TX enable
/// (bit 0) the waiting byte is sent.
pub open spec fn spec_sio_control(o: Sio, n: Sio, os: Scheduler, ns: Scheduler, val: u16, r: bool) -> bool {
    let c1 = spec_control_kept(val);
    let st1 = spec_control_status(o.status, val);
    if spec_bit16(c1, 6) {
        r && ns == os && spec_sio_reset(o, n)
    } else {
        let s1 = Sio { control: c1, status: st1, ..o };
        let s2 = if spec_bit16(c1, 1) { s1 } else { spec_dtr_off(s1) };
        if spec_bit16(c1, 0) {
            spec_try_send(s2, n, os, ns, r)
        } else {
            r && n == s2 && ns == os
        }
    }
}

impl Sio {
    pub open spec fn wf(&self) -> bool {
        self.memcard1.wf() && self.memcard2.wf()
    }

    pub open spec fn port2(&self) -> bool {
        spec_bit16(self.control, 13)
    }

    /// Whether sending the byte waiting for transfer would make a memory
    /// card read or write outside itself.
    pub open spec fn spec_transfer_faults(&self) -> bool {
        match self.transfer {
            Some(v) => !self.spec_byte_ok(v),
            None => false,
        }
    }

    /// Whether exchanging `data` keeps the memory card it would go to inside
    /// itself.
    pub open spec fn spec_byte_ok(&self, data: u8) -> bool {
        spec_sio_target(self.state, data) == Some(false) ==> if self.port2() {
            spec_mc_byte_ok(self.memcard2, data)
        } else {
            spec_mc_byte_ok(self.memcard1, data)
        }
    }

    /// A port with its registers at their reset values and the memory cards
    /// `memcard1` and `memcard2` plugged in.
    pub fn new(memcard1: Memcard, memcard2: Memcard) -> (r: Sio)
        requires
            memcard1.wf(),
            memcard2.wf(),
        ensures
            r.wf(),
            r.control == 0 && r.mode == 0 && r.boudrate_reload == 0 && r.status == 0x22005,
            r.transfer is None && r.state == State::Idle,
            bytes8(r.received) == Seq::<u8>::empty(),
    {
        Sio {
            control: 0,
            boudrate_reload: 0,
            mode: 0,
            status: 0x22005,
            transfer: None,
            received: bytes8_new(),
            state: State::Idle,
            gamepad1: Gamepad::default(),
            gamepad2: Gamepad::default(),
            memcard1,
            memcard2,
        }
    }

    /// Exchanges one byte with the device on the selected port; returns the
    /// answer and whether the device acknowledged (and stays selected).
    pub fn send_and_receive_byte(&mut self, data: u8) -> (r: (u8, bool))
        requires
            old(self).wf(),
            old(self).spec_byte_ok(data),
        ensures
            final(self).wf(),
            spec_sio_exchange(*old(self), data, *final(self), r),
    {
        let port2 = bit16(self.control, 13);
        let target: Option<bool> = match self.state {
            State::Idle => if data == 0x01 { Some(true) } else if data == 0x81 { Some(false) } else { None },
            State::GamepadComm => Some(true),
            State::MemcardComm => Some(false),
        };
        let (byte, next_state) = match target {
            None => (0xFF, State::Idle),
            Some(true) => self.process_gamepad(port2, data),
            Some(false) => self.process_memcard(port2, data),
        };
        self.state = next_state;
        (byte, next_state != State::Idle)
    }

    fn process_gamepad(&mut self, port2: bool, data: u8) -> (r: (u8, State))
        ensures
            final(self).control == old(self).control && final(self).status == old(self).status,
            final(self).transfer == old(self).transfer && final(self).received == old(self).received,
            final(self).mode == old(self).mode && final(self).boudrate_reload == old(self).boudrate_reload,
            final(self).state == old(self).state,
            final(self).memcard1 == old(self).memcard1 && final(self).memcard2 == old(self).memcard2,
            port2 ==> spec_pad_step(old(self).gamepad2, data, final(self).gamepad2, r.0) && final(self).gamepad1 == old(self).gamepad1
                && r.1 == (if final(self).gamepad2.in_ack { State::GamepadComm } else { State::Idle }),
            !port2 ==> spec_pad_step(old(self).gamepad1, data, final(self).gamepad1, r.0) && final(self).gamepad2 == old(self).gamepad2
                && r.1 == (if final(self).gamepad1.in_ack { State::GamepadComm } else { State::Idle }),
    {
        if !port2 {
            let byte = self.gamepad1.send_and_receive_byte(data);
            let state = if self.gamepad1.in_ack() { State::GamepadComm } else { State::Idle };
            (byte, state)
        } else {
            let byte = self.gamepad2.send_and_receive_byte(data);
            let state = if self.gamepad2.in_ack() { State::GamepadComm } else { State::Idle };
            (byte, state)
        }
    }

    fn process_memcard(&mut self, port2: bool, data: u8) -> (r: (u8, State))
        requires
            old(self).wf(),
            port2 ==> spec_mc_byte_ok(old(self).memcard2, data),
            !port2 ==> spec_mc_byte_ok(old(self).memcard1, data),
        ensures
            final(self).control == old(self).control && final(self).status == old(self).status,
            final(self).transfer == old(self).transfer && final(self).received == old(self).received,
            final(self).mode == old(self).mode && final(self).boudrate_reload == old(self).boudrate_reload,
            final(self).state == old(self).state,
            final(self).gamepad1 == old(self).gamepad1 && final(self).gamepad2 == old(self).gamepad2,
            port2 ==> spec_mc_step(old(self).memcard2, data, final(self).memcard2, r.0) && final(self).memcard1 == old(self).memcard1
                && r.1 == (if final(self).memcard2.in_ack { State::MemcardComm } else { State::Idle }),
            !port2 ==> spec_mc_step(old(self).memcard1, data, final(self).memcard1, r.0) && final(self).memcard2 == old(self).memcard2
                && r.1 == (if final(self).memcard1.in_ack { State::MemcardComm } else { State::Idle }),
    {
        if !port2 {
            let byte = self.memcard1.send_and_receive_byte(data);
            let state = if self.memcard1.in_ack() { State::MemcardComm } else { State::Idle };
            (byte, state)
        } else {
            let byte = self.memcard2.send_and_receive_byte(data);
            let state = if self.memcard2.in_ack() { State::MemcardComm } else { State::Idle };
            (byte, state)
        }
    }
}

pub open spec fn with_bit16(x: u16, n: u16, v: bool) -> u16 {
    if v { x | (1u16 << n) } else { x & !(1u16 << n) }
}

fn bit16(x: u16, n: u16) -> (r: bool)
    requires
        n < 16,
    ensures
        r == spec_bit16(x, n),
{
    (x >> n) & 1 == 1
}

fn set_bit16(x: u16, n: u16, v: bool) -> (r: u16)
    requires
        n < 16,
    ensures
        r == with_bit16(x, n, v),
{
    if v { x | (1u16 << n) } else { x & !(1u16 << n) }
}

/// What a write of `v` to serial register `offset` does to the port (`o`
/// becomes `n`) and the event queue (`os` becomes `ns`): a data write
/// queues its low byte and tries to send it; a control write acts on its
/// bits; the mode and reload registers take the value.
pub open spec fn spec_sio_store(o: Sio, n: Sio, os: Scheduler, ns: Scheduler, offset: u32, v: u32, r: bool) -> bool {
    &&& ns.wf()
    &&& ns.cycle == os.cycle
    &&& ns.view().len() <= os.view().len() + 2
    &&& offset == 0 ==> spec_try_send(Sio { transfer: Some((v as u16) as u8), ..o }, n, os, ns, r)
    &&& offset == 8 ==> r && n == Sio { mode: (v as u16) & 0x1ff, ..o } && ns == os
    &&& offset == 0xa ==> spec_sio_control(o, n, os, ns, v as u16, r)
    &&& offset == 0xe ==> r && n == Sio { boudrate_reload: v as u16, ..o } && ns == os
}

/// The scheduler can take the two events a sent byte may schedule.
pub open spec fn spec_sio_sched_ok(s: Scheduler) -> bool {
    s.wf() && s.view().len() <= 30 && s.cycle < crate::scheduler::CYCLE_LIMIT
}

impl Sio {
    /// Takes the oldest received byte (FFh when none); the RX-not-empty
    /// flag drops when the FIFO empties.
    pub fn pop_received_data(&mut self) -> (r: u32)
        ensures
            bytes8(old(self).received).len() == 0 ==> r == 0xff && bytes8(final(self).received) == bytes8(old(self).received),
            bytes8(old(self).received).len() > 0 ==> r == bytes8(old(self).received)[0] && bytes8(final(self).received)
                == bytes8(old(self).received).drop_first(),
            final(self).status == if bytes8(final(self).received).len() == 0 {
                with_bit(old(self).status, 1, false)
            } else {
                old(self).status
            },
            final(self).control == old(self).control && final(self).state == old(self).state,
            final(self).transfer == old(self).transfer,
            final(self).memcard1 == old(self).memcard1 && final(self).memcard2 == old(self).memcard2,
            final(self).gamepad1 == old(self).gamepad1 && final(self).gamepad2 == old(self).gamepad2,
            final(self).mode == old(self).mode && final(self).boudrate_reload == old(self).boudrate_reload,
    {
        let data = match bytes8_pop_front(&mut self.received) {
            Some(b) => b,
            None => 0xFF,
        };
        if bytes8_len(&self.received) == 0 {
            self.status = crate::irq::set_bit_u32(self.status, 1, false);
        }
        data as u32
    }

    /// Stores a received byte, when receiving is on (RX enable or DTR): a
    /// full FIFO has its newest byte replaced.
    pub fn push_received_data(&mut self, msg: u8)
        ensures
            spec_push_received(*old(self), *final(self), msg),
    {
        if !bit16(self.control, 2) && !bit16(self.control, 1) {
            return;
        }
        let n = bytes8_len(&self.received);
        if n == 8 {
            bytes8_set(&mut self.received, 7, msg);
        } else {
            bytes8_push(&mut self.received, msg);
        }
        self.status = crate::irq::set_bit_u32(self.status, 1, true);
        self.control = set_bit16(self.control, 2, false);
    }

    /// Drops the DSR input level.
    pub fn turn_dsr_off(&mut self)
        ensures
            final(self).status == with_bit(old(self).status, 7, false),
            final(self).control == old(self).control && final(self).received == old(self).received,
            final(self).memcard1 == old(self).memcard1 && final(self).memcard2 == old(self).memcard2,
            final(self).gamepad1 == old(self).gamepad1 && final(self).gamepad2 == old(self).gamepad2,
            final(self).state == old(self).state && final(self).transfer == old(self).transfer,
    {
        self.status = crate::irq::set_bit_u32(self.status, 7, false);
    }

    /// A byte went out: raises the controller interrupt (IRQ7) and the
    /// port's interrupt request.
    pub fn process_serial_send(&mut self, irqctl: &mut InterruptController)
        ensures
            final(self).status == with_bit(old(self).status, 9, true),
            final(irqctl).status.0 == with_bit(old(irqctl).status.0, 7, true),
            final(irqctl).mask == old(irqctl).mask,
            final(self).control == old(self).control && final(self).received == old(self).received,
            final(self).memcard1 == old(self).memcard1 && final(self).memcard2 == old(self).memcard2,
            final(self).gamepad1 == old(self).gamepad1 && final(self).gamepad2 == old(self).gamepad2,
            final(self).state == old(self).state && final(self).transfer == old(self).transfer,
    {
        irqctl.status.set_ctl_mem(true);
        self.status = crate::irq::set_bit_u32(self.status, 9, true);
    }

    /// Sends the byte waiting for transfer, when transmission is enabled:
    /// the selected device answers, the DSR level follows its
    /// acknowledgement, the serial interrupt (when enabled) and the end of
    /// the DSR pulse are scheduled, and the answer is received.
    pub fn try_send_data(&mut self, scheduler: &mut Scheduler) -> (r: bool)
        requires
            old(self).wf(),
            spec_sio_sched_ok(*old(scheduler)),
        ensures
            final(self).wf(),
            final(scheduler).wf(),
            final(scheduler).cycle == old(scheduler).cycle,
            final(scheduler).view().len() <= old(scheduler).view().len() + 2,
            spec_try_send(*old(self), *final(self), *old(scheduler), *final(scheduler), r),
    {
        proof {
            reveal(spec_try_send);
        }
        if !bit16(self.control, 0) {
            return true;
        }
        let val = match self.transfer {
            Some(v) => v,
            None => return true,
        };
        if !self.byte_ok(val) {
            return false;
        }
        self.transfer = None;
        let ghost pre = *self;
        assert(pre == Sio { transfer: None, ..*old(self) });
        let (received, ack) = self.send_and_receive_byte(val);
        let ghost mid = *self;
        self.status = crate::irq::set_bit_u32(self.status, 7, ack);
        let ghost acked = *self;
        assert(acked == Sio { status: with_bit(mid.status, 7, ack), ..mid });
        if bit16(self.control, 12) && ack {
            proof {
                lemma_unscheduled_len_bound(scheduler.view(), Event::SerialSend);
            }
            scheduler.schedule(Event::SerialSend, (self.boudrate_reload as u64) * 8, None);
        }
        if ack {
            proof {
                lemma_unscheduled_len_bound(scheduler.view(), Event::DsrOff);
            }
            scheduler.schedule(Event::DsrOff, 96, None);
        }
        self.push_received_data(received);
        proof {
            reveal(spec_sio_sent);
            assert(spec_sio_exchange(Sio { transfer: None, ..*old(self) }, old(self).transfer->0, mid, (received, ack)));
        }
        true
    }

    /// Puts the registers back to their reset values, empties the FIFO and
    /// resets the devices' protocol state.
    pub fn reset_regs(&mut self)
        requires
            old(self).wf(),
        ensures
            final(self).wf(),
            spec_sio_reset(*old(self), *final(self)),
    {
        self.transfer = None;
        self.received = bytes8_new();
        self.status = 0x22005;
        self.control = 0;
        self.mode = 0;
        self.boudrate_reload = 0;
        self.state = State::Idle;
        self.gamepad1.reset();
        self.gamepad2.reset();
        self.memcard1.reset();
        self.memcard2.reset();
    }

    /// Writes SIO_CTRL (bits 14-15 stay clear): acknowledge clears the
    /// interrupt request, reset resets the port, DTR off resets the devices
    /// and the DSR level, TX enable sends a waiting byte.
    /// `false` when the byte sent would make a memory card read or write
    /// outside itself.
    pub fn write_control(&mut self, val: u16, scheduler: &mut Scheduler) -> (r: bool)
        requires
            old(self).wf(),
            spec_sio_sched_ok(*old(scheduler)),
        ensures
            final(self).wf(),
            final(scheduler).wf(),
            final(scheduler).cycle == old(scheduler).cycle,
            final(scheduler).view().len() <= old(scheduler).view().len() + 2,
            spec_sio_control(*old(self), *final(self), *old(scheduler), *final(scheduler), val, r),
    {
        let control = self.take_control(val);
        if bit16(control, 6) {
            // The reset values leave DTR and TX enable off: nothing more to do.
            self.reset_regs();
            return true;
        }
        if !bit16(control, 1) {
            self.drop_dtr();
        }
        if bit16(control, 0) {
            self.try_send_data(scheduler)
        } else {
            true
        }
    }

    /// Keeps a written SIO_CTRL value `val` (bits 14-15 clear) and acts on
    /// its acknowledge bit (4): the interrupt request clears, and so does
    /// the bit. Returns the value kept.
    fn take_control(&mut self, val: u16) -> (r: u16)
        ensures
            r == spec_control_kept(val),
            *final(self) == (Sio { control: r, status: spec_control_status(old(self).status, val), ..*old(self) }),
    {
        let mut control = val & !0xC000;
        if bit16(control, 4) {
            self.status = crate::irq::set_bit_u32(self.status, 9, false);
            control = set_bit16(control, 4, false);
        }
        self.control = control;
        control
    }

    /// DTR off: the devices go back to the start of their protocols and the
    /// DSR level drops.
    fn drop_dtr(&mut self)
        requires
            old(self).wf(),
        ensures
            final(self).wf(),
            *final(self) == spec_dtr_off(*old(self)),
    {
        self.gamepad1.reset();
        self.gamepad2.reset();
        self.memcard1.reset();
        self.memcard2.reset();
        self.status = crate::irq::set_bit_u32(self.status, 7, false);
    }

    /// Reads the RX FIFO (offset 0), SIO_STAT (4) or SIO_CTRL (Ah).
    pub fn load<T: Addressable>(&mut self, offset: u32) -> (r: T)
        requires
            offset == 0 || offset == 4 || offset == 0xa,
        ensures
            offset != 0 ==> *final(self) == *old(self),
            final(self).memcard1 == old(self).memcard1 && final(self).memcard2 == old(self).memcard2,
            offset == 4 ==> r.spec_as_u32() == old(self).status & T::spec_width().spec_mask(),
            offset == 0xa ==> r.spec_as_u32() == (old(self).control as u32) & T::spec_width().spec_mask(),
            offset == 0 ==> {
                &&& bytes8(old(self).received).len() == 0 ==> r.spec_as_u32() == 0xff & T::spec_width().spec_mask()
                    && bytes8(final(self).received) == bytes8(old(self).received)
                &&& bytes8(old(self).received).len() > 0 ==> r.spec_as_u32() == (bytes8(old(self).received)[0] as u32)
                    & T::spec_width().spec_mask() && bytes8(final(self).received) == bytes8(old(self).received).drop_first()
                &&& final(self).status == if bytes8(final(self).received).len() == 0 {
                    with_bit(old(self).status, 1, false)
                } else {
                    old(self).status
                }
            },
    {
        if offset == 0 {
            let v = self.pop_received_data();
            T::from_u32(v)
        } else if offset == 4 {
            T::from_u32(self.status)
        } else {
            T::from_u32(self.control as u32)
        }
    }

    /// Writes TX data (offset 0; the byte is sent at once when transmission
    /// is enabled), SIO_MODE (8), SIO_CTRL (Ah) or the baud-rate reload
    /// value (Eh). `false` when the byte sent would make a memory card read
    /// or write outside itself.
    pub fn store<T: Addressable>(&mut self, offset: u32, value: T, scheduler: &mut Scheduler) -> (r: bool)
        requires
            old(self).wf(),
            spec_sio_sched_ok(*old(scheduler)),
            offset == 0 || offset == 8 || offset == 0xa || offset == 0xe,
        ensures
            final(self).wf(),
            spec_sio_store(*old(self), *final(self), *old(scheduler), *final(scheduler), offset, value.spec_as_u32(), r),
    {
        let val = value.as_u32() as u16;
        if offset == 0 {
            self.transfer = Some(val as u8);
            self.try_send_data(scheduler)
        } else if offset == 8 {
            self.mode = val & 0x1FF;
            true
        } else if offset == 0xA {
            self.write_control(val, scheduler)
        } else {
            self.boudrate_reload = val;
            true
        }
    }

    /// Whether exchanging `data` keeps the memory card it would go to inside
    /// itself.
    pub fn byte_ok(&self, data: u8) -> (r: bool)
        requires
            self.wf(),
        ensures
            r == self.spec_byte_ok(data),
    {
        let to_card = match self.state {
            State::Idle => data == 0x81,
            State::GamepadComm => false,
            State::MemcardComm => true,
        };
        if !to_card {
            return true;
        }
        if bit16(self.control, 13) {
            self.memcard2.byte_ok(data)
        } else {
            self.memcard1.byte_ok(data)
        }
    }
}

} // verus!
