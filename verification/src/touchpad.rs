use vstd::prelude::*;
use crate::ps2::{Ps2Op, push_aux_command, aux_command_ops};

verus! {

pub type TouchpadResult = Result<(), TouchpadError>;

#[derive(Debug, Clone, Copy, PartialEq, Eq, Structural)]
pub enum TouchpadError {
    NotFound,
    InitFailed,
    InvalidPacket,
    I2cError,
}

pub const MOUSE_ACK: u8 = 0xFA;
pub const MOUSE_RESET: u8 = 0xFF;
pub const MOUSE_ENABLE: u8 = 0xF4;
pub const MOUSE_SET_RESOLUTION: u8 = 0xE8;
pub const MOUSE_SET_SAMPLE_RATE: u8 = 0xF3;
pub const MOUSE_STATUS_REQUEST: u8 = 0xE9;
/// Device id that a Synaptics pad reports after the knock sequence.
pub const SYNAPTICS_ID: u8 = 0x47;

#[derive(Debug, Clone, Copy, PartialEq, Eq, Structural)]
pub enum TouchpadVendor {
    Synaptics,
    Alps,
    Elan,
    Unknown,
}

#[derive(Debug, Clone, Copy, PartialEq, Eq, Structural)]
pub struct TouchpadState {
    pub x: u16,
    pub y: u16,
    pub z: u8,
    pub finger: bool,
    pub left_button: bool,
    pub right_button: bool,
    pub middle_button: bool,
}

#[derive(Debug, Clone, Copy, PartialEq, Eq, Structural)]
pub struct FingerPosition {
    pub x: u16,
    pub y: u16,
    pub z: u8,
    pub contact: bool,
}

/// Where a touchpad probe or initialisation stands.
#[derive(Debug, Clone, Copy, PartialEq, Eq, Structural)]
pub enum TouchpadInit {
    /// Start of `init`: reset the device.
    Reset,
    ResetAck,
    /// Start of `probe_synaptics` on its own.
    ProbeStart,
    ProbeRateAck { n: u8 },
    ProbeRateValue { n: u8 },
    StatusAck,
    DeviceId,
    AbsRateAck { n: u8 },
    AbsRateValue { n: u8 },
    ModeAck { k: u8 },
    ModeValue { k: u8 },
}

/// The batch of operations that the exchange asks for next.
#[derive(Debug)]
pub enum TouchpadStep {
    Run(Vec<Ps2Op>),
    Done(TouchpadResult),
}

/// Rates of the knock sequence, in order.
pub open spec fn knock_rate(n: u8) -> u8 {
    if n == 0 { 200 } else if n == 1 { 100 } else { 80 }
}

/// Resolution bytes that switch a Synaptics pad to absolute mode, in order.
pub open spec fn mode_byte(k: u8) -> u8 {
    if k == 0 { 0x01 } else if k == 1 { 0x02 } else if k == 2 { 0x04 } else if k == 3 { 0x08 } else { 0x01 }
}

/// Number of resolution commands of the absolute-mode sequence.
pub const MODE_COMMANDS: u8 = 6;

pub open spec fn read_bytes_ops(n: nat) -> Seq<Ps2Op>
    decreases n,
{
    if n == 0 {
        Seq::empty()
    } else {
        read_bytes_ops((n - 1) as nat) + seq![Ps2Op::WaitRead, Ps2Op::ReadData]
    }
}

/// Next state and operations after the `n`th knock rate of the probe.
pub open spec fn after_probe_rate(n: u8) -> (TouchpadInit, Seq<Ps2Op>) {
    if n < 2 {
        (TouchpadInit::ProbeRateAck { n: (n + 1) as u8 }, aux_command_ops(MOUSE_SET_SAMPLE_RATE))
    } else {
        (TouchpadInit::StatusAck, aux_command_ops(MOUSE_STATUS_REQUEST))
    }
}

/// Next state and operations after the `n`th knock rate of the mode switch.
pub open spec fn after_abs_rate(n: u8) -> (TouchpadInit, Seq<Ps2Op>) {
    if n < 2 {
        (TouchpadInit::AbsRateAck { n: (n + 1) as u8 }, aux_command_ops(MOUSE_SET_SAMPLE_RATE))
    } else {
        (TouchpadInit::ModeAck { k: 0 }, aux_command_ops(MOUSE_SET_RESOLUTION))
    }
}

/// Next state and operations after the `k`th resolution command; `None`
/// when the sequence is complete.
pub open spec fn after_mode(k: u8) -> Option<(TouchpadInit, Seq<Ps2Op>)> {
    if k + 1 < MODE_COMMANDS {
        Some((TouchpadInit::ModeAck { k: (k + 1) as u8 }, aux_command_ops(MOUSE_SET_RESOLUTION)))
    } else {
        None
    }
}

/// One transition of a probe or initialisation; `failure` is the error of a
/// pad that does not answer as a Synaptics pad.
pub open spec fn touchpad_init_spec(st: TouchpadInit, input: u8, failure: TouchpadError)
    -> (TouchpadInit, Option<Seq<Ps2Op>>, Option<TouchpadResult>) {
    match st {
        TouchpadInit::Reset => (TouchpadInit::ResetAck, Some(aux_command_ops(MOUSE_RESET)), None),
        TouchpadInit::ResetAck => if input != MOUSE_ACK {
            (st, None, Some(Err(TouchpadError::NotFound)))
        } else {
            (TouchpadInit::ProbeRateAck { n: 0 }, Some(read_bytes_ops(2) + aux_command_ops(MOUSE_SET_SAMPLE_RATE)), None)
        },
        TouchpadInit::ProbeStart => (TouchpadInit::ProbeRateAck { n: 0 }, Some(aux_command_ops(MOUSE_SET_SAMPLE_RATE)), None),
        TouchpadInit::ProbeRateAck { n } => if input == MOUSE_ACK {
            (TouchpadInit::ProbeRateValue { n }, Some(aux_command_ops(knock_rate(n))), None)
        } else {
            (after_probe_rate(n).0, Some(after_probe_rate(n).1), None)
        },
        TouchpadInit::ProbeRateValue { n } => (after_probe_rate(n).0, Some(after_probe_rate(n).1), None),
        TouchpadInit::StatusAck => if input != MOUSE_ACK {
            (st, None, Some(Err(failure)))
        } else {
            (TouchpadInit::DeviceId, Some(read_bytes_ops(3)), None)
        },
        TouchpadInit::DeviceId => if input != SYNAPTICS_ID {
            (st, None, Some(Err(failure)))
        } else {
            (TouchpadInit::AbsRateAck { n: 0 }, Some(aux_command_ops(MOUSE_SET_SAMPLE_RATE)), None)
        },
        TouchpadInit::AbsRateAck { n } => if input == MOUSE_ACK {
            (TouchpadInit::AbsRateValue { n }, Some(aux_command_ops(knock_rate(n))), None)
        } else {
            (after_abs_rate(n).0, Some(after_abs_rate(n).1), None)
        },
        TouchpadInit::AbsRateValue { n } => (after_abs_rate(n).0, Some(after_abs_rate(n).1), None),
        TouchpadInit::ModeAck { k } => if input == MOUSE_ACK {
            (TouchpadInit::ModeValue { k }, Some(aux_command_ops(mode_byte(k))), None)
        } else {
            match after_mode(k) {
                Some(p) => (p.0, Some(p.1), None),
                None => (st, None, Some(Ok(()))),
            }
        },
        TouchpadInit::ModeValue { k } => match after_mode(k) {
            Some(p) => (p.0, Some(p.1), None),
            None => (st, None, Some(Ok(()))),
        },
    }
}

/// A state in the knock and mode sequences carries a counter in range.
pub open spec fn init_state_ok(st: TouchpadInit) -> bool {
    match st {
        TouchpadInit::ProbeRateAck { n } => n <= 2,
        TouchpadInit::ProbeRateValue { n } => n <= 2,
        TouchpadInit::AbsRateAck { n } => n <= 2,
        TouchpadInit::AbsRateValue { n } => n <= 2,
        TouchpadInit::ModeAck { k } => k < MODE_COMMANDS,
        TouchpadInit::ModeValue { k } => k < MODE_COMMANDS,
        _ => true,
    }
}

/// Absolute Synaptics report: 13-bit coordinates from bytes 1, 2, 4 and 5,
/// pressure from byte 3.
pub open spec fn absolute_state(b: Seq<u8>) -> TouchpadState {
    TouchpadState {
        x: ((b[1] & 0x1F) as u16) << 8u16 | b[2] as u16,
        y: ((b[4] & 0x1F) as u16) << 8u16 | b[5] as u16,
        z: b[3],
        finger: b[0] & 0x20 != 0,
        left_button: b[0] & 0x01 != 0,
        right_button: b[0] & 0x02 != 0,
        middle_button: false,
    }
}

/// Relative report, as a PS/2 mouse: signed movement kept as its 16-bit
/// two's complement.
pub open spec fn relative_state(b: Seq<u8>) -> TouchpadState {
    TouchpadState {
        x: (if b[0] & 0x10 != 0 { b[1] - 256 } else { b[1] as int }) as u16,
        y: (if b[0] & 0x20 != 0 { 256 - b[2] } else { -b[2] }) as u16,
        z: 0,
        finger: true,
        left_button: b[0] & 0x01 != 0,
        right_button: b[0] & 0x02 != 0,
        middle_button: b[0] & 0x04 != 0,
    }
}

pub struct Touchpad {
    vendor: TouchpadVendor,
    absolute_mode: bool,
    width_mm: u16,
    height_mm: u16,
    x_max: u16,
    y_max: u16,
    resolution: u8,
}

impl Touchpad {
    pub closed spec fn spec_vendor(&self) -> TouchpadVendor {
        self.vendor
    }

    pub closed spec fn spec_absolute(&self) -> bool {
        self.absolute_mode
    }

    /// Reports come as six-byte absolute packets.
    pub open spec fn absolute_reports(&self) -> bool {
        self.spec_absolute() && self.spec_vendor() == TouchpadVendor::Synaptics
    }

    pub fn new() -> (r: Self)
        ensures
            r.spec_vendor() == TouchpadVendor::Unknown,
            !r.spec_absolute(),
    {
        Self {
            vendor: TouchpadVendor::Unknown,
            absolute_mode: false,
            width_mm: 100,
            height_mm: 60,
            x_max: 4096,
            y_max: 2048,
            resolution: 4,
        }
    }

    pub fn vendor(&self) -> (r: TouchpadVendor)
        ensures
            r == self.spec_vendor(),
    {
        self.vendor
    }

    pub fn is_absolute(&self) -> (r: bool)
        ensures
            r == self.spec_absolute(),
    {
        self.absolute_mode
    }

    /// Number of bytes in one report.
    pub fn packet_len(&self) -> (r: usize)
        ensures
            r == if self.absolute_reports() { 6usize } else { 3usize },
    {
        if self.absolute_mode && self.vendor == TouchpadVendor::Synaptics { 6 } else { 3 }
    }

    /// One transition of `probe_synaptics` (started at `ProbeStart`): the
    /// knock sequence of rates 200, 100, 80, a status request whose third
    /// reply byte must be the Synaptics id, and then the switch to absolute
    /// mode. A pad that fails ends it with `NotFound`.
    pub fn probe_synaptics(&mut self, st: &mut TouchpadInit, input: u8) -> (r: TouchpadStep)
        requires
            init_state_ok(*old(st)),
        ensures
            init_state_ok(*final(st)),
            step_ensures(*old(self), *final(self), *old(st), *final(st), input, TouchpadError::NotFound, r),
    {
        self.step(st, input, TouchpadError::NotFound)
    }

    /// One transition of `init` (started at `Reset`): reset the pad, then
    /// probe it as `probe_synaptics` does. A missing reset acknowledgement
    /// ends it with `NotFound`, a failed probe with `InitFailed`.
    pub fn init(&mut self, st: &mut TouchpadInit, input: u8) -> (r: TouchpadStep)
        requires
            init_state_ok(*old(st)),
        ensures
            init_state_ok(*final(st)),
            step_ensures(*old(self), *final(self), *old(st), *final(st), input, TouchpadError::InitFailed, r),
    {
        self.step(st, input, TouchpadError::InitFailed)
    }

}

/// What one transition of a probe or initialisation does to the pad, the
/// state and the result.
pub open spec fn step_ensures(
        before: Touchpad,
        after: Touchpad,
        st: TouchpadInit,
        next: TouchpadInit,
        input: u8,
        failure: TouchpadError,
        r: TouchpadStep,
    ) -> bool {
        let (n, ops, res) = touchpad_init_spec(st, input, failure);
        &&& next == n
        &&& match r {
            TouchpadStep::Run(v) => ops == Some(v@) && res is None,
            TouchpadStep::Done(d) => ops is None && res == Some(d),
        }
        &&& if st == TouchpadInit::DeviceId && input == SYNAPTICS_ID {
            after.spec_vendor() == TouchpadVendor::Synaptics && after.spec_absolute()
        } else {
            after.spec_vendor() == before.spec_vendor() && after.spec_absolute() == before.spec_absolute()
        }
}

impl Touchpad {
    fn step(&mut self, st: &mut TouchpadInit, input: u8, failure: TouchpadError) -> (r: TouchpadStep)
        requires
            init_state_ok(*old(st)),
        ensures
            init_state_ok(*final(st)),
            step_ensures(*old(self), *final(self), *old(st), *final(st), input, failure, r),
    {
        let mut ops: Vec<Ps2Op> = Vec::new();
        match *st {
            TouchpadInit::Reset => {
                push_aux_command(&mut ops, MOUSE_RESET);
                *st = TouchpadInit::ResetAck;
            },
            TouchpadInit::ResetAck => {
                if input != MOUSE_ACK {
                    return TouchpadStep::Done(Err(TouchpadError::NotFound));
                }
                ops.push(Ps2Op::WaitRead);
                ops.push(Ps2Op::ReadData);
                ops.push(Ps2Op::WaitRead);
                ops.push(Ps2Op::ReadData);
                push_aux_command(&mut ops, MOUSE_SET_SAMPLE_RATE);
                *st = TouchpadInit::ProbeRateAck { n: 0 };
                proof {
                    reveal_with_fuel(read_bytes_ops, 3);
                }
            },
            TouchpadInit::ProbeStart => {
                push_aux_command(&mut ops, MOUSE_SET_SAMPLE_RATE);
                *st = TouchpadInit::ProbeRateAck { n: 0 };
            },
            TouchpadInit::ProbeRateAck { n } => {
                if input == MOUSE_ACK {
                    push_aux_command(&mut ops, knock_rate_exec(n));
                    *st = TouchpadInit::ProbeRateValue { n };
                } else {
                    *st = push_after_probe_rate(&mut ops, n);
                }
            },
            TouchpadInit::ProbeRateValue { n } => {
                *st = push_after_probe_rate(&mut ops, n);
            },
            TouchpadInit::StatusAck => {
                if input != MOUSE_ACK {
                    return TouchpadStep::Done(Err(failure));
                }
                ops.push(Ps2Op::WaitRead);
                ops.push(Ps2Op::ReadData);
                ops.push(Ps2Op::WaitRead);
                ops.push(Ps2Op::ReadData);
                ops.push(Ps2Op::WaitRead);
                ops.push(Ps2Op::ReadData);
                *st = TouchpadInit::DeviceId;
                proof {
                    reveal_with_fuel(read_bytes_ops, 4);
                }
            },
            TouchpadInit::DeviceId => {
                if input != SYNAPTICS_ID {
                    return TouchpadStep::Done(Err(failure));
                }
                self.vendor = TouchpadVendor::Synaptics;
                self.absolute_mode = true;
                push_aux_command(&mut ops, MOUSE_SET_SAMPLE_RATE);
                *st = TouchpadInit::AbsRateAck { n: 0 };
            },
            TouchpadInit::AbsRateAck { n } => {
                if input == MOUSE_ACK {
                    push_aux_command(&mut ops, knock_rate_exec(n));
                    *st = TouchpadInit::AbsRateValue { n };
                } else {
                    *st = push_after_abs_rate(&mut ops, n);
                }
            },
            TouchpadInit::AbsRateValue { n } => {
                *st = push_after_abs_rate(&mut ops, n);
            },
            TouchpadInit::ModeAck { k } => {
                if input == MOUSE_ACK {
                    push_aux_command(&mut ops, mode_byte_exec(k));
                    *st = TouchpadInit::ModeValue { k };
                } else {
                    if k + 1 < MODE_COMMANDS {
                        push_aux_command(&mut ops, MOUSE_SET_RESOLUTION);
                        *st = TouchpadInit::ModeAck { k: k + 1 };
                    } else {
                        return TouchpadStep::Done(Ok(()));
                    }
                }
            },
            TouchpadInit::ModeValue { k } => {
                if k + 1 < MODE_COMMANDS {
                    push_aux_command(&mut ops, MOUSE_SET_RESOLUTION);
                    *st = TouchpadInit::ModeAck { k: k + 1 };
                } else {
                    return TouchpadStep::Done(Ok(()));
                }
            },
        }
        proof {
            let (n, sops, res) = touchpad_init_spec(*old(st), input, failure);
            assert(ops@ =~= sops.unwrap());
        }
        TouchpadStep::Run(ops)
    }

    /// The first byte of a report must have bit 3 set.
    pub fn packet_start(b0: u8) -> (r: bool)
        ensures
            r == (b0 & 0x08 != 0),
    {
        b0 & 0x08 != 0
    }

    /// The report in `packet`, read after `status` showed a waiting byte;
    /// `None` when no byte waited or the first byte is not a report start.
    pub fn read_state(&self, status: u8, packet: &[u8]) -> (r: Option<TouchpadState>)
        requires
            status & crate::ps2::STATUS_OUTPUT_FULL != 0 && packet@.len() >= 1 && packet@[0] & 0x08 != 0
                ==> packet@.len() >= if self.absolute_reports() { 6int } else { 3int },
            status & crate::ps2::STATUS_OUTPUT_FULL != 0 ==> packet@.len() >= 1,
        ensures
            status & crate::ps2::STATUS_OUTPUT_FULL == 0 ==> r is None,
            status & crate::ps2::STATUS_OUTPUT_FULL != 0 && packet@[0] & 0x08 == 0 ==> r is None,
            status & crate::ps2::STATUS_OUTPUT_FULL != 0 && packet@[0] & 0x08 != 0 ==> r == Some(
                if self.absolute_reports() { absolute_state(packet@) } else { relative_state(packet@) },
            ),
    {
        if status & crate::ps2::STATUS_OUTPUT_FULL == 0 {
            return None;
        }
        let b0 = packet[0];
        if b0 & 0x08 == 0 {
            return None;
        }
        let b1 = packet[1];
        let b2 = packet[2];
        if self.absolute_mode && self.vendor == TouchpadVendor::Synaptics {
            let x: u16 = ((b1 & 0x1F) as u16) << 8u16 | b2 as u16;
            let b3 = packet[3];
            let b4 = packet[4];
            let b5 = packet[5];
            let y: u16 = ((b4 & 0x1F) as u16) << 8u16 | b5 as u16;
            Some(TouchpadState {
                x,
                y,
                z: b3,
                finger: b0 & 0x20 != 0,
                left_button: b0 & 0x01 != 0,
                right_button: b0 & 0x02 != 0,
                middle_button: false,
            })
        } else {
            let x: i16 = if b0 & 0x10 != 0 { (b1 as i16) - 256 } else { b1 as i16 };
            let y: i16 = if b0 & 0x20 != 0 { -((b2 as i16) - 256) } else { -(b2 as i16) };
            Some(TouchpadState {
                x: x as u16,
                y: y as u16,
                z: 0,
                finger: true,
                left_button: b0 & 0x01 != 0,
                right_button: b0 & 0x02 != 0,
                middle_button: b0 & 0x04 != 0,
            })
        }
    }
}

fn knock_rate_exec(n: u8) -> (r: u8)
    ensures
        r == knock_rate(n),
{
    if n == 0 { 200 } else if n == 1 { 100 } else { 80 }
}

fn mode_byte_exec(k: u8) -> (r: u8)
    ensures
        r == mode_byte(k),
{
    if k == 0 { 0x01 } else if k == 1 { 0x02 } else if k == 2 { 0x04 } else if k == 3 { 0x08 } else { 0x01 }
}

fn push_after_probe_rate(ops: &mut Vec<Ps2Op>, n: u8) -> (next: TouchpadInit)
    requires
        n <= 2,
    ensures
        next == after_probe_rate(n).0,
        init_state_ok(next),
        final(ops)@ == old(ops)@ + after_probe_rate(n).1,
{
    if n < 2 {
        push_aux_command(ops, MOUSE_SET_SAMPLE_RATE);
        TouchpadInit::ProbeRateAck { n: n + 1 }
    } else {
        push_aux_command(ops, MOUSE_STATUS_REQUEST);
        TouchpadInit::StatusAck
    }
}

fn push_after_abs_rate(ops: &mut Vec<Ps2Op>, n: u8) -> (next: TouchpadInit)
    requires
        n <= 2,
    ensures
        next == after_abs_rate(n).0,
        init_state_ok(next),
        final(ops)@ == old(ops)@ + after_abs_rate(n).1,
{
    if n < 2 {
        push_aux_command(ops, MOUSE_SET_SAMPLE_RATE);
        TouchpadInit::AbsRateAck { n: n + 1 }
    } else {
        push_aux_command(ops, MOUSE_SET_RESOLUTION);
        TouchpadInit::ModeAck { k: 0 }
    }
}

} // verus!
