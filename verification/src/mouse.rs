use vstd::prelude::*;
use crate::ps2::{Ps2Op, push_aux_command, aux_command_ops, ACK};

verus! {

pub type MouseResult = Result<(), MouseError>;

#[derive(Debug, Clone, Copy, PartialEq, Eq, Structural)]
pub enum MouseError {
    ControllerNotFound,
    SelfTestFailed,
    Disabled,
    InvalidPacket,
}

pub const CMD_DISABLE_KBD: u8 = 0xAD;
pub const CMD_ENABLE_KBD: u8 = 0xAE;
pub const CMD_READ_CMDBYTE: u8 = 0x20;
pub const CMD_WRITE_CMDBYTE: u8 = 0x60;

pub const MOUSE_RESET: u8 = 0xFF;
pub const MOUSE_ENABLE: u8 = 0xF4;
pub const MOUSE_DISABLE: u8 = 0xF5;
pub const MOUSE_SET_DEFAULTS: u8 = 0xF6;
pub const MOUSE_SET_RATE: u8 = 0xF3;
pub const MOUSE_SET_RESOLUTION: u8 = 0xE8;
pub const MOUSE_STATUS_REQUEST: u8 = 0xE9;
pub const MOUSE_SET_SCALING1: u8 = 0xE6;
pub const MOUSE_SET_SCALING2: u8 = 0xE7;
pub const MOUSE_SET_SAMPLE_RATE: u8 = 0xF3;

pub const MOUSE_ACK: u8 = 0xFA;
pub const MOUSE_BAT_SUCCESS: u8 = 0xAA;
/// Device id of a mouse with a scroll wheel.
pub const WHEEL_MOUSE_ID: u8 = 0x03;

#[derive(Debug, Clone, Copy, PartialEq, Eq, Structural)]
pub enum MouseButton {
    Left,
    Right,
    Middle,
}

#[derive(Debug, Clone, Copy, PartialEq, Eq, Structural)]
pub struct MousePacket {
    pub buttons: u8,
    pub x: i16,
    pub y: i16,
    pub z: i8,
}

/// The button bit of `btn` in the first packet byte.
pub open spec fn button_mask(btn: MouseButton) -> u8 {
    match btn {
        MouseButton::Left => 0x01,
        MouseButton::Right => 0x02,
        MouseButton::Middle => 0x04,
    }
}

impl MousePacket {
    pub fn is_button_pressed(&self, btn: MouseButton) -> (r: bool)
        ensures
            r == (self.buttons & button_mask(btn) != 0),
    {
        match btn {
            MouseButton::Left => self.buttons & 0x01 != 0,
            MouseButton::Right => self.buttons & 0x02 != 0,
            MouseButton::Middle => self.buttons & 0x04 != 0,
        }
    }
}

/// Wheel movement of a fourth packet byte: its negation as a signed byte,
/// where -128 stays -128.
pub open spec fn wheel_spec(b3: u8) -> i8 {
    let s = b3 as i8;
    if s == -128 {
        s
    } else {
        (-s) as i8
    }
}

/// The packet that bytes `b0 b1 b2 (b3)` describe: signed 9-bit movement
/// with the sign in the first byte, y pointing down, and the wheel only for
/// a wheel mouse.
pub open spec fn packet_spec(b0: u8, b1: u8, b2: u8, b3: u8, has_wheel: bool) -> MousePacket {
    MousePacket {
        buttons: b0 & 0x07,
        x: (if b0 & 0x10 != 0 { b1 - 256 } else { b1 as int }) as i16,
        y: (if b0 & 0x20 != 0 { 256 - b2 } else { -b2 }) as i16,
        z: if has_wheel { wheel_spec(b3) } else { 0 },
    }
}

/// A decoded packet has only the three button bits, movement of at most
/// 256 either way, and no wheel movement without a wheel.
pub proof fn lemma_packet_bounds(b0: u8, b1: u8, b2: u8, b3: u8, has_wheel: bool)
    ensures
        packet_spec(b0, b1, b2, b3, has_wheel).buttons <= 7,
        -256 <= packet_spec(b0, b1, b2, b3, has_wheel).x <= 255,
        -255 <= packet_spec(b0, b1, b2, b3, has_wheel).y <= 256,
        !has_wheel ==> packet_spec(b0, b1, b2, b3, has_wheel).z == 0,
{
    assert(b0 & 0x07 <= 7) by (bit_vector);
}

/// Movement is a signed 9-bit value: the second byte is x modulo 256 and
/// bit 4 of the first byte its sign; the third byte is the upward movement
/// modulo 256 with bit 5 as its sign, and y points down, so y is its
/// negation. The buttons are bits 0 to 2 of the first byte, left, right,
/// middle.
pub proof fn lemma_packet_fields(b0: u8, b1: u8, b2: u8, b3: u8, has_wheel: bool)
    ensures
        ({
            let p = packet_spec(b0, b1, b2, b3, has_wheel);
            &&& (p.x + 256) % 256 == b1
            &&& (p.x < 0 <==> b0 & 0x10 != 0)
            &&& (-p.y + 256) % 256 == b2
            &&& (-p.y < 0 <==> b0 & 0x20 != 0)
            &&& (p.buttons & 0x01 != 0 <==> b0 & 0x01 != 0)
            &&& (p.buttons & 0x02 != 0 <==> b0 & 0x02 != 0)
            &&& (p.buttons & 0x04 != 0 <==> b0 & 0x04 != 0)
        }),
{
    let m = b0 & 0x07u8;
    assert((m & 0x01 != 0 <==> b0 & 0x01 != 0) && (m & 0x02 != 0 <==> b0 & 0x02 != 0)
        && (m & 0x04 != 0 <==> b0 & 0x04 != 0)) by (bit_vector)
        requires m == b0 & 0x07u8;
}

pub fn decode_packet(b0: u8, b1: u8, b2: u8, b3: u8, has_wheel: bool) -> (r: MousePacket)
    ensures
        r == packet_spec(b0, b1, b2, b3, has_wheel),
{
    let x: i16 = if b0 & 0x10 != 0 { (b1 as i16) - 256 } else { b1 as i16 };
    let y: i16 = if b0 & 0x20 != 0 { -((b2 as i16) - 256) } else { -(b2 as i16) };
    let z: i8 = if has_wheel {
        let s = b3 as i8;
        if s == -128 { s } else { -s }
    } else {
        0
    };
    MousePacket { buttons: b0 & 0x07, x, y, z }
}

/// Where the mouse initialisation exchange stands.
#[derive(Debug, Clone, Copy, PartialEq, Eq, Structural)]
pub enum MouseInit {
    Start,
    CommandByte,
    ResetAck,
    SelfTest,
    /// Reply to a set-sample-rate command of the wheel probe; `n` counts them.
    ProbeRateAck { n: u8 },
    /// Reply to the rate value of the wheel probe.
    ProbeRateValue { n: u8 },
    DeviceId,
    EnableAck,
    RateAck,
    RateValue,
    ResolutionAck,
    ResolutionValue,
    Finished,
}

/// The batch of operations that the exchange asks for next; the byte read
/// by its last `ReadData` is the next input.
#[derive(Debug)]
pub enum MouseStep {
    Run(Vec<Ps2Op>),
    Done(MouseResult),
}

/// Rates written to detect a wheel mouse, in order.
pub open spec fn probe_rate(n: u8) -> u8 {
    if n == 0 { 200 } else if n == 1 { 100 } else { 80 }
}

/// The status request of the wheel probe and the three reply bytes.
pub open spec fn status_request_ops() -> Seq<Ps2Op> {
    aux_command_ops(MOUSE_STATUS_REQUEST) + seq![
        Ps2Op::WaitRead, Ps2Op::ReadData, Ps2Op::WaitRead, Ps2Op::ReadData, Ps2Op::WaitRead, Ps2Op::ReadData,
    ]
}

/// What follows the wheel probe's `n`th rate command (or its value).
pub open spec fn after_probe_rate(n: u8) -> (MouseInit, Seq<Ps2Op>) {
    if n < 2 {
        (MouseInit::ProbeRateAck { n: (n + 1) as u8 }, aux_command_ops(MOUSE_SET_SAMPLE_RATE))
    } else {
        (MouseInit::DeviceId, status_request_ops())
    }
}

pub open spec fn enable_port_ops() -> Seq<Ps2Op> {
    seq![Ps2Op::WaitWrite, Ps2Op::WriteCmd(CMD_ENABLE_KBD)]
}

/// One transition of the mouse initialisation exchange.
pub open spec fn mouse_init_spec(st: MouseInit, input: u8, sample_rate: u8, resolution: u8) -> (MouseInit, Option<Seq<Ps2Op>>, Option<MouseResult>) {
    match st {
        MouseInit::Start => (MouseInit::CommandByte, Some(seq![
            Ps2Op::WaitWrite, Ps2Op::WriteCmd(CMD_DISABLE_KBD),
            Ps2Op::WaitWrite, Ps2Op::WriteCmd(CMD_READ_CMDBYTE), Ps2Op::WaitRead, Ps2Op::ReadData,
        ]), None),
        MouseInit::CommandByte => (MouseInit::ResetAck, Some(seq![
            Ps2Op::WaitWrite, Ps2Op::WriteCmd(CMD_WRITE_CMDBYTE), Ps2Op::WaitWrite, Ps2Op::WriteData(input | 0x02),
        ] + aux_command_ops(MOUSE_RESET)), None),
        MouseInit::ResetAck => if input != MOUSE_ACK {
            (MouseInit::Finished, None, Some(Err(MouseError::ControllerNotFound)))
        } else {
            (MouseInit::SelfTest, Some(seq![Ps2Op::WaitRead, Ps2Op::ReadData]), None)
        },
        MouseInit::SelfTest => (MouseInit::ProbeRateAck { n: 0 }, Some(
            (if input != MOUSE_BAT_SUCCESS { seq![Ps2Op::WaitRead] } else { Seq::empty() })
                + seq![Ps2Op::ReadData] + aux_command_ops(MOUSE_SET_SAMPLE_RATE),
        ), None),
        MouseInit::ProbeRateAck { n } => if input == ACK {
            (MouseInit::ProbeRateValue { n }, Some(aux_command_ops(probe_rate(n))), None)
        } else {
            (after_probe_rate(n).0, Some(after_probe_rate(n).1), None)
        },
        MouseInit::ProbeRateValue { n } => (after_probe_rate(n).0, Some(after_probe_rate(n).1), None),
        MouseInit::DeviceId => (MouseInit::EnableAck, Some(aux_command_ops(MOUSE_ENABLE)), None),
        MouseInit::EnableAck => if input != MOUSE_ACK {
            (MouseInit::Finished, None, Some(Err(MouseError::Disabled)))
        } else {
            (MouseInit::RateAck, Some(aux_command_ops(MOUSE_SET_SAMPLE_RATE)), None)
        },
        MouseInit::RateAck => if input == ACK {
            (MouseInit::RateValue, Some(aux_command_ops(sample_rate)), None)
        } else {
            (MouseInit::ResolutionAck, Some(aux_command_ops(MOUSE_SET_RESOLUTION)), None)
        },
        MouseInit::RateValue => (MouseInit::ResolutionAck, Some(aux_command_ops(MOUSE_SET_RESOLUTION)), None),
        MouseInit::ResolutionAck => if input == ACK {
            (MouseInit::ResolutionValue, Some(aux_command_ops(resolution)), None)
        } else {
            (MouseInit::Finished, Some(enable_port_ops()), None)
        },
        MouseInit::ResolutionValue => (MouseInit::Finished, Some(enable_port_ops()), None),
        MouseInit::Finished => (MouseInit::Finished, None, Some(Ok(()))),
    }
}

pub struct MouseController {
    rate: u8,
    resolution: u8,
    sample_rate: u8,
    packet_buf: Vec<u8>,
    packet_idx: usize,
    has_wheel: bool,
    enabled: bool,
}

impl MouseController {
    pub closed spec fn wf(&self) -> bool {
        &&& self.packet_buf.len() == 4
        &&& self.packet_idx < 4
    }

    pub closed spec fn spec_has_wheel(&self) -> bool {
        self.has_wheel
    }

    pub closed spec fn spec_enabled(&self) -> bool {
        self.enabled
    }

    pub closed spec fn spec_sample_rate(&self) -> u8 {
        self.sample_rate
    }

    pub closed spec fn spec_resolution(&self) -> u8 {
        self.resolution
    }

    /// Bytes of the packet gathered so far.
    pub closed spec fn pending(&self) -> Seq<u8> {
        self.packet_buf@.take(self.packet_idx as int)
    }

    pub open spec fn packet_size(&self) -> int {
        if self.spec_has_wheel() { 4 } else { 3 }
    }

    /// A well-formed mouse keeps at most three bytes of a packet between
    /// calls, so the four-byte packet buffer is never overrun.
    pub proof fn lemma_pending_bound(&self)
        requires
            self.wf(),
        ensures
            self.pending().len() <= 3,
            3 <= self.packet_size() <= 4,
    {
    }

    pub fn new() -> (r: Self)
        ensures
            r.wf(),
            !r.spec_has_wheel(),
            !r.spec_enabled(),
            r.spec_sample_rate() == 100,
            r.spec_resolution() == 4,
            r.pending() == Seq::<u8>::empty(),
    {
        let mut packet_buf: Vec<u8> = Vec::new();
        packet_buf.push(0);
        packet_buf.push(0);
        packet_buf.push(0);
        packet_buf.push(0);
        let r = Self {
            rate: 100,
            resolution: 4,
            sample_rate: 100,
            packet_buf,
            packet_idx: 0,
            has_wheel: false,
            enabled: false,
        };
        assert(r.pending() =~= Seq::<u8>::empty());
        r
    }

    pub fn has_wheel(&self) -> (r: bool)
        ensures
            r == self.spec_has_wheel(),
    {
        self.has_wheel
    }

    pub fn is_enabled(&self) -> (r: bool)
        ensures
            r == self.spec_enabled(),
    {
        self.enabled
    }

    /// One transition of the initialisation exchange: it disables the
    /// keyboard port, turns on the auxiliary interrupt, resets the mouse,
    /// probes for a wheel (rates 200, 100, 80, then the device id), enables
    /// reporting and sets the sample rate and resolution. `input` is the byte
    /// read last. A missing reset acknowledgement ends it with
    /// `ControllerNotFound`, a missing enable acknowledgement with `Disabled`.
    pub fn init(&mut self, st: &mut MouseInit, input: u8) -> (r: MouseStep)
        requires
            old(self).wf(),
        ensures
            final(self).wf(),
            final(self).spec_sample_rate() == old(self).spec_sample_rate(),
            final(self).spec_resolution() == old(self).spec_resolution(),
            final(self).pending() == old(self).pending(),
            ({
                let (next, ops, res) = mouse_init_spec(*old(st), input, old(self).spec_sample_rate(),
                    old(self).spec_resolution());
                &&& *final(st) == next
                &&& match r {
                    MouseStep::Run(v) => ops == Some(v@) && res is None,
                    MouseStep::Done(d) => ops is None && res == Some(d),
                }
            }),
            *old(st) == MouseInit::DeviceId ==> final(self).spec_has_wheel() == (input == WHEEL_MOUSE_ID),
            *old(st) != MouseInit::DeviceId ==> final(self).spec_has_wheel() == old(self).spec_has_wheel(),
            *old(st) == MouseInit::Finished ==> final(self).spec_enabled(),
            *old(st) != MouseInit::Finished ==> final(self).spec_enabled() == old(self).spec_enabled(),
    {
        let mut ops: Vec<Ps2Op> = Vec::new();
        match *st {
            MouseInit::Start => {
                ops.push(Ps2Op::WaitWrite);
                ops.push(Ps2Op::WriteCmd(CMD_DISABLE_KBD));
                ops.push(Ps2Op::WaitWrite);
                ops.push(Ps2Op::WriteCmd(CMD_READ_CMDBYTE));
                ops.push(Ps2Op::WaitRead);
                ops.push(Ps2Op::ReadData);
                *st = MouseInit::CommandByte;
            },
            MouseInit::CommandByte => {
                ops.push(Ps2Op::WaitWrite);
                ops.push(Ps2Op::WriteCmd(CMD_WRITE_CMDBYTE));
                ops.push(Ps2Op::WaitWrite);
                ops.push(Ps2Op::WriteData(input | 0x02));
                push_aux_command(&mut ops, MOUSE_RESET);
                *st = MouseInit::ResetAck;
            },
            MouseInit::ResetAck => {
                if input != MOUSE_ACK {
                    *st = MouseInit::Finished;
                    return MouseStep::Done(Err(MouseError::ControllerNotFound));
                }
                ops.push(Ps2Op::WaitRead);
                ops.push(Ps2Op::ReadData);
                *st = MouseInit::SelfTest;
            },
            MouseInit::SelfTest => {
                if input != MOUSE_BAT_SUCCESS {
                    ops.push(Ps2Op::WaitRead);
                }
                ops.push(Ps2Op::ReadData);
                push_aux_command(&mut ops, MOUSE_SET_SAMPLE_RATE);
                *st = MouseInit::ProbeRateAck { n: 0 };
            },
            MouseInit::ProbeRateAck { n } => {
                if input == ACK {
                    let rate: u8 = if n == 0 { 200 } else if n == 1 { 100 } else { 80 };
                    push_aux_command(&mut ops, rate);
                    *st = MouseInit::ProbeRateValue { n };
                } else {
                    *st = push_after_probe_rate(&mut ops, n);
                }
            },
            MouseInit::ProbeRateValue { n } => {
                *st = push_after_probe_rate(&mut ops, n);
            },
            MouseInit::DeviceId => {
                self.has_wheel = input == WHEEL_MOUSE_ID;
                push_aux_command(&mut ops, MOUSE_ENABLE);
                *st = MouseInit::EnableAck;
            },
            MouseInit::EnableAck => {
                if input != MOUSE_ACK {
                    *st = MouseInit::Finished;
                    return MouseStep::Done(Err(MouseError::Disabled));
                }
                push_aux_command(&mut ops, MOUSE_SET_SAMPLE_RATE);
                *st = MouseInit::RateAck;
            },
            MouseInit::RateAck => {
                if input == ACK {
                    push_aux_command(&mut ops, self.sample_rate);
                    *st = MouseInit::RateValue;
                } else {
                    push_aux_command(&mut ops, MOUSE_SET_RESOLUTION);
                    *st = MouseInit::ResolutionAck;
                }
            },
            MouseInit::RateValue => {
                push_aux_command(&mut ops, MOUSE_SET_RESOLUTION);
                *st = MouseInit::ResolutionAck;
            },
            MouseInit::ResolutionAck => {
                if input == ACK {
                    push_aux_command(&mut ops, self.resolution);
                    *st = MouseInit::ResolutionValue;
                } else {
                    ops.push(Ps2Op::WaitWrite);
                    ops.push(Ps2Op::WriteCmd(CMD_ENABLE_KBD));
                    *st = MouseInit::Finished;
                }
            },
            MouseInit::ResolutionValue => {
                ops.push(Ps2Op::WaitWrite);
                ops.push(Ps2Op::WriteCmd(CMD_ENABLE_KBD));
                *st = MouseInit::Finished;
            },
            MouseInit::Finished => {
                self.enabled = true;
                return MouseStep::Done(Ok(()));
            },
        }
        proof {
            let (next, sops, res) = mouse_init_spec(*old(st), input, old(self).spec_sample_rate(),
                old(self).spec_resolution());
            assert(ops@ =~= sops.unwrap());
        }
        MouseStep::Run(ops)
    }

    /// Takes one byte of a movement packet. `status` is the controller
    /// status byte; `data` is the byte read from the data port when it shows
    /// one waiting. A first byte without bit 3 is dropped to regain sync; the
    /// packet comes out once its three (four with a wheel) bytes are in.
    pub fn read_packet(&mut self, status: u8, data: u8) -> (r: Option<MousePacket>)
        requires
            old(self).wf(),
        ensures
            final(self).wf(),
            final(self).spec_has_wheel() == old(self).spec_has_wheel(),
            final(self).spec_enabled() == old(self).spec_enabled(),
            final(self).spec_sample_rate() == old(self).spec_sample_rate(),
            final(self).spec_resolution() == old(self).spec_resolution(),
            status & crate::ps2::STATUS_OUTPUT_FULL == 0 ==> r is None && final(self).pending()
                == old(self).pending(),
            status & crate::ps2::STATUS_OUTPUT_FULL != 0 ==> ({
                let p = old(self).pending();
                if p.len() == 0 && data & 0x08 == 0 {
                    r is None && final(self).pending() == p
                } else if p.len() + 1 < old(self).packet_size() {
                    r is None && final(self).pending() == p.push(data)
                } else {
                    let b = p.push(data);
                    final(self).pending() == Seq::<u8>::empty() && r == Some(
                        packet_spec(b[0], b[1], b[2], if old(self).spec_has_wheel() { b[3] } else { 0 },
                            old(self).spec_has_wheel()),
                    )
                }
            }),
    {
        if status & crate::ps2::STATUS_OUTPUT_FULL == 0 {
            return None;
        }
        if self.packet_idx == 0 {
            if data & 0x08 == 0 {
                return None;
            }
        }
        let ghost p = self.pending();
        self.packet_buf.set(self.packet_idx, data);
        self.packet_idx = self.packet_idx + 1;
        let packet_size: usize = if self.has_wheel { 4 } else { 3 };
        if self.packet_idx < packet_size {
            assert(self.pending() =~= p.push(data));
            return None;
        }
        assert(self.packet_buf@.take(self.packet_idx as int) =~= p.push(data));
        self.packet_idx = 0;
        assert(self.pending() =~= Seq::<u8>::empty());
        let b0 = self.packet_buf[0];
        let b1 = self.packet_buf[1];
        let b2 = self.packet_buf[2];
        let b3 = if self.has_wheel { self.packet_buf[3] } else { 0 };
        Some(decode_packet(b0, b1, b2, b3, self.has_wheel))
    }
}

fn push_after_probe_rate(ops: &mut Vec<Ps2Op>, n: u8) -> (next: MouseInit)
    ensures
        next == after_probe_rate(n).0,
        final(ops)@ == old(ops)@ + after_probe_rate(n).1,
{
    if n < 2 {
        push_aux_command(ops, MOUSE_SET_SAMPLE_RATE);
        MouseInit::ProbeRateAck { n: n + 1 }
    } else {
        push_aux_command(ops, MOUSE_STATUS_REQUEST);
        ops.push(Ps2Op::WaitRead);
        ops.push(Ps2Op::ReadData);
        ops.push(Ps2Op::WaitRead);
        ops.push(Ps2Op::ReadData);
        ops.push(Ps2Op::WaitRead);
        ops.push(Ps2Op::ReadData);
        assert(ops@ =~= old(ops)@ + status_request_ops());
        MouseInit::DeviceId
    }
}

} // verus!
