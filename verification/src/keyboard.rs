use vstd::prelude::*;
use crate::ps2::{Ps2Op, Ps2Step};

verus! {

pub type KbdResult = Result<(), KbdError>;

#[derive(Debug, Clone, Copy, PartialEq, Eq, Structural)]
pub enum KbdError {
    ControllerNotFound,
    SelfTestFailed,
    InterfaceTestFailed,
    Disabled,
}

pub const CMD_READ_CONFIG: u8 = 0x20;
pub const CMD_WRITE_CONFIG: u8 = 0x60;
pub const CMD_DISABLE_KBD: u8 = 0xAD;
pub const CMD_ENABLE_KBD: u8 = 0xAE;
pub const CMD_SELF_TEST: u8 = 0xAA;
pub const CMD_KBD_TEST: u8 = 0xAB;

pub const KBD_ENABLE: u8 = 0xF4;
pub const KBD_RESET: u8 = 0xFF;
pub const KBD_SET_LEDS: u8 = 0xED;
pub const KBD_SET_TYPEMATIC: u8 = 0xF3;

/// Reply of a controller that passed its self test.
pub const SELF_TEST_PASSED: u8 = 0x55;
/// Reply of a keyboard port that passed its interface test.
pub const INTERFACE_TEST_PASSED: u8 = 0x00;

#[derive(Debug, Clone, Copy, PartialEq, Eq, Structural)]
pub enum KeyCode {
    A, B, C, D, E, F, G, H, I, J, K, L, M,
    N, O, P, Q, R, S, T, U, V, W, X, Y, Z,
    K0, K1, K2, K3, K4, K5, K6, K7, K8, K9,
    F1, F2, F3, F4, F5, F6, F7, F8, F9, F10, F11, F12,
    Escape, Tab, CapsLock, LeftShift, RightShift,
    LeftCtrl, RightCtrl, LeftAlt, RightAlt, Space,
    Enter, Backspace, Delete, Insert, Home, End,
    PageUp, PageDown, Up, Down, Left, Right,
    Minus, Equals, LBracket, RBracket, Semicolon,
    Quote, Comma, Period, Slash, Backslash, Tilde,
    Grave, Menu, PrintScreen, ScrollLock, Pause,
    Keypad0, Keypad1, Keypad2, Keypad3, Keypad4,
    Keypad5, Keypad6, Keypad7, Keypad8, Keypad9,
    KeypadDivide, KeypadMultiply, KeypadMinus,
    KeypadPlus, KeypadEnter, KeypadDecimal,
    NumLock,
    Unknown(u8),
}

#[derive(Debug, Clone, Copy, PartialEq, Eq, Structural)]
pub struct KeyEvent {
    pub code: KeyCode,
    pub pressed: bool,
}

/// The key of a set 1 make code (`code < 0x80`).
pub open spec fn key_of(code: u8) -> KeyCode {
    if code == 0x01 { KeyCode::Escape }
    else if code == 0x02 { KeyCode::K1 } else if code == 0x03 { KeyCode::K2 }
    else if code == 0x04 { KeyCode::K3 } else if code == 0x05 { KeyCode::K4 }
    else if code == 0x06 { KeyCode::K5 } else if code == 0x07 { KeyCode::K6 }
    else if code == 0x08 { KeyCode::K7 } else if code == 0x09 { KeyCode::K8 }
    else if code == 0x0A { KeyCode::K9 } else if code == 0x0B { KeyCode::K0 }
    else if code == 0x0C { KeyCode::Minus } else if code == 0x0D { KeyCode::Equals }
    else if code == 0x0E { KeyCode::Backspace } else if code == 0x0F { KeyCode::Tab }
    else if code == 0x10 { KeyCode::Q } else if code == 0x11 { KeyCode::W }
    else if code == 0x12 { KeyCode::E } else if code == 0x13 { KeyCode::R }
    else if code == 0x14 { KeyCode::T } else if code == 0x15 { KeyCode::Y }
    else if code == 0x16 { KeyCode::U } else if code == 0x17 { KeyCode::I }
    else if code == 0x18 { KeyCode::O } else if code == 0x19 { KeyCode::P }
    else if code == 0x1A { KeyCode::LBracket } else if code == 0x1B { KeyCode::RBracket }
    else if code == 0x1C { KeyCode::Enter } else if code == 0x1D { KeyCode::LeftCtrl }
    else if code == 0x1E { KeyCode::A } else if code == 0x1F { KeyCode::S }
    else if code == 0x20 { KeyCode::D } else if code == 0x21 { KeyCode::F }
    else if code == 0x22 { KeyCode::G } else if code == 0x23 { KeyCode::H }
    else if code == 0x24 { KeyCode::J } else if code == 0x25 { KeyCode::K }
    else if code == 0x26 { KeyCode::L } else if code == 0x27 { KeyCode::Semicolon }
    else if code == 0x28 { KeyCode::Quote } else if code == 0x29 { KeyCode::Tilde }
    else if code == 0x2A { KeyCode::LeftShift } else if code == 0x2B { KeyCode::Backslash }
    else if code == 0x2C { KeyCode::Z } else if code == 0x2D { KeyCode::X }
    else if code == 0x2E { KeyCode::C } else if code == 0x2F { KeyCode::V }
    else if code == 0x30 { KeyCode::B } else if code == 0x31 { KeyCode::N }
    else if code == 0x32 { KeyCode::M } else if code == 0x33 { KeyCode::Comma }
    else if code == 0x34 { KeyCode::Period } else if code == 0x35 { KeyCode::Slash }
    else if code == 0x36 { KeyCode::RightShift } else if code == 0x37 { KeyCode::KeypadMultiply }
    else if code == 0x38 { KeyCode::LeftAlt } else if code == 0x39 { KeyCode::Space }
    else if code == 0x3A { KeyCode::CapsLock }
    else if code == 0x3B { KeyCode::F1 } else if code == 0x3C { KeyCode::F2 }
    else if code == 0x3D { KeyCode::F3 } else if code == 0x3E { KeyCode::F4 }
    else if code == 0x3F { KeyCode::F5 } else if code == 0x40 { KeyCode::F6 }
    else if code == 0x41 { KeyCode::F7 } else if code == 0x42 { KeyCode::F8 }
    else if code == 0x43 { KeyCode::F9 } else if code == 0x44 { KeyCode::F10 }
    else if code == 0x45 { KeyCode::NumLock } else if code == 0x46 { KeyCode::ScrollLock }
    else if code == 0x47 { KeyCode::Keypad7 } else if code == 0x48 { KeyCode::Keypad8 }
    else if code == 0x49 { KeyCode::Keypad9 } else if code == 0x4A { KeyCode::KeypadMinus }
    else if code == 0x4B { KeyCode::Keypad4 } else if code == 0x4C { KeyCode::Keypad5 }
    else if code == 0x4D { KeyCode::Keypad6 } else if code == 0x4E { KeyCode::KeypadPlus }
    else if code == 0x4F { KeyCode::Keypad1 } else if code == 0x50 { KeyCode::Keypad2 }
    else if code == 0x51 { KeyCode::Keypad3 } else if code == 0x52 { KeyCode::Keypad0 }
    else if code == 0x53 { KeyCode::KeypadDecimal }
    else if code == 0x57 { KeyCode::F11 } else if code == 0x58 { KeyCode::F12 }
    else { KeyCode::Unknown(code) }
}

/// The digit row, left to right.
pub open spec fn digit_row() -> Seq<KeyCode> {
    seq![KeyCode::K1, KeyCode::K2, KeyCode::K3, KeyCode::K4, KeyCode::K5, KeyCode::K6, KeyCode::K7,
        KeyCode::K8, KeyCode::K9, KeyCode::K0]
}

/// The top letter row, left to right.
pub open spec fn top_row() -> Seq<KeyCode> {
    seq![KeyCode::Q, KeyCode::W, KeyCode::E, KeyCode::R, KeyCode::T, KeyCode::Y, KeyCode::U,
        KeyCode::I, KeyCode::O, KeyCode::P]
}

/// The home row letters, left to right.
pub open spec fn home_row() -> Seq<KeyCode> {
    seq![KeyCode::A, KeyCode::S, KeyCode::D, KeyCode::F, KeyCode::G, KeyCode::H, KeyCode::J,
        KeyCode::K, KeyCode::L]
}

/// The bottom row letters, left to right.
pub open spec fn bottom_row() -> Seq<KeyCode> {
    seq![KeyCode::Z, KeyCode::X, KeyCode::C, KeyCode::V, KeyCode::B, KeyCode::N, KeyCode::M]
}

/// Function keys F1 to F10.
pub open spec fn function_row() -> Seq<KeyCode> {
    seq![KeyCode::F1, KeyCode::F2, KeyCode::F3, KeyCode::F4, KeyCode::F5, KeyCode::F6, KeyCode::F7,
        KeyCode::F8, KeyCode::F9, KeyCode::F10]
}

/// Set 1 numbers the keys of each row of a US keyboard consecutively from
/// the left: the digits 1 to 0 from 0x02, Q to P from 0x10, A to L from
/// 0x1E, Z to M from 0x2C, and F1 to F10 from 0x3B. Pressing a key gives a
/// press of it; its break code (bit 7 set) gives its release.
pub proof fn lemma_keyboard_rows(i: int)
    ensures
        0 <= i < 10 ==> key_of((0x02 + i) as u8) == digit_row()[i],
        0 <= i < 10 ==> key_of((0x10 + i) as u8) == top_row()[i],
        0 <= i < 9 ==> key_of((0x1E + i) as u8) == home_row()[i],
        0 <= i < 7 ==> key_of((0x2C + i) as u8) == bottom_row()[i],
        0 <= i < 10 ==> key_of((0x3B + i) as u8) == function_row()[i],
        0 <= i < 10 ==> decode_spec((0x10 + i) as u8) == (KeyEvent { code: top_row()[i], pressed: true })
            && decode_spec((0x90 + i) as u8) == (KeyEvent { code: top_row()[i], pressed: false }),
{
    if 0 <= i < 10 {
        let m = (0x10 + i) as u8;
        let b = (0x90 + i) as u8;
        assert(m & 0x7F == m && m & 0x80 == 0) by (bit_vector) requires 0x10u8 <= m < 0x1Au8;
        assert(b & 0x7F == m && b & 0x80 != 0) by (bit_vector) requires 0x10u8 <= m < 0x1Au8, b == m + 0x80u8;
    }
}

/// The keypad digits by rows from the top: 7 8 9 from 0x47, 4 5 6 from
/// 0x4B, 1 2 3 from 0x4F, and 0 at 0x52; the codes 0x59 to 0x7F name no
/// key and decode as unknown, keeping the code.
pub proof fn lemma_keypad_rows(i: int, code: u8)
    ensures
        0 <= i < 3 ==> key_of((0x47 + i) as u8) == seq![KeyCode::Keypad7, KeyCode::Keypad8, KeyCode::Keypad9][i],
        0 <= i < 3 ==> key_of((0x4B + i) as u8) == seq![KeyCode::Keypad4, KeyCode::Keypad5, KeyCode::Keypad6][i],
        0 <= i < 3 ==> key_of((0x4F + i) as u8) == seq![KeyCode::Keypad1, KeyCode::Keypad2, KeyCode::Keypad3][i],
        key_of(0x52) == KeyCode::Keypad0,
        0x59 <= code < 0x80 ==> key_of(code) == KeyCode::Unknown(code),
{
}

/// The event that a scancode stands for: bit 7 set means the key was released.
pub open spec fn decode_spec(scancode: u8) -> KeyEvent {
    KeyEvent { code: key_of(scancode & 0x7F), pressed: scancode & 0x80 == 0 }
}

/// LED byte of the set-LEDs command: scroll lock in bit 0, num lock in
/// bit 1, caps lock in bit 2.
pub open spec fn led_spec(num_lock: bool, caps_lock: bool, scroll_lock: bool) -> u8 {
    ((if scroll_lock { 1u8 } else { 0u8 }) | (if num_lock { 2u8 } else { 0u8 })) | (if caps_lock { 4u8 } else { 0u8 })
}

/// Controller configuration byte written by `init`: translation off,
/// system flag and keyboard interrupt on.
pub open spec fn init_config_spec(config: u8) -> u8 {
    ((config & !0x40u8) | 0x04u8) | 0x01u8
}

/// Each lock has its own LED bit: scroll lock bit 0, num lock bit 1,
/// caps lock bit 2; no other bit is set.
pub proof fn lemma_led_bits(num_lock: bool, caps_lock: bool, scroll_lock: bool)
    ensures
        (led_spec(num_lock, caps_lock, scroll_lock) & 0x01 != 0) == scroll_lock,
        (led_spec(num_lock, caps_lock, scroll_lock) & 0x02 != 0) == num_lock,
        (led_spec(num_lock, caps_lock, scroll_lock) & 0x04 != 0) == caps_lock,
        led_spec(num_lock, caps_lock, scroll_lock) < 8,
{
    let sb: u8 = if scroll_lock { 1u8 } else { 0u8 };
    let nb: u8 = if num_lock { 2u8 } else { 0u8 };
    let cb: u8 = if caps_lock { 4u8 } else { 0u8 };
    assert({
        let v = (sb | nb) | cb;
        &&& (v & 0x01 != 0) == (sb == 1u8)
        &&& (v & 0x02 != 0) == (nb == 2u8)
        &&& (v & 0x04 != 0) == (cb == 4u8)
        &&& v < 8u8
    }) by (bit_vector)
        requires
            sb == 0u8 || sb == 1u8,
            nb == 0u8 || nb == 2u8,
            cb == 0u8 || cb == 4u8,
    ;
}

/// The configuration byte that `init` writes turns translation (bit 6)
/// off and the system flag (bit 2) and keyboard interrupt (bit 0) on,
/// keeping every other bit of the byte read.
pub proof fn lemma_config_bits(config: u8)
    ensures
        init_config_spec(config) & 0x40 == 0,
        init_config_spec(config) & 0x05 == 0x05,
        init_config_spec(config) & 0xBA == config & 0xBA,
{
    assert({
        let w = ((config & !0x40u8) | 0x04u8) | 0x01u8;
        &&& w & 0x40u8 == 0u8
        &&& w & 0x05u8 == 0x05u8
        &&& w & 0xBAu8 == config & 0xBAu8
    }) by (bit_vector);
}

pub struct KeyboardController {
    enabled: bool,
}

/// Progress of the keyboard initialisation exchange.
#[derive(Debug, Clone, Copy, PartialEq, Eq, Structural)]
pub struct KbdInit {
    pub step: u8,
    pub config: u8,
}

/// The operation at a step of the initialisation exchange that involves no
/// decision.
pub open spec fn init_op(step: u8, config: u8) -> Ps2Op {
    if step == 0 { Ps2Op::WaitWrite }
    else if step == 1 { Ps2Op::WriteCmd(CMD_DISABLE_KBD) }
    else if step == 2 { Ps2Op::WaitWrite }
    else if step == 3 { Ps2Op::WriteCmd(CMD_READ_CONFIG) }
    else if step == 4 { Ps2Op::WaitRead }
    else if step == 5 { Ps2Op::ReadData }
    else if step == 6 { Ps2Op::WaitWrite }
    else if step == 7 { Ps2Op::WriteCmd(CMD_WRITE_CONFIG) }
    else if step == 8 { Ps2Op::WaitWrite }
    else if step == 9 { Ps2Op::WriteData(config) }
    else if step == 10 { Ps2Op::WaitWrite }
    else if step == 11 { Ps2Op::WriteCmd(CMD_SELF_TEST) }
    else if step == 12 { Ps2Op::WaitRead }
    else if step == 13 { Ps2Op::ReadData }
    else if step == 14 { Ps2Op::WaitWrite }
    else if step == 15 { Ps2Op::WriteCmd(CMD_KBD_TEST) }
    else if step == 16 { Ps2Op::WaitRead }
    else if step == 17 { Ps2Op::ReadData }
    else if step == 18 { Ps2Op::WaitWrite }
    else if step == 19 { Ps2Op::WriteCmd(CMD_ENABLE_KBD) }
    else if step == 20 { Ps2Op::WaitWrite }
    else if step == 21 { Ps2Op::WriteData(KBD_RESET) }
    else if step == 22 { Ps2Op::WaitRead }
    else if step == 23 { Ps2Op::ReadData }
    else if step == 24 { Ps2Op::WaitRead }
    else { Ps2Op::ReadData }
}

/// The check made on the byte read just before `step`, if any.
pub open spec fn init_check(step: u8, input: u8) -> Option<KbdError> {
    if step == 14 && input != SELF_TEST_PASSED {
        Some(KbdError::SelfTestFailed)
    } else if step == 18 && input != INTERFACE_TEST_PASSED {
        Some(KbdError::InterfaceTestFailed)
    } else if step == 24 && input != crate::ps2::ACK {
        Some(KbdError::ControllerNotFound)
    } else {
        None
    }
}

/// Last step of the exchange; reaching it ends the exchange successfully.
pub const INIT_STEPS: u8 = 26;

impl KbdInit {
    pub fn new() -> (r: Self)
        ensures
            r.step == 0,
            r.config == 0,
    {
        KbdInit { step: 0, config: 0 }
    }
}

impl KeyboardController {
    pub fn new() -> (r: Self)
        ensures
            !r.is_enabled(),
    {
        Self { enabled: false }
    }

    pub closed spec fn is_enabled(&self) -> bool {
        self.enabled
    }

    pub fn enabled(&self) -> (r: bool)
        ensures
            r == self.is_enabled(),
    {
        self.enabled
    }

    /// One step of the initialisation exchange. `input` is the byte that the
    /// last `ReadData` gave (ignored after other operations). The exchange
    /// disables the keyboard port, sets the configuration byte, runs the
    /// controller and port self tests, enables the port and resets the
    /// keyboard; a wrong reply ends it with the matching error, and the end
    /// of the script enables the controller.
    pub fn init(&mut self, m: &mut KbdInit, input: u8) -> (r: Ps2Step<KbdError>)
        requires
            old(m).step <= INIT_STEPS,
        ensures
            final(m).step <= INIT_STEPS,
            match init_check(old(m).step, input) {
                Some(e) => r == Ps2Step::<KbdError>::Done(Err(e)) && *final(m) == *old(m)
                    && final(self).is_enabled() == old(self).is_enabled(),
                None => if old(m).step == INIT_STEPS {
                    r == Ps2Step::<KbdError>::Done(Ok(())) && *final(m) == *old(m)
                        && final(self).is_enabled()
                } else {
                    let config = if old(m).step == 6 { init_config_spec(input) } else { old(m).config };
                    r == Ps2Step::<KbdError>::Do(init_op(old(m).step, config))
                        && final(m).step == old(m).step + 1 && final(m).config == config
                        && final(self).is_enabled() == old(self).is_enabled()
                },
            },
    {
        let step = m.step;
        if step == 14 && input != SELF_TEST_PASSED {
            return Ps2Step::Done(Err(KbdError::SelfTestFailed));
        }
        if step == 18 && input != INTERFACE_TEST_PASSED {
            return Ps2Step::Done(Err(KbdError::InterfaceTestFailed));
        }
        if step == 24 && input != crate::ps2::ACK {
            return Ps2Step::Done(Err(KbdError::ControllerNotFound));
        }
        if step == INIT_STEPS {
            self.enabled = true;
            return Ps2Step::Done(Ok(()));
        }
        if step == 6 {
            m.config = init_config(input);
        }
        let op = init_op_exec(step, m.config);
        m.step = step + 1;
        Ps2Step::Do(op)
    }

    /// One round of draining the output buffer: while the status byte shows
    /// a byte waiting, read it from the data port and look again.
    pub fn flush(&self, status: u8) -> (r: Option<Ps2Op>)
        ensures
            status & crate::ps2::STATUS_OUTPUT_FULL != 0 ==> r == Some(Ps2Op::ReadData),
            status & crate::ps2::STATUS_OUTPUT_FULL == 0 ==> r is None,
    {
        if status & crate::ps2::STATUS_OUTPUT_FULL != 0 {
            Some(Ps2Op::ReadData)
        } else {
            None
        }
    }

    /// The event of the byte waiting in the data port, when the status byte
    /// says that one waits; `scancode` is that byte.
    pub fn read_event(&self, status: u8, scancode: u8) -> (r: Option<KeyEvent>)
        ensures
            status & crate::ps2::STATUS_OUTPUT_FULL == 0 ==> r is None,
            status & crate::ps2::STATUS_OUTPUT_FULL != 0 ==> r == Some(decode_spec(scancode)),
    {
        if status & crate::ps2::STATUS_OUTPUT_FULL == 0 {
            return None;
        }
        Some(Self::decode_scancode(scancode))
    }

    /// Operations that set the keyboard LEDs: the command, its
    /// acknowledgement (read and dropped) and the LED byte.
    pub fn set_leds(&self, num_lock: bool, caps_lock: bool, scroll_lock: bool) -> (ops: Vec<Ps2Op>)
        ensures
            ops@ == seq![
                Ps2Op::WaitWrite,
                Ps2Op::WriteData(KBD_SET_LEDS),
                Ps2Op::WaitRead,
                Ps2Op::ReadData,
                Ps2Op::WaitWrite,
                Ps2Op::WriteData(led_spec(num_lock, caps_lock, scroll_lock)),
            ],
    {
        let led = led_byte(num_lock, caps_lock, scroll_lock);
        let mut ops: Vec<Ps2Op> = Vec::new();
        ops.push(Ps2Op::WaitWrite);
        ops.push(Ps2Op::WriteData(KBD_SET_LEDS));
        ops.push(Ps2Op::WaitRead);
        ops.push(Ps2Op::ReadData);
        ops.push(Ps2Op::WaitWrite);
        ops.push(Ps2Op::WriteData(led));
        assert(ops@ =~= seq![
            Ps2Op::WaitWrite,
            Ps2Op::WriteData(KBD_SET_LEDS),
            Ps2Op::WaitRead,
            Ps2Op::ReadData,
            Ps2Op::WaitWrite,
            Ps2Op::WriteData(led_spec(num_lock, caps_lock, scroll_lock)),
        ]);
        ops
    }

    /// Decodes a set 1 scancode.
    pub fn decode_scancode(scancode: u8) -> (r: KeyEvent)
        ensures
            r == decode_spec(scancode),
    {
        let pressed = scancode & 0x80 == 0;
        let code = key_of_exec(scancode & 0x7F);
        KeyEvent { code, pressed }
    }
}

/// The set 1 make code of the Enter key.
pub const ENTER_MAKE: u8 = 0x1C;

/// Whether `scancode`, read from the data port, ends a wait for Enter:
/// only the Enter key's make code does, which decodes as Enter pressed.
pub fn is_enter_press(scancode: u8) -> (r: bool)
    ensures
        r == (scancode == ENTER_MAKE),
        r ==> decode_spec(scancode) == (KeyEvent { code: KeyCode::Enter, pressed: true }),
{
    proof {
        if scancode == ENTER_MAKE {
            assert(scancode & 0x80 == 0 && scancode & 0x7F == 0x1C) by (bit_vector)
                requires scancode == 0x1Cu8;
        }
    }
    scancode == ENTER_MAKE
}

pub fn led_byte(num_lock: bool, caps_lock: bool, scroll_lock: bool) -> (r: u8)
    ensures
        r == led_spec(num_lock, caps_lock, scroll_lock),
{
    let s: u8 = if scroll_lock { 1 } else { 0 };
    let n: u8 = if num_lock { 2 } else { 0 };
    let c: u8 = if caps_lock { 4 } else { 0 };
    (s | n) | c
}

fn init_config(config: u8) -> (r: u8)
    ensures
        r == init_config_spec(config),
{
    ((config & !0x40u8) | 0x04u8) | 0x01u8
}

fn init_op_exec(step: u8, config: u8) -> (r: Ps2Op)
    ensures
        r == init_op(step, config),
{
    match step {
        0 => Ps2Op::WaitWrite,
        1 => Ps2Op::WriteCmd(CMD_DISABLE_KBD),
        2 => Ps2Op::WaitWrite,
        3 => Ps2Op::WriteCmd(CMD_READ_CONFIG),
        4 => Ps2Op::WaitRead,
        5 => Ps2Op::ReadData,
        6 => Ps2Op::WaitWrite,
        7 => Ps2Op::WriteCmd(CMD_WRITE_CONFIG),
        8 => Ps2Op::WaitWrite,
        9 => Ps2Op::WriteData(config),
        10 => Ps2Op::WaitWrite,
        11 => Ps2Op::WriteCmd(CMD_SELF_TEST),
        12 => Ps2Op::WaitRead,
        13 => Ps2Op::ReadData,
        14 => Ps2Op::WaitWrite,
        15 => Ps2Op::WriteCmd(CMD_KBD_TEST),
        16 => Ps2Op::WaitRead,
        17 => Ps2Op::ReadData,
        18 => Ps2Op::WaitWrite,
        19 => Ps2Op::WriteCmd(CMD_ENABLE_KBD),
        20 => Ps2Op::WaitWrite,
        21 => Ps2Op::WriteData(KBD_RESET),
        22 => Ps2Op::WaitRead,
        23 => Ps2Op::ReadData,
        24 => Ps2Op::WaitRead,
        _ => Ps2Op::ReadData,
    }
}

fn key_of_exec(code: u8) -> (r: KeyCode)
    ensures
        r == key_of(code),
{
    match code {
        0x01 => KeyCode::Escape,
        0x02 => KeyCode::K1, 0x03 => KeyCode::K2,
        0x04 => KeyCode::K3, 0x05 => KeyCode::K4,
        0x06 => KeyCode::K5, 0x07 => KeyCode::K6,
        0x08 => KeyCode::K7, 0x09 => KeyCode::K8,
        0x0A => KeyCode::K9, 0x0B => KeyCode::K0,
        0x0C => KeyCode::Minus, 0x0D => KeyCode::Equals,
        0x0E => KeyCode::Backspace, 0x0F => KeyCode::Tab,
        0x10 => KeyCode::Q, 0x11 => KeyCode::W,
        0x12 => KeyCode::E, 0x13 => KeyCode::R,
        0x14 => KeyCode::T, 0x15 => KeyCode::Y,
        0x16 => KeyCode::U, 0x17 => KeyCode::I,
        0x18 => KeyCode::O, 0x19 => KeyCode::P,
        0x1A => KeyCode::LBracket, 0x1B => KeyCode::RBracket,
        0x1C => KeyCode::Enter, 0x1D => KeyCode::LeftCtrl,
        0x1E => KeyCode::A, 0x1F => KeyCode::S,
        0x20 => KeyCode::D, 0x21 => KeyCode::F,
        0x22 => KeyCode::G, 0x23 => KeyCode::H,
        0x24 => KeyCode::J, 0x25 => KeyCode::K,
        0x26 => KeyCode::L, 0x27 => KeyCode::Semicolon,
        0x28 => KeyCode::Quote, 0x29 => KeyCode::Tilde,
        0x2A => KeyCode::LeftShift, 0x2B => KeyCode::Backslash,
        0x2C => KeyCode::Z, 0x2D => KeyCode::X,
        0x2E => KeyCode::C, 0x2F => KeyCode::V,
        0x30 => KeyCode::B, 0x31 => KeyCode::N,
        0x32 => KeyCode::M, 0x33 => KeyCode::Comma,
        0x34 => KeyCode::Period, 0x35 => KeyCode::Slash,
        0x36 => KeyCode::RightShift, 0x37 => KeyCode::KeypadMultiply,
        0x38 => KeyCode::LeftAlt, 0x39 => KeyCode::Space,
        0x3A => KeyCode::CapsLock,
        0x3B => KeyCode::F1, 0x3C => KeyCode::F2,
        0x3D => KeyCode::F3, 0x3E => KeyCode::F4,
        0x3F => KeyCode::F5, 0x40 => KeyCode::F6,
        0x41 => KeyCode::F7, 0x42 => KeyCode::F8,
        0x43 => KeyCode::F9, 0x44 => KeyCode::F10,
        0x45 => KeyCode::NumLock, 0x46 => KeyCode::ScrollLock,
        0x47 => KeyCode::Keypad7, 0x48 => KeyCode::Keypad8,
        0x49 => KeyCode::Keypad9, 0x4A => KeyCode::KeypadMinus,
        0x4B => KeyCode::Keypad4, 0x4C => KeyCode::Keypad5,
        0x4D => KeyCode::Keypad6, 0x4E => KeyCode::KeypadPlus,
        0x4F => KeyCode::Keypad1, 0x50 => KeyCode::Keypad2,
        0x51 => KeyCode::Keypad3, 0x52 => KeyCode::Keypad0,
        0x53 => KeyCode::KeypadDecimal,
        0x57 => KeyCode::F11, 0x58 => KeyCode::F12,
        _ => KeyCode::Unknown(code),
    }
}

/// The break code of a key (bit 7 set) names the same key as its make
/// code, and only the make code counts as pressed.
pub proof fn lemma_make_break(code: u8)
    requires
        code < 0x80,
    ensures
        decode_spec(code | 0x80).code == decode_spec(code).code,
        decode_spec(code).pressed,
        !decode_spec(code | 0x80).pressed,
{
    assert((code | 0x80) & 0x7F == code && (code | 0x80u8) & 0x80 != 0 && code & 0x80 == 0 && code & 0x7F == code)
        by (bit_vector)
        requires
            code < 0x80,
    ;
}

/// Every scancode outside the table decodes to `Unknown` with its low seven
/// bits, so no byte is lost.
pub proof fn lemma_unknown_keeps_code(scancode: u8)
    ensures
        decode_spec(scancode).code matches KeyCode::Unknown(c) ==> c == scancode & 0x7F,
{
}

} // verus!
