use std::collections::VecDeque;

use lib::keyboard::{
    is_enter_press, led_byte, KbdError, KbdInit, KeyCode, KeyEvent, KeyboardController,
};
use lib::mouse::{decode_packet, MouseButton, MouseController, MouseError, MouseInit, MousePacket, MouseStep};
use lib::ps2::{wait_over, Ps2Op, Ps2Step};
use lib::touchpad::{Touchpad, TouchpadError, TouchpadInit, TouchpadState, TouchpadStep, TouchpadVendor};

/// A PS/2 controller with one device behind it, answering as the tests set.
struct Sim {
    q: VecDeque<u8>,
    last_cmd: u8,
    config: u8,
    written_config: Option<u8>,
    self_test: u8,
    device_id: u8,
    ack: u8,
    data_writes: Vec<u8>,
}

impl Sim {
    fn new(device_id: u8) -> Sim {
        Sim {
            q: VecDeque::new(),
            last_cmd: 0,
            config: 0x61,
            written_config: None,
            self_test: 0x55,
            device_id,
            ack: 0xFA,
            data_writes: Vec::new(),
        }
    }

    fn perform(&mut self, op: Ps2Op) -> Option<u8> {
        match op {
            Ps2Op::WriteCmd(c) => {
                self.last_cmd = c;
                match c {
                    0x20 => self.q.push_back(self.config),
                    0xAA => self.q.push_back(self.self_test),
                    0xAB => self.q.push_back(0x00),
                    _ => {}
                }
                None
            }
            Ps2Op::WriteData(d) => {
                if self.last_cmd == 0x60 {
                    self.written_config = Some(d);
                } else {
                    self.data_writes.push(d);
                    self.q.push_back(self.ack);
                    if d == 0xFF {
                        self.q.push_back(0xAA);
                        self.q.push_back(0x00);
                    } else if d == 0xE9 {
                        self.q.push_back(0x01);
                        self.q.push_back(0x02);
                        self.q.push_back(self.device_id);
                    }
                }
                self.last_cmd = 0;
                None
            }
            Ps2Op::ReadData => Some(self.q.pop_front().unwrap_or(0)),
            Ps2Op::WaitRead | Ps2Op::WaitWrite => None,
        }
    }

    fn run(&mut self, ops: &[Ps2Op], input: u8) -> u8 {
        let mut last = input;
        for op in ops {
            if let Some(b) = self.perform(*op) {
                last = b;
            }
        }
        last
    }
}

fn init_keyboard(sim: &mut Sim) -> (KeyboardController, Result<(), KbdError>) {
    let mut kbd = KeyboardController::new();
    let mut m = KbdInit::new();
    let mut input = 0u8;
    loop {
        match kbd.init(&mut m, input) {
            Ps2Step::Do(op) => {
                if let Some(b) = sim.perform(op) {
                    input = b;
                }
            }
            Ps2Step::Done(r) => return (kbd, r),
        }
    }
}

#[test]
fn keyboard_init_succeeds_and_sets_config() {
    let mut sim = Sim::new(0);
    let (kbd, r) = init_keyboard(&mut sim);
    assert_eq!(r, Ok(()));
    assert!(kbd.enabled());
    // translation off, system flag and keyboard interrupt on
    assert_eq!(sim.written_config, Some(0x25));
    assert_eq!(sim.data_writes, vec![0xFF]);
}

#[test]
fn keyboard_init_reports_each_failure() {
    let mut sim = Sim::new(0);
    sim.self_test = 0xFC;
    let (kbd, r) = init_keyboard(&mut sim);
    assert_eq!(r, Err(KbdError::SelfTestFailed));
    assert!(!kbd.enabled());

    let mut sim = Sim::new(0);
    sim.ack = 0xFE;
    let (_, r) = init_keyboard(&mut sim);
    assert_eq!(r, Err(KbdError::ControllerNotFound));
}

#[test]
fn keyboard_decodes_make_and_break_codes() {
    assert_eq!(KeyboardController::decode_scancode(0x1E), KeyEvent { code: KeyCode::A, pressed: true });
    assert_eq!(KeyboardController::decode_scancode(0x9E), KeyEvent { code: KeyCode::A, pressed: false });
    assert_eq!(KeyboardController::decode_scancode(0x01), KeyEvent { code: KeyCode::Escape, pressed: true });
    assert_eq!(KeyboardController::decode_scancode(0xD8), KeyEvent { code: KeyCode::F12, pressed: false });
    // law: an unknown key keeps its code without the release bit
    assert_eq!(
        KeyboardController::decode_scancode(0xD9),
        KeyEvent { code: KeyCode::Unknown(0x59), pressed: false }
    );
    for code in 0u8..0x80 {
        // law: a break code names the same key as its make code
        let make = KeyboardController::decode_scancode(code);
        let brk = KeyboardController::decode_scancode(code | 0x80);
        assert_eq!(make.code, brk.code);
        assert!(make.pressed);
        assert!(!brk.pressed);
    }
}

#[test]
fn keyboard_reads_only_when_a_byte_waits() {
    let kbd = KeyboardController::new();
    assert_eq!(kbd.read_event(0x00, 0x1E), None);
    assert_eq!(kbd.read_event(0x01, 0x1C), Some(KeyEvent { code: KeyCode::Enter, pressed: true }));
    assert!(is_enter_press(0x1C));
    assert!(!is_enter_press(0x9C));
    assert!(!is_enter_press(0x1D));
}

#[test]
fn keyboard_flush_drains_while_bytes_wait() {
    let kbd = KeyboardController::new();
    assert_eq!(kbd.flush(0x01), Some(Ps2Op::ReadData));
    assert_eq!(kbd.flush(0x1D), Some(Ps2Op::ReadData));
    assert_eq!(kbd.flush(0x1C), None);
}

#[test]
fn keyboard_leds() {
    assert_eq!(led_byte(true, false, false), 0x02);
    assert_eq!(led_byte(false, true, true), 0x05);
    let kbd = KeyboardController::new();
    assert_eq!(
        kbd.set_leds(true, true, true),
        vec![
            Ps2Op::WaitWrite,
            Ps2Op::WriteData(0xED),
            Ps2Op::WaitRead,
            Ps2Op::ReadData,
            Ps2Op::WaitWrite,
            Ps2Op::WriteData(0x07),
        ]
    );
}

fn init_mouse(sim: &mut Sim) -> (MouseController, Result<(), MouseError>) {
    let mut mouse = MouseController::new();
    let mut st = MouseInit::Start;
    let mut input = 0u8;
    loop {
        match mouse.init(&mut st, input) {
            MouseStep::Run(ops) => input = sim.run(&ops, input),
            MouseStep::Done(r) => return (mouse, r),
        }
    }
}

#[test]
fn mouse_init_detects_wheel() {
    let mut sim = Sim::new(0x03);
    let (mouse, r) = init_mouse(&mut sim);
    assert_eq!(r, Ok(()));
    assert!(mouse.is_enabled());
    assert!(mouse.has_wheel());
    assert_eq!(sim.written_config, Some(0x63));
    assert_eq!(
        sim.data_writes,
        vec![0xFF, 0xF3, 200, 0xF3, 100, 0xF3, 80, 0xE9, 0xF4, 0xF3, 100, 0xE8, 4]
    );

    let mut sim = Sim::new(0x00);
    let (mouse, r) = init_mouse(&mut sim);
    assert_eq!(r, Ok(()));
    assert!(!mouse.has_wheel());
}

#[test]
fn mouse_init_fails_without_ack() {
    let mut sim = Sim::new(0x00);
    sim.ack = 0xFE;
    let (mouse, r) = init_mouse(&mut sim);
    assert_eq!(r, Err(MouseError::ControllerNotFound));
    assert!(!mouse.is_enabled());
}

#[test]
fn mouse_packet_decoding() {
    let p = decode_packet(0x19, 0xFF, 0x05, 0, false);
    assert_eq!(p, MousePacket { buttons: 0x01, x: -1, y: -5, z: 0 });
    let p = decode_packet(0x2A, 0x10, 0xFB, 0xFF, true);
    assert_eq!(p, MousePacket { buttons: 0x02, x: 16, y: 5, z: 1 });
    assert_eq!(decode_packet(0x08, 0, 0, 0x80, true).z, -128);
    assert_eq!(decode_packet(0x08, 0, 0, 0x05, false).z, 0);
    assert!(p.is_button_pressed(MouseButton::Right));
    assert!(!p.is_button_pressed(MouseButton::Left));
    assert!(!p.is_button_pressed(MouseButton::Middle));
}

#[test]
fn mouse_packet_assembly_resyncs() {
    let mut mouse = MouseController::new();
    assert_eq!(mouse.read_packet(0x00, 0x09), None);
    // a first byte without bit 3 is dropped
    assert_eq!(mouse.read_packet(0x01, 0x00), None);
    assert_eq!(mouse.read_packet(0x01, 0x09), None);
    assert_eq!(mouse.read_packet(0x01, 0x10), None);
    assert_eq!(
        mouse.read_packet(0x01, 0x20),
        Some(MousePacket { buttons: 0x01, x: 16, y: -32, z: 0 })
    );
    assert_eq!(mouse.read_packet(0x01, 0x0C), None);
}

fn run_touchpad(tp: &mut Touchpad, sim: &mut Sim, start: TouchpadInit, probe: bool) -> Result<(), TouchpadError> {
    let mut st = start;
    let mut input = 0u8;
    loop {
        let step = if probe { tp.probe_synaptics(&mut st, input) } else { tp.init(&mut st, input) };
        match step {
            TouchpadStep::Run(ops) => input = sim.run(&ops, input),
            TouchpadStep::Done(r) => return r,
        }
    }
}

#[test]
fn touchpad_init_switches_synaptics_to_absolute() {
    let mut tp = Touchpad::new();
    assert_eq!(tp.packet_len(), 3);
    let mut sim = Sim::new(0x47);
    assert_eq!(run_touchpad(&mut tp, &mut sim, TouchpadInit::Reset, false), Ok(()));
    assert_eq!(tp.vendor(), TouchpadVendor::Synaptics);
    assert!(tp.is_absolute());
    assert_eq!(tp.packet_len(), 6);
    assert_eq!(
        sim.data_writes,
        vec![
            0xFF, 0xF3, 200, 0xF3, 100, 0xF3, 80, 0xE9, 0xF3, 200, 0xF3, 100, 0xF3, 80, 0xE8, 0x01,
            0xE8, 0x02, 0xE8, 0x04, 0xE8, 0x08, 0xE8, 0x01, 0xE8, 0x01
        ]
    );
    let s = tp.read_state(0x01, &[0x29, 0x12, 0x34, 0x40, 0x05, 0x67]).unwrap();
    assert_eq!(
        s,
        TouchpadState { x: 0x1234, y: 0x0567, z: 0x40, finger: true, left_button: true, right_button: false, middle_button: false }
    );
}

#[test]
fn touchpad_errors() {
    let mut tp = Touchpad::new();
    let mut sim = Sim::new(0x00);
    assert_eq!(run_touchpad(&mut tp, &mut sim, TouchpadInit::Reset, false), Err(TouchpadError::InitFailed));
    assert_eq!(tp.vendor(), TouchpadVendor::Unknown);
    let mut sim = Sim::new(0x00);
    assert_eq!(run_touchpad(&mut tp, &mut sim, TouchpadInit::ProbeStart, true), Err(TouchpadError::NotFound));
    let mut sim = Sim::new(0x47);
    sim.ack = 0xFE;
    assert_eq!(run_touchpad(&mut tp, &mut sim, TouchpadInit::Reset, false), Err(TouchpadError::NotFound));
}

#[test]
fn touchpad_relative_reports() {
    let tp = Touchpad::new();
    assert!(Touchpad::packet_start(0x08));
    assert!(!Touchpad::packet_start(0x07));
    assert_eq!(tp.read_state(0x00, &[0x09, 0, 0]), None);
    assert_eq!(tp.read_state(0x01, &[0x01, 0, 0]), None);
    let s = tp.read_state(0x01, &[0x0D, 0x05, 0x03]).unwrap();
    assert_eq!(
        s,
        TouchpadState { x: 5, y: 0xFFFD, z: 0, finger: true, left_button: true, right_button: false, middle_button: true }
    );
}

#[test]
fn ps2_wait_polls() {
    assert!(!wait_over(Ps2Op::WaitWrite, 0, 0x02));
    assert!(wait_over(Ps2Op::WaitWrite, 0, 0x00));
    assert!(wait_over(Ps2Op::WaitWrite, 9_999, 0x02));
    assert!(!wait_over(Ps2Op::WaitRead, 5, 0x00));
    assert!(wait_over(Ps2Op::WaitRead, 5, 0x01));
}

#[test]
fn mouse_packet_extremes() {
    let p = decode_packet(0x3F, 0x00, 0x00, 0x05, false);
    assert_eq!(p, MousePacket { buttons: 7, x: -256, y: 256, z: 0 });
    let q = decode_packet(0x08, 0xFF, 0xFF, 0x01, true);
    assert_eq!(q, MousePacket { buttons: 0, x: 255, y: -255, z: -1 });
}
