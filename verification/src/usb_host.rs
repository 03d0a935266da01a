use vstd::prelude::*;
use crate::mmio::{MmioOp, POLLS_SHORT, POLLS_LONG};

verus! {

pub type HostResult<T> = Result<T, HostError>;

#[derive(Debug, Clone, Copy, PartialEq, Eq, Structural)]
pub enum HostError {
    NotFound,
    InitFailed,
    TransferFailed,
    Stall,
    Babble,
    NoBandwidth,
    Timeout,
    PortDisabled,
    NotImplemented,
}

#[derive(Debug, Clone, Copy, PartialEq, Eq, Structural)]
pub enum HostControllerType {
    Uhci,
    Ohci,
    Ehci,
    Xhci,
}

#[derive(Debug, Clone, Copy, PartialEq, Eq, Structural)]
pub enum UsbSpeed {
    Low,
    Full,
    High,
    Super,
}

#[derive(Debug, Clone, Copy, PartialEq, Eq, Structural)]
pub struct UsbDevice {
    pub address: u8,
    pub port: u8,
    pub speed: UsbSpeed,
    pub vendor_id: u16,
    pub product_id: u16,
    pub class: u8,
    pub subclass: u8,
}

#[derive(Debug, Clone, Copy, PartialEq, Eq, Structural)]
pub struct UsbSetupPacket {
    pub bm_request_type: u8,
    pub b_request: u8,
    pub w_value: u16,
    pub w_index: u16,
    pub w_length: u16,
}

impl UsbSetupPacket {
    /// GET_DESCRIPTOR of type `desc_type`, index `index`, language `lang_id`.
    pub fn get_descriptor(desc_type: u8, index: u8, lang_id: u16) -> (r: Self)
        ensures
            r == (UsbSetupPacket {
                bm_request_type: 0x80,
                b_request: 0x06,
                w_value: ((desc_type as u16) << 8u16) | (index as u16),
                w_index: lang_id,
                w_length: 0xFF,
            }),
    {
        Self {
            bm_request_type: 0x80,
            b_request: 0x06,
            w_value: ((desc_type as u16) << 8u16) | (index as u16),
            w_index: lang_id,
            w_length: 0xFF,
        }
    }

    pub fn set_address(addr: u8) -> (r: Self)
        ensures
            r == (UsbSetupPacket { bm_request_type: 0x00, b_request: 0x05, w_value: addr as u16, w_index: 0, w_length: 0 }),
    {
        Self { bm_request_type: 0x00, b_request: 0x05, w_value: addr as u16, w_index: 0, w_length: 0 }
    }

    pub fn set_configuration(config: u8) -> (r: Self)
        ensures
            r == (UsbSetupPacket { bm_request_type: 0x00, b_request: 0x09, w_value: config as u16, w_index: 0, w_length: 0 }),
    {
        Self { bm_request_type: 0x00, b_request: 0x09, w_value: config as u16, w_index: 0, w_length: 0 }
    }
}

#[derive(Debug, Clone, Copy)]
pub struct TransferDescriptor {
    pub addr: u64,
    pub len: u32,
    pub ioc: u8,
    pub toggle: u8,
    pub status: u32,
}

/// Device slots of the controller.
pub const MAX_DEVICES: usize = 128;

/// Speed that a port status word reports, by controller type.
pub open spec fn speed_of(hc: HostControllerType, sts: u32) -> UsbSpeed {
    match hc {
        HostControllerType::Ehci => {
            let c = (sts >> 26u32) & 0x03;
            if c == 1 { UsbSpeed::Low } else if c == 2 { UsbSpeed::High } else { UsbSpeed::Full }
        },
        HostControllerType::Xhci => {
            let c = (sts >> 10u32) & 0x0F;
            if c == 1 { UsbSpeed::Low } else if c == 2 { UsbSpeed::Full } else if c == 3 { UsbSpeed::High }
            else if c == 4 { UsbSpeed::Super } else { UsbSpeed::Full }
        },
        _ => UsbSpeed::Full,
    }
}

/// Rank of a speed, slowest first.
pub open spec fn speed_rank(s: UsbSpeed) -> int {
    match s {
        UsbSpeed::Low => 0,
        UsbSpeed::Full => 1,
        UsbSpeed::High => 2,
        UsbSpeed::Super => 3,
    }
}

/// The xHCI port speed field (bits 10 to 13) names the speeds in
/// increasing order: 1 is low, 2 full, 3 high and 4 super speed, so the
/// four values give four distinct speeds; any other value reads as full
/// speed. No other bit of the status word matters.
pub proof fn lemma_xhci_speed_field(sts: u32)
    ensures
        1 <= (sts >> 10u32) & 0x0F <= 4 ==> speed_rank(speed_of(HostControllerType::Xhci, sts))
            == ((sts >> 10u32) & 0x0F) - 1,
        !(1 <= (sts >> 10u32) & 0x0F <= 4) ==> speed_of(HostControllerType::Xhci, sts) == UsbSpeed::Full,
        speed_of(HostControllerType::Xhci, sts) == speed_of(HostControllerType::Xhci, ((sts >> 10u32) & 0x0F) << 10u32),
{
    let c = (sts >> 10u32) & 0x0F;
    assert((((c << 10u32) >> 10u32) & 0x0F) == c) by (bit_vector)
        requires c == (sts >> 10u32) & 0x0F;
}

/// The EHCI line-status field (bits 26 and 27) is 1 for a low-speed
/// device and 2 for a high-speed one; 0 and 3 read as full speed.
pub proof fn lemma_ehci_speed_field(sts: u32)
    ensures
        (sts >> 26u32) & 0x03 == 1 ==> speed_of(HostControllerType::Ehci, sts) == UsbSpeed::Low,
        (sts >> 26u32) & 0x03 == 2 ==> speed_of(HostControllerType::Ehci, sts) == UsbSpeed::High,
        (sts >> 26u32) & 0x03 != 1 && (sts >> 26u32) & 0x03 != 2 ==> speed_of(HostControllerType::Ehci, sts) == UsbSpeed::Full,
{
}

/// Where the controller bring-up stands.
#[derive(Debug, Clone, Copy, PartialEq, Eq, Structural)]
pub enum HostInit {
    Start,
    Version,
    EhciPoll { n: u32 },
    EhciParams,
    XhciCmd,
    XhciPoll { n: u32 },
    XhciParams,
    Finished,
}

#[derive(Debug)]
pub enum HostStep {
    /// Perform these accesses; the value of the last read is the next input.
    Run(Vec<MmioOp>),
    Done(HostResult<()>),
}

pub struct UsbHostController {
    hc_type: HostControllerType,
    ports: u8,
    devices: Vec<Option<UsbDevice>>,
    next_addr: u8,
    initialized: bool,
}

/// `r` asks for exactly the accesses `ops`.
pub open spec fn runs(r: HostStep, ops: Seq<MmioOp>) -> bool {
    match r {
        HostStep::Run(v) => v@ == ops,
        _ => false,
    }
}

impl UsbHostController {
    pub closed spec fn wf(&self) -> bool {
        self.devices.len() == MAX_DEVICES
    }

    pub closed spec fn spec_type(&self) -> HostControllerType {
        self.hc_type
    }

    pub closed spec fn spec_ports(&self) -> u8 {
        self.ports
    }

    pub closed spec fn spec_devices(&self) -> Seq<Option<UsbDevice>> {
        self.devices@
    }

    pub closed spec fn spec_next_addr(&self) -> u8 {
        self.next_addr
    }

    pub closed spec fn spec_initialized(&self) -> bool {
        self.initialized
    }

    pub fn new(hc_type: HostControllerType) -> (r: Self)
        ensures
            r.wf(),
            r.spec_type() == hc_type,
            r.spec_ports() == 0,
            r.spec_next_addr() == 1,
            r.spec_devices() == Seq::new(128, |i: int| None::<UsbDevice>),
            !r.spec_initialized(),
    {
        let mut devices: Vec<Option<UsbDevice>> = Vec::new();
        let mut i: usize = 0;
        while i < MAX_DEVICES
            invariant
                i <= MAX_DEVICES,
                devices@ == Seq::new(i as nat, |k: int| None::<UsbDevice>),
            decreases MAX_DEVICES - i,
        {
            devices.push(None);
            i = i + 1;
            assert(devices@ =~= Seq::new(i as nat, |k: int| None::<UsbDevice>));
        }
        Self { hc_type, ports: 0, devices, next_addr: 1, initialized: false }
    }

    /// One step of the bring-up; `v` is the value of the last read. It
    /// checks the version register (`NotFound` when it reads all ones or
    /// zero), then: EHCI is reset, its interrupts cleared and its ports
    /// routed, and the port count read from HCCPARAMS bits 24..27; xHCI is
    /// started and the port count read from HCSPARAMS1 bits 0..7; UHCI and
    /// OHCI get two ports.
    pub fn init(&mut self, st: &mut HostInit, v: u32) -> (r: HostStep)
        requires
            old(self).wf(),
        ensures
            final(self).wf(),
            final(self).spec_type() == old(self).spec_type(),
            final(self).spec_devices() == old(self).spec_devices(),
            final(self).spec_next_addr() == old(self).spec_next_addr(),
            match *old(st) {
                HostInit::Start => *final(st) == HostInit::Version && runs(r, seq![MmioOp::Read16(0x00)])
                    && final(self).spec_ports() == old(self).spec_ports() && final(self).spec_initialized() == old(self).spec_initialized(),
                HostInit::Version => if (v as u16) == 0xFFFF || (v as u16) == 0 {
                    r == HostStep::Done(Err(HostError::NotFound)) && *final(st) == HostInit::Finished
                        && final(self).spec_ports() == old(self).spec_ports() && final(self).spec_initialized() == old(self).spec_initialized()
                } else {
                    match old(self).spec_type() {
                        HostControllerType::Ehci => *final(st) == (HostInit::EhciPoll { n: 0 })
                            && runs(r, seq![MmioOp::Write32(0x20, 0x01), MmioOp::Read32(0x20)])
                            && final(self).spec_ports() == old(self).spec_ports() && final(self).spec_initialized() == old(self).spec_initialized(),
                        HostControllerType::Xhci => *final(st) == HostInit::XhciCmd && runs(r, seq![MmioOp::Read32(0x04)])
                            && final(self).spec_ports() == old(self).spec_ports() && final(self).spec_initialized() == old(self).spec_initialized(),
                        _ => *final(st) == HostInit::Finished && r == HostStep::Done(Ok(()))
                            && final(self).spec_ports() == 2 && final(self).spec_initialized(),
                    }
                },
                HostInit::EhciPoll { n } => final(self).spec_ports() == old(self).spec_ports()
                    && final(self).spec_initialized() == old(self).spec_initialized()
                    && if v & 0x01 == 0 || n >= POLLS_SHORT - 1 {
                        *final(st) == HostInit::EhciParams && runs(r, seq![
                            MmioOp::Write32(0x24, 0x00), MmioOp::Write32(0x28, 0x00), MmioOp::Write32(0x34, 0x01), MmioOp::Read32(0x08),
                        ])
                    } else {
                        *final(st) == (HostInit::EhciPoll { n: (n + 1) as u32 }) && runs(r, seq![MmioOp::Read32(0x20)])
                    },
                HostInit::EhciParams => *final(st) == HostInit::Finished && r == HostStep::Done(Ok(()))
                    && final(self).spec_ports() == ((v >> 24u32) & 0x0F) as u8 && final(self).spec_initialized(),
                HostInit::XhciCmd => *final(st) == (HostInit::XhciPoll { n: 0 })
                    && runs(r, seq![MmioOp::Write32(0x04, v | 0x01), MmioOp::Read32(0x04)])
                    && final(self).spec_ports() == old(self).spec_ports() && final(self).spec_initialized() == old(self).spec_initialized(),
                HostInit::XhciPoll { n } => final(self).spec_ports() == old(self).spec_ports()
                    && final(self).spec_initialized() == old(self).spec_initialized()
                    && runs(r, seq![MmioOp::Read32(0x04)])
                    && *final(st) == if v & 0x01 != 0 || n >= POLLS_LONG - 1 {
                        HostInit::XhciParams
                    } else {
                        HostInit::XhciPoll { n: (n + 1) as u32 }
                    },
                HostInit::XhciParams => *final(st) == HostInit::Finished && r == HostStep::Done(Ok(()))
                    && final(self).spec_ports() == (v & 0xFF) as u8 && final(self).spec_initialized(),
                HostInit::Finished => *final(st) == HostInit::Finished && r == HostStep::Done(Ok(()))
                    && final(self).spec_ports() == old(self).spec_ports() && final(self).spec_initialized() == old(self).spec_initialized(),
            },
    {
        let mut ops: Vec<MmioOp> = Vec::new();
        match *st {
            HostInit::Start => {
                ops.push(MmioOp::Read16(0x00));
                *st = HostInit::Version;
            },
            HostInit::Version => {
                let ver = #[verifier::truncate] (v as u16);
                if ver == 0xFFFF || ver == 0 {
                    *st = HostInit::Finished;
                    return HostStep::Done(Err(HostError::NotFound));
                }
                match self.hc_type {
                    HostControllerType::Ehci => {
                        ops.push(MmioOp::Write32(0x20, 0x01));
                        ops.push(MmioOp::Read32(0x20));
                        *st = HostInit::EhciPoll { n: 0 };
                    },
                    HostControllerType::Xhci => {
                        ops.push(MmioOp::Read32(0x04));
                        *st = HostInit::XhciCmd;
                    },
                    _ => {
                        self.ports = 2;
                        self.initialized = true;
                        *st = HostInit::Finished;
                        return HostStep::Done(Ok(()));
                    },
                }
            },
            HostInit::EhciPoll { n } => {
                if v & 0x01 == 0 || n >= POLLS_SHORT - 1 {
                    ops.push(MmioOp::Write32(0x24, 0x00));
                    ops.push(MmioOp::Write32(0x28, 0x00));
                    ops.push(MmioOp::Write32(0x34, 0x01));
                    ops.push(MmioOp::Read32(0x08));
                    *st = HostInit::EhciParams;
                } else {
                    ops.push(MmioOp::Read32(0x20));
                    *st = HostInit::EhciPoll { n: n + 1 };
                }
            },
            HostInit::EhciParams => {
                self.ports = #[verifier::truncate] (((v >> 24u32) & 0x0F) as u8);
                self.initialized = true;
                *st = HostInit::Finished;
                return HostStep::Done(Ok(()));
            },
            HostInit::XhciCmd => {
                ops.push(MmioOp::Write32(0x04, v | 0x01));
                ops.push(MmioOp::Read32(0x04));
                *st = HostInit::XhciPoll { n: 0 };
            },
            HostInit::XhciPoll { n } => {
                ops.push(MmioOp::Read32(0x04));
                if v & 0x01 != 0 || n >= POLLS_LONG - 1 {
                    *st = HostInit::XhciParams;
                } else {
                    *st = HostInit::XhciPoll { n: n + 1 };
                }
            },
            HostInit::XhciParams => {
                self.ports = #[verifier::truncate] ((v & 0xFF) as u8);
                self.initialized = true;
                *st = HostInit::Finished;
                return HostStep::Done(Ok(()));
            },
            HostInit::Finished => {
                return HostStep::Done(Ok(()));
            },
        }
        proof {
            assert(ops@ =~= match *old(st) {
                HostInit::Start => seq![MmioOp::Read16(0x00)],
                HostInit::Version => if old(self).spec_type() == HostControllerType::Ehci {
                    seq![MmioOp::Write32(0x20, 0x01), MmioOp::Read32(0x20)]
                } else {
                    seq![MmioOp::Read32(0x04)]
                },
                HostInit::EhciPoll { n } => if v & 0x01 == 0 || n >= POLLS_SHORT - 1 {
                    seq![MmioOp::Write32(0x24, 0x00), MmioOp::Write32(0x28, 0x00), MmioOp::Write32(0x34, 0x01), MmioOp::Read32(0x08)]
                } else {
                    seq![MmioOp::Read32(0x20)]
                },
                HostInit::XhciCmd => seq![MmioOp::Write32(0x04, v | 0x01), MmioOp::Read32(0x04)],
                _ => seq![MmioOp::Read32(0x04)],
            });
        }
        HostStep::Run(ops)
    }

    /// The address the next enumerated device gets.
    pub fn next_address(&self) -> (r: u8)
        ensures
            r == self.spec_next_addr(),
    {
        self.next_addr
    }

    pub fn port_count(&self) -> (r: u8)
        ensures
            r == self.spec_ports(),
    {
        self.ports
    }

    /// Register holding the status of `port`; none for UHCI and OHCI, whose
    /// port status reads as zero.
    pub fn port_status_reg(&self, port: u8) -> (r: Option<usize>)
        ensures
            r == match self.spec_type() {
                HostControllerType::Ehci => Some((0x44 + port * 4) as usize),
                HostControllerType::Xhci => Some((0x400 + port * 0x10) as usize),
                _ => None,
            },
    {
        match self.hc_type {
            HostControllerType::Ehci => Some(0x44 + (port as usize) * 4),
            HostControllerType::Xhci => Some(0x400 + (port as usize) * 0x10),
            _ => None,
        }
    }

    /// Speed of a port whose status word is `sts`.
    pub fn port_speed(&self, sts: u32) -> (r: UsbSpeed)
        ensures
            r == speed_of(self.spec_type(), sts),
    {
        match self.hc_type {
            HostControllerType::Ehci => {
                let c = (sts >> 26u32) & 0x03;
                if c == 0 { UsbSpeed::Full } else if c == 1 { UsbSpeed::Low } else if c == 2 { UsbSpeed::High } else { UsbSpeed::Full }
            },
            HostControllerType::Xhci => {
                let c = (sts >> 10u32) & 0x0F;
                if c == 1 { UsbSpeed::Low } else if c == 2 { UsbSpeed::Full } else if c == 3 { UsbSpeed::High }
                else if c == 4 { UsbSpeed::Super } else { UsbSpeed::Full }
            },
            _ => UsbSpeed::Full,
        }
    }

    /// The write that starts a reset of `port`, whose status reads `sts`:
    /// the reset bit for EHCI (bit 8), for xHCI (bit 4); `NotImplemented`
    /// for the other types.
    pub fn reset_port(&self, port: u8, sts: u32) -> (r: HostResult<MmioOp>)
        ensures
            r == match self.spec_type() {
                HostControllerType::Ehci => Ok::<MmioOp, HostError>(MmioOp::Write32((0x44 + port * 4) as usize, sts | 0x0100)),
                HostControllerType::Xhci => Ok(MmioOp::Write32((0x400 + port * 0x10) as usize, sts | 0x10)),
                _ => Err(HostError::NotImplemented),
            },
    {
        match self.hc_type {
            HostControllerType::Ehci => Ok(MmioOp::Write32(0x44 + (port as usize) * 4, sts | 0x0100)),
            HostControllerType::Xhci => Ok(MmioOp::Write32(0x400 + (port as usize) * 0x10, sts | 0x10)),
            _ => Err(HostError::NotImplemented),
        }
    }

    /// The reset is over: EHCI clears the reset bit, xHCI sets the
    /// connect-status bit.
    pub fn reset_done(&self, sts: u32) -> (r: bool)
        ensures
            r == match self.spec_type() {
                HostControllerType::Ehci => sts & 0x0100 == 0,
                HostControllerType::Xhci => sts & 0x01 != 0,
                _ => true,
            },
    {
        match self.hc_type {
            HostControllerType::Ehci => sts & 0x0100 == 0,
            HostControllerType::Xhci => sts & 0x01 != 0,
            _ => true,
        }
    }

    /// One poll of a port reset: `sts` is the port's status register, read
    /// after `polls_done` earlier polls found the reset going on. A finished
    /// reset ends the wait as `reset_outcome(true)` does; otherwise it goes
    /// on (`None`) until `POLLS_LONG` polls have found it going on, which
    /// ends it as `reset_outcome(false)` does.
    pub fn reset_poll(&self, polls_done: u32, sts: u32) -> (r: Option<HostResult<()>>)
        requires
            polls_done < POLLS_LONG,
        ensures
            ({
                let done = match self.spec_type() {
                    HostControllerType::Ehci => sts & 0x0100 == 0,
                    HostControllerType::Xhci => sts & 0x01 != 0,
                    _ => true,
                };
                let outcome = |d: bool| match self.spec_type() {
                    HostControllerType::Ehci => Ok::<(), HostError>(()),
                    HostControllerType::Xhci => if d { Ok(()) } else { Err(HostError::Timeout) },
                    _ => Err(HostError::NotImplemented),
                };
                r == if done {
                    Some(outcome(true))
                } else if polls_done + 1 >= POLLS_LONG {
                    Some(outcome(false))
                } else {
                    None
                }
            }),
    {
        if self.reset_done(sts) {
            Some(self.reset_outcome(true))
        } else if polls_done + 1 >= POLLS_LONG {
            Some(self.reset_outcome(false))
        } else {
            None
        }
    }

    /// Outcome of a reset after polling: an xHCI port that never came up
    /// times out; EHCI succeeds in any case.
    pub fn reset_outcome(&self, done: bool) -> (r: HostResult<()>)
        ensures
            r == match self.spec_type() {
                HostControllerType::Ehci => Ok::<(), HostError>(()),
                HostControllerType::Xhci => if done { Ok(()) } else { Err(HostError::Timeout) },
                _ => Err(HostError::NotImplemented),
            },
    {
        match self.hc_type {
            HostControllerType::Ehci => Ok(()),
            HostControllerType::Xhci => if done { Ok(()) } else { Err(HostError::Timeout) },
            _ => Err(HostError::NotImplemented),
        }
    }

    /// Control transfers are not implemented.
    pub fn control_transfer(&self, dev_addr: u8, setup: &UsbSetupPacket, data: &mut [u8]) -> (r: HostResult<u16>)
        ensures
            r == Err::<u16, HostError>(HostError::TransferFailed),
            final(data)@ == old(data)@,
    {
        Err(HostError::TransferFailed)
    }

    /// Gives the device on `port` (whose status word is `port_status`) the
    /// next address and reads its device descriptor. As control transfers
    /// are not implemented, the address is used up and the call fails.
    pub fn enumerate_device(&mut self, port: u8, port_status: u32) -> (r: HostResult<u8>)
        requires
            old(self).wf(),
            old(self).spec_next_addr() < 255,
        ensures
            final(self).wf(),
            final(self).spec_next_addr() == old(self).spec_next_addr() + 1,
            r == Err::<u8, HostError>(HostError::TransferFailed),
            final(self).spec_devices() == old(self).spec_devices(),
            final(self).spec_ports() == old(self).spec_ports(),
            final(self).spec_type() == old(self).spec_type(),
            final(self).spec_initialized() == old(self).spec_initialized(),
    {
        let addr = self.next_addr;
        self.next_addr = self.next_addr + 1;
        let setup = UsbSetupPacket::set_address(addr);
        let mut empty: [u8; 0] = [];
        match self.control_transfer(0, &setup, &mut empty) {
            Err(e) => return Err(e),
            Ok(_) => {},
        }
        let mut buf = [0u8; 18];
        let desc_req = UsbSetupPacket::get_descriptor(1, 0, 0);
        let len = match self.control_transfer(addr, &desc_req, &mut buf) {
            Err(e) => return Err(e),
            Ok(l) => l,
        };
        if len < 18 {
            return Err(HostError::TransferFailed);
        }
        let device = UsbDevice {
            address: addr,
            port,
            speed: self.port_speed(port_status),
            vendor_id: (buf[8] as u16) | ((buf[9] as u16) << 8u16),
            product_id: (buf[10] as u16) | ((buf[11] as u16) << 8u16),
            class: buf[4],
            subclass: buf[5],
        };
        let idx = addr as usize;
        if idx < self.devices.len() {
            self.devices.set(idx, Some(device));
        }
        Ok(addr)
    }

    pub fn device(&self, addr: u8) -> (r: Option<UsbDevice>)
        requires
            self.wf(),
        ensures
            addr < MAX_DEVICES ==> r == self.spec_devices()[addr as int],
            addr >= MAX_DEVICES ==> r is None,
    {
        if (addr as usize) < self.devices.len() {
            self.devices[addr as usize]
        } else {
            None
        }
    }
}

} // verus!
