use vstd::prelude::*;
use crate::mmio::{MmioOp, POLLS_LONG, POLLS_SHORT};

verus! {

pub type HubResult<T> = Result<T, HubError>;

#[derive(Debug, Clone, Copy, PartialEq, Eq, Structural)]
pub enum HubError {
    NotFound,
    InitFailed,
    PortError,
    PowerFault,
    OverCurrent,
    DeviceEnumFailed,
}

#[derive(Debug, Clone, Copy, PartialEq, Eq, Structural)]
pub enum PortStatus {
    Disconnected,
    Connected,
    Enabled,
    Suspended,
    Resetting,
    PowerFault,
}

#[derive(Debug, Clone, Copy, PartialEq, Eq, Structural)]
pub enum PortSpeed {
    NoSpeed,
    Low,
    Full,
    High,
    Super,
}

#[derive(Debug, Clone, Copy, PartialEq, Eq, Structural)]
pub struct PortState {
    pub port: u8,
    pub status: PortStatus,
    pub speed: PortSpeed,
    pub power_on: bool,
    pub overcurrent: bool,
}

#[derive(Debug, Clone, Copy, PartialEq, Eq, Structural)]
pub struct HubDescriptor {
    pub b_desc_length: u8,
    pub b_desc_type: u8,
    pub b_nbr_ports: u8,
    pub w_hub_characteristics: u16,
    pub b_pwr_on_2_pwr_good: u8,
    pub b_hub_contr_current: u8,
}

pub const MAX_HUB_PORTS: u8 = 16;

/// Status register of `port`.
pub open spec fn port_reg_spec(port: u8) -> usize {
    (0x100 + port * 0x10) as usize
}

/// Speed that a port status word reports (bits 2..3).
pub open spec fn speed_spec(sts: u32) -> PortSpeed {
    let c = (sts >> 2u32) & 0x03;
    if c == 0 { PortSpeed::Full } else if c == 1 { PortSpeed::Low } else if c == 2 { PortSpeed::High } else { PortSpeed::Super }
}

/// The speed field of a port status word (bits 2 and 3) reads 0 for full,
/// 1 for low, 2 for high and 3 for super speed, so its four values give
/// four distinct speeds; no other bit matters.
pub proof fn lemma_port_speed_field(sts: u32)
    ensures
        speed_spec(sts) == seq![PortSpeed::Full, PortSpeed::Low, PortSpeed::High, PortSpeed::Super][((sts >> 2u32) & 0x03) as int],
        speed_spec(sts) == speed_spec(((sts >> 2u32) & 0x03) << 2u32),
{
    let c = (sts >> 2u32) & 0x03;
    assert(c < 4 && (((c << 2u32) >> 2u32) & 0x03) == c) by (bit_vector)
        requires c == (sts >> 2u32) & 0x03;
}

pub open spec fn idle_port(port: u8) -> PortState {
    PortState { port, status: PortStatus::Disconnected, speed: PortSpeed::NoSpeed, power_on: false, overcurrent: false }
}

pub open spec fn powered_port(port: u8) -> PortState {
    PortState { port, status: PortStatus::Disconnected, speed: PortSpeed::NoSpeed, power_on: true, overcurrent: false }
}

/// The reads of the hub descriptor registers.
pub open spec fn descriptor_reads() -> Seq<MmioOp> {
    seq![
        MmioOp::Read8(0x10), MmioOp::Read8(0x11), MmioOp::Read8(0x12),
        MmioOp::Read16(0x13), MmioOp::Read8(0x15), MmioOp::Read8(0x16),
    ]
}

/// Where the hub bring-up stands.
#[derive(Debug, Clone, Copy, PartialEq, Eq, Structural)]
pub enum HubInit {
    Start,
    Version,
    Poll { n: u32 },
    Descriptor,
    Power { port: u8 },
    Finished,
}

/// Where a change scan stands.
#[derive(Debug, Clone, Copy, PartialEq, Eq, Structural)]
pub enum HubScan {
    Start,
    Change { port: u8 },
    Status { port: u8 },
    Speed { port: u8, connected: bool },
    Finished,
}

#[derive(Debug)]
pub enum HubStep<T> {
    /// Perform these accesses; the values of their reads, in order, are the
    /// next input.
    Run(Vec<MmioOp>),
    Done(T),
}

pub struct UsbHub {
    ports: u8,
    port_states: Vec<PortState>,
    power_good_delay: u8,
    initialized: bool,
}

impl UsbHub {
    pub closed spec fn wf(&self) -> bool {
        &&& self.port_states.len() == MAX_HUB_PORTS
        &&& self.ports <= MAX_HUB_PORTS
    }

    pub closed spec fn spec_ports(&self) -> u8 {
        self.ports
    }

    pub closed spec fn spec_states(&self) -> Seq<PortState> {
        self.port_states@
    }

    pub closed spec fn spec_power_good_delay(&self) -> u8 {
        self.power_good_delay
    }

    pub closed spec fn spec_initialized(&self) -> bool {
        self.initialized
    }

    pub fn new() -> (r: Self)
        ensures
            r.wf(),
            r.spec_ports() == 0,
            r.spec_states() == Seq::new(16, |i: int| idle_port(0)),
            r.spec_power_good_delay() == 100,
            !r.spec_initialized(),
    {
        let mut port_states: Vec<PortState> = Vec::new();
        let mut i: usize = 0;
        while i < 16
            invariant
                i <= 16,
                port_states@ == Seq::new(i as nat, |k: int| idle_port(0)),
            decreases 16 - i,
        {
            port_states.push(PortState {
                port: 0,
                status: PortStatus::Disconnected,
                speed: PortSpeed::NoSpeed,
                power_on: false,
                overcurrent: false,
            });
            i = i + 1;
            assert(port_states@ =~= Seq::new(i as nat, |k: int| idle_port(0)));
        }
        Self { ports: 0, port_states, power_good_delay: 100, initialized: false }
    }

    /// One step of the bring-up; `reads` are the values the previous `Run`
    /// read. It checks the version register (`NotFound` when it reads all
    /// ones or zero), enables the hub and waits for it, reads the hub
    /// descriptor (at most 16 ports are used), and powers every port,
    /// marking it powered and disconnected.
    pub fn init(&mut self, st: &mut HubInit, reads: &[u32]) -> (r: HubStep<HubResult<()>>)
        requires
            old(self).wf(),
            *old(st) == HubInit::Version || *old(st) is Poll || *old(st) is Power ==> reads@.len() >= 1,
            *old(st) == HubInit::Descriptor ==> reads@.len() >= 6,
            *old(st) matches HubInit::Power { port } ==> port < old(self).spec_ports(),
        ensures
            final(self).wf(),
            *final(st) matches HubInit::Power { port } ==> port < final(self).spec_ports(),
            match *old(st) {
                HubInit::Start => *final(st) == HubInit::Version
                    && (r matches HubStep::Run(o) && o@ == seq![MmioOp::Read16(0x00)]),
                HubInit::Version => if (reads@[0] as u16) == 0xFFFF || (reads@[0] as u16) == 0 {
                    *final(st) == HubInit::Finished && (r matches HubStep::Done(Err(e)) && e == HubError::NotFound)
                } else {
                    *final(st) == (HubInit::Poll { n: 0 })
                        && (r matches HubStep::Run(o) && o@ == seq![MmioOp::Write32(0x04, 0x01), MmioOp::Read32(0x04)])
                },
                HubInit::Poll { n } => if reads@.last() & 0x01 != 0 || n >= POLLS_SHORT - 1 {
                    *final(st) == HubInit::Descriptor && (r matches HubStep::Run(o) && o@ == descriptor_reads())
                } else {
                    *final(st) == (HubInit::Poll { n: (n + 1) as u32 })
                        && (r matches HubStep::Run(o) && o@ == seq![MmioOp::Read32(0x04)])
                },
                HubInit::Descriptor => {
                    let nbr = reads@[2] as u8;
                    &&& final(self).spec_ports() == if nbr < MAX_HUB_PORTS { nbr } else { MAX_HUB_PORTS }
                    &&& final(self).spec_power_good_delay() == reads@[4] as u8
                    &&& if final(self).spec_ports() > 0 {
                        *final(st) == (HubInit::Power { port: 0 })
                            && (r matches HubStep::Run(o) && o@ == seq![MmioOp::Read32(port_reg_spec(0))])
                    } else {
                        *final(st) == HubInit::Finished && (r matches HubStep::Done(Ok(()))) && final(self).spec_initialized()
                    }
                },
                HubInit::Power { port } => {
                    &&& final(self).spec_states() == old(self).spec_states().update(port as int, powered_port(port))
                    &&& final(self).spec_ports() == old(self).spec_ports()
                    &&& if port + 1 < old(self).spec_ports() {
                        *final(st) == (HubInit::Power { port: (port + 1) as u8 }) && (r matches HubStep::Run(o) && o@ == seq![
                            MmioOp::Write32(port_reg_spec(port), reads@.last() | 0x04),
                            MmioOp::Read32(port_reg_spec((port + 1) as u8)),
                        ])
                    } else {
                        *final(st) == HubInit::Finished && (r matches HubStep::Run(o)
                            && o@ == seq![MmioOp::Write32(port_reg_spec(port), reads@.last() | 0x04)])
                    }
                },
                HubInit::Finished => *final(st) == HubInit::Finished && (r matches HubStep::Done(Ok(())))
                    && final(self).spec_initialized(),
            },
            *old(st) != HubInit::Descriptor && *old(st) != HubInit::Finished ==>
                final(self).spec_initialized() == old(self).spec_initialized(),
            *old(st) != HubInit::Descriptor ==> final(self).spec_ports() == old(self).spec_ports()
                && final(self).spec_power_good_delay() == old(self).spec_power_good_delay(),
            !(*old(st) is Power) ==> final(self).spec_states() == old(self).spec_states(),
    {
        let mut ops: Vec<MmioOp> = Vec::new();
        match *st {
            HubInit::Start => {
                ops.push(MmioOp::Read16(0x00));
                *st = HubInit::Version;
                assert(ops@ =~= seq![MmioOp::Read16(0x00)]);
            },
            HubInit::Version => {
                let ver = #[verifier::truncate] (reads[0] as u16);
                if ver == 0xFFFF || ver == 0 {
                    *st = HubInit::Finished;
                    return HubStep::Done(Err(HubError::NotFound));
                }
                ops.push(MmioOp::Write32(0x04, 0x01));
                ops.push(MmioOp::Read32(0x04));
                *st = HubInit::Poll { n: 0 };
                assert(ops@ =~= seq![MmioOp::Write32(0x04, 0x01), MmioOp::Read32(0x04)]);
            },
            HubInit::Poll { n } => {
                let v = reads[reads.len() - 1];
                if v & 0x01 != 0 || n >= POLLS_SHORT - 1 {
                    ops.push(MmioOp::Read8(0x10));
                    ops.push(MmioOp::Read8(0x11));
                    ops.push(MmioOp::Read8(0x12));
                    ops.push(MmioOp::Read16(0x13));
                    ops.push(MmioOp::Read8(0x15));
                    ops.push(MmioOp::Read8(0x16));
                    *st = HubInit::Descriptor;
                    assert(ops@ =~= descriptor_reads());
                } else {
                    ops.push(MmioOp::Read32(0x04));
                    *st = HubInit::Poll { n: n + 1 };
                    assert(ops@ =~= seq![MmioOp::Read32(0x04)]);
                }
            },
            HubInit::Descriptor => {
                let desc = HubDescriptor {
                    b_desc_length: #[verifier::truncate] (reads[0] as u8),
                    b_desc_type: #[verifier::truncate] (reads[1] as u8),
                    b_nbr_ports: #[verifier::truncate] (reads[2] as u8),
                    w_hub_characteristics: #[verifier::truncate] (reads[3] as u16),
                    b_pwr_on_2_pwr_good: #[verifier::truncate] (reads[4] as u8),
                    b_hub_contr_current: #[verifier::truncate] (reads[5] as u8),
                };
                self.ports = if desc.b_nbr_ports < MAX_HUB_PORTS { desc.b_nbr_ports } else { MAX_HUB_PORTS };
                self.power_good_delay = desc.b_pwr_on_2_pwr_good;
                if self.ports > 0 {
                    ops.push(MmioOp::Read32(0x100));
                    *st = HubInit::Power { port: 0 };
                    assert(ops@ =~= seq![MmioOp::Read32(port_reg_spec(0))]);
                } else {
                    self.initialized = true;
                    *st = HubInit::Finished;
                    return HubStep::Done(Ok(()));
                }
            },
            HubInit::Power { port } => {
                let cur = reads[reads.len() - 1];
                let reg = 0x100 + (port as usize) * 0x10;
                ops.push(MmioOp::Write32(reg, cur | 0x04));
                self.port_states.set(port as usize, PortState {
                    port,
                    status: PortStatus::Disconnected,
                    speed: PortSpeed::NoSpeed,
                    power_on: true,
                    overcurrent: false,
                });
                if port + 1 < self.ports {
                    ops.push(MmioOp::Read32(0x100 + ((port + 1) as usize) * 0x10));
                    *st = HubInit::Power { port: port + 1 };
                    assert(ops@ =~= seq![
                        MmioOp::Write32(port_reg_spec(port), reads@.last() | 0x04),
                        MmioOp::Read32(port_reg_spec((port + 1) as u8)),
                    ]);
                } else {
                    *st = HubInit::Finished;
                    assert(ops@ =~= seq![MmioOp::Write32(port_reg_spec(port), reads@.last() | 0x04)]);
                }
            },
            HubInit::Finished => {
                self.initialized = true;
                return HubStep::Done(Ok(()));
            },
        }
        HubStep::Run(ops)
    }

    pub fn port_count(&self) -> (r: u8)
        ensures
            r == self.spec_ports(),
    {
        self.ports
    }

    /// Status register of `port`; none for a port the hub does not have
    /// (its status and change read as zero).
    pub fn port_status_reg(&self, port: u8) -> (r: Option<usize>)
        ensures
            port >= self.spec_ports() ==> r is None,
            port < self.spec_ports() ==> r == Some(port_reg_spec(port)),
    {
        if port >= self.ports {
            return None;
        }
        Some(0x100 + (port as usize) * 0x10)
    }

    /// Change register of `port`.
    pub fn port_change_reg(&self, port: u8) -> (r: Option<usize>)
        ensures
            port >= self.spec_ports() ==> r is None,
            port < self.spec_ports() ==> r == Some((port_reg_spec(port) + 4) as usize),
    {
        if port >= self.ports {
            return None;
        }
        Some(0x100 + (port as usize) * 0x10 + 4)
    }

    /// The write that powers `port`, whose status reads `cur`.
    pub fn power_port(&self, port: u8, cur: u32) -> (r: MmioOp)
        ensures
            r == MmioOp::Write32(port_reg_spec(port), cur | 0x0000_0004),
    {
        MmioOp::Write32(0x100 + (port as usize) * 0x10, cur | 0x0000_0004)
    }

    /// The write that starts a reset of `port`.
    pub fn reset_port(&self, port: u8, cur: u32) -> (r: MmioOp)
        ensures
            r == MmioOp::Write32(port_reg_spec(port), cur | 0x0000_0010),
    {
        MmioOp::Write32(0x100 + (port as usize) * 0x10, cur | 0x0000_0010)
    }

    /// The reset bit has cleared.
    pub fn reset_done(sts: u32) -> (r: bool)
        ensures
            r == (sts & 0x0000_0010 == 0),
    {
        sts & 0x0000_0010 == 0
    }

    /// One poll of a port reset: `sts` is the port's register, read after
    /// `polls_done` earlier polls found the reset bit set. `Some(true)`: the
    /// reset is over; `Some(false)`: `POLLS_LONG` polls have found it set,
    /// and the reset is to be ended with `reset_abort`; `None`: poll again.
    pub fn reset_poll(polls_done: u32, sts: u32) -> (r: Option<bool>)
        requires
            polls_done < POLLS_LONG,
        ensures
            sts & 0x0000_0010 == 0 ==> r == Some(true),
            sts & 0x0000_0010 != 0 ==> r == if polls_done + 1 >= POLLS_LONG { Some(false) } else { None },
    {
        if Self::reset_done(sts) {
            Some(true)
        } else if polls_done + 1 >= POLLS_LONG {
            Some(false)
        } else {
            None
        }
    }

    /// The write that ends a reset that did not finish on its own.
    pub fn reset_abort(&self, port: u8, cur: u32) -> (r: MmioOp)
        ensures
            r == MmioOp::Write32(port_reg_spec(port), cur & !0x0000_0010u32),
    {
        MmioOp::Write32(0x100 + (port as usize) * 0x10, cur & !0x0000_0010u32)
    }

    pub fn enable_port(&self, port: u8, cur: u32) -> (r: MmioOp)
        ensures
            r == MmioOp::Write32(port_reg_spec(port), cur | 0x0000_0002),
    {
        MmioOp::Write32(0x100 + (port as usize) * 0x10, cur | 0x0000_0002)
    }

    pub fn disable_port(&self, port: u8, cur: u32) -> (r: MmioOp)
        ensures
            r == MmioOp::Write32(port_reg_spec(port), cur & !0x0000_0002u32),
    {
        MmioOp::Write32(0x100 + (port as usize) * 0x10, cur & !0x0000_0002u32)
    }

    /// Speed of a port whose status word is `sts`.
    pub fn port_speed(sts: u32) -> (r: PortSpeed)
        ensures
            r == speed_spec(sts),
    {
        let c = (sts >> 2u32) & 0x03;
        if c == 0 { PortSpeed::Full } else if c == 1 { PortSpeed::Low } else if c == 2 { PortSpeed::High } else { PortSpeed::Super }
    }

    /// The write that acknowledges change bits `change` of `port`.
    pub fn clear_port_change(&self, port: u8, change: u16) -> (r: MmioOp)
        ensures
            r == MmioOp::Write16((port_reg_spec(port) + 4) as usize, change),
    {
        MmioOp::Write16(0x100 + (port as usize) * 0x10 + 4, change)
    }

    /// One step of a change scan; `reads` are the values the previous `Run`
    /// read. Ports are looked at in order: the first one with a connect
    /// change gets its change acknowledged, its connection state and speed
    /// recorded, and its number returned; an over-current change on the way
    /// is acknowledged and recorded. The scan ends with `None` when no port
    /// had a connect change.
    pub fn detect_changes(&mut self, st: &mut HubScan, reads: &[u32]) -> (r: HubStep<Option<u8>>)
        requires
            old(self).wf(),
            !(*old(st) is Start) && !(*old(st) is Finished) ==> reads@.len() >= 1,
            *old(st) matches HubScan::Change { port } ==> port < old(self).spec_ports(),
            *old(st) matches HubScan::Status { port } ==> port < old(self).spec_ports(),
            *old(st) matches HubScan::Speed { port, .. } ==> port < old(self).spec_ports(),
        ensures
            final(self).wf(),
            final(self).spec_ports() == old(self).spec_ports(),
            final(self).spec_initialized() == old(self).spec_initialized(),
            final(self).spec_power_good_delay() == old(self).spec_power_good_delay(),
            *final(st) matches HubScan::Change { port } ==> port < final(self).spec_ports(),
            *final(st) matches HubScan::Status { port } ==> port < final(self).spec_ports(),
            *final(st) matches HubScan::Speed { port, .. } ==> port < final(self).spec_ports(),
            hub_scan_ensures(old(self).spec_states(), final(self).spec_states(), old(self).spec_ports(),
                *old(st), *final(st), reads@, r),
    {
        let mut ops: Vec<MmioOp> = Vec::new();
        match *st {
            HubScan::Start => {
                if self.ports == 0 {
                    *st = HubScan::Finished;
                    return HubStep::Done(None);
                }
                ops.push(MmioOp::Read16(0x104));
                *st = HubScan::Change { port: 0 };
            },
            HubScan::Change { port } => {
                let change = reads[reads.len() - 1];
                let creg = 0x100 + (port as usize) * 0x10 + 4;
                if change & 0x01 != 0 {
                    ops.push(MmioOp::Read32(0x100 + (port as usize) * 0x10));
                    *st = HubScan::Status { port };
                } else {
                    if change & 0x08 != 0 {
                        ops.push(MmioOp::Write16(creg, 0x08));
                        let mut s = self.port_states[port as usize];
                        s.overcurrent = true;
                        self.port_states.set(port as usize, s);
                    }
                    if port + 1 < self.ports {
                        ops.push(MmioOp::Read16(0x100 + ((port + 1) as usize) * 0x10 + 4));
                        *st = HubScan::Change { port: port + 1 };
                    } else {
                        *st = HubScan::Finished;
                        if ops.len() == 0 {
                            return HubStep::Done(None);
                        }
                    }
                }
            },
            HubScan::Status { port } => {
                let sts = reads[reads.len() - 1];
                let connected = sts & 0x01 != 0;
                ops.push(MmioOp::Write16(0x100 + (port as usize) * 0x10 + 4, 0x01));
                ops.push(MmioOp::Read32(0x100 + (port as usize) * 0x10));
                let mut s = self.port_states[port as usize];
                s.status = if connected { PortStatus::Connected } else { PortStatus::Disconnected };
                self.port_states.set(port as usize, s);
                *st = HubScan::Speed { port, connected };
            },
            HubScan::Speed { port, connected } => {
                let sts = reads[reads.len() - 1];
                let mut s = self.port_states[port as usize];
                s.speed = Self::port_speed(sts);
                self.port_states.set(port as usize, s);
                *st = HubScan::Finished;
                return HubStep::Done(Some(port));
            },
            HubScan::Finished => {
                return HubStep::Done(None);
            },
        }
        proof {
            assert(ops@ =~= scan_ops(old(self).spec_ports(), *old(st), reads@));
        }
        HubStep::Run(ops)
    }

    /// States of the ports that are not disconnected, in port-table order.
    pub fn poll_ports(&self) -> (r: Vec<PortState>)
        requires
            self.wf(),
        ensures
            r@ == self.spec_states().filter(|p: PortState| p.status != PortStatus::Disconnected),
    {
        let mut out: Vec<PortState> = Vec::new();
        let mut i: usize = 0;
        while i < self.port_states.len()
            invariant
                i <= self.port_states@.len(),
                out@ == self.port_states@.take(i as int).filter(|p: PortState| p.status != PortStatus::Disconnected),
            decreases self.port_states@.len() - i,
        {
            let p = self.port_states[i];
            proof {
                let t = self.port_states@.take(i + 1);
                assert(t.drop_last() =~= self.port_states@.take(i as int));
                t.lemma_filter_push(p, |p: PortState| p.status != PortStatus::Disconnected);
            }
            if p.status != PortStatus::Disconnected {
                out.push(p);
            }
            proof {
                reveal(Seq::filter);
                assert(self.port_states@.take(i + 1) =~= self.port_states@.take(i as int).push(p));
            }
            i = i + 1;
        }
        assert(self.port_states@.take(i as int) =~= self.port_states@);
        out
    }

    /// State of `port`, for a port the hub has.
    pub fn state(&self, port: u8) -> (r: Option<PortState>)
        requires
            self.wf(),
        ensures
            port < self.spec_ports() ==> r == Some(self.spec_states()[port as int]),
            port >= self.spec_ports() ==> r is None,
    {
        if port < self.ports {
            Some(self.port_states[port as usize])
        } else {
            None
        }
    }
}

/// Register accesses of a change-scan step.
pub open spec fn scan_ops(ports: u8, st: HubScan, reads: Seq<u32>) -> Seq<MmioOp> {
    match st {
        HubScan::Start => seq![MmioOp::Read16(0x104)],
        HubScan::Change { port } => {
            let change = reads.last();
            if change & 0x01 != 0 {
                seq![MmioOp::Read32(port_reg_spec(port))]
            } else {
                (if change & 0x08 != 0 { seq![MmioOp::Write16((port_reg_spec(port) + 4) as usize, 0x08)] } else { Seq::empty() })
                    + (if port + 1 < ports { seq![MmioOp::Read16((port_reg_spec((port + 1) as u8) + 4) as usize)] } else { Seq::empty() })
            }
        },
        HubScan::Status { port } => seq![
            MmioOp::Write16((port_reg_spec(port) + 4) as usize, 0x01),
            MmioOp::Read32(port_reg_spec(port)),
        ],
        _ => Seq::empty(),
    }
}

/// What a change-scan step does to the port states and the scan.
pub open spec fn hub_scan_ensures(
    before: Seq<PortState>,
    after: Seq<PortState>,
    ports: u8,
    st: HubScan,
    next: HubScan,
    reads: Seq<u32>,
    r: HubStep<Option<u8>>,
) -> bool {
    match st {
        HubScan::Start => after == before && if ports == 0 {
            next == HubScan::Finished && r == HubStep::<Option<u8>>::Done(None)
        } else {
            next == (HubScan::Change { port: 0 }) && (r matches HubStep::Run(o) && o@ == scan_ops(ports, st, reads))
        },
        HubScan::Change { port } => {
            let change = reads.last();
            if change & 0x01 != 0 {
                after == before && next == (HubScan::Status { port })
                    && (r matches HubStep::Run(o) && o@ == scan_ops(ports, st, reads))
            } else {
                &&& after == if change & 0x08 != 0 {
                    before.update(port as int, PortState { overcurrent: true, ..before[port as int] })
                } else {
                    before
                }
                &&& next == if port + 1 < ports { HubScan::Change { port: (port + 1) as u8 } } else { HubScan::Finished }
                &&& if scan_ops(ports, st, reads).len() == 0 {
                    r == HubStep::<Option<u8>>::Done(None)
                } else {
                    r matches HubStep::Run(o) && o@ == scan_ops(ports, st, reads)
                }
            }
        },
        HubScan::Status { port } => {
            let connected = reads.last() & 0x01 != 0;
            &&& after == before.update(port as int, PortState {
                status: if connected { PortStatus::Connected } else { PortStatus::Disconnected },
                ..before[port as int]
            })
            &&& next == (HubScan::Speed { port, connected })
            &&& r matches HubStep::Run(o) && o@ == scan_ops(ports, st, reads)
        },
        HubScan::Speed { port, connected } => {
            &&& after == before.update(port as int, PortState { speed: speed_spec(reads.last()), ..before[port as int] })
            &&& next == HubScan::Finished
            &&& r == HubStep::<Option<u8>>::Done(Some(port))
        },
        HubScan::Finished => after == before && next == HubScan::Finished && r == HubStep::<Option<u8>>::Done(None),
    }
}

} // verus!
