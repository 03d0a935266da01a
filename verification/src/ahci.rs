use vstd::prelude::*;
use crate::mmio::{MmioOp, POLLS_SHORT, POLLS_LONG};

verus! {

pub type AhciResult<T> = Result<T, AhciError>;

#[derive(Debug, Clone, Copy, PartialEq, Eq, Structural)]
pub enum AhciError {
    NotFound,
    NoPorts,
    DeviceBusy,
    CommandFailed,
    Timeout,
    InvalidSector,
    DmaError,
}

#[derive(Debug, Clone, Copy, PartialEq, Eq, Structural)]
pub enum PortType {
    NoDevice,
    Sata,
    Satapi,
    Semu,
}

#[derive(Debug, Clone, Copy)]
pub struct HbaPort {
    pub clb: u32,
    pub clbu: u32,
    pub fb: u32,
    pub fbu: u32,
    pub is: u32,
    pub ie: u32,
    pub cmd: u32,
    pub _reserved0: u32,
    pub tfd: u32,
    pub sig: u32,
    pub ssts: u32,
    pub sctl: u32,
    pub serr: u32,
    pub sact: u32,
    pub ci: u32,
    pub sntf: u32,
    pub fbs: u32,
    pub _reserved1: [u32; 11],
    pub vendor: [u32; 4],
}

#[derive(Debug, Clone, Copy)]
pub struct HbaMemory {
    pub cap: u32,
    pub ghc: u32,
    pub is: u32,
    pub pi: u32,
    pub vs: u32,
    pub ccc_ctl: u32,
    pub ccc_pts: u32,
    pub em_loc: u32,
    pub em_ctl: u32,
    pub cap2: u32,
    pub bohc: u32,
    pub _reserved: [u32; 29],
    pub vendor: [u32; 24],
    pub ports: [HbaPort; 32],
}

#[derive(Debug, Clone, Copy)]
pub struct CommandHeader {
    pub opts: u16,
    pub prdtl: u16,
    pub prdbc: u32,
    pub ctba: u32,
    pub ctbau: u32,
    pub _reserved: [u32; 4],
}

#[derive(Debug, Clone, Copy)]
pub struct PrdEntry {
    pub dba: u32,
    pub dbau: u32,
    pub _reserved: u32,
    pub dbc: u32,
}

#[derive(Debug, Clone, Copy)]
pub struct CommandTable {
    pub cfis: [u8; 64],
    pub acmd: [u8; 16],
    pub _reserved: [u8; 48],
    pub prdt: [PrdEntry; 8],
}

#[derive(Debug, Clone, Copy, PartialEq, Eq, Structural)]
pub struct AhciPort {
    pub id: usize,
    pub port_type: PortType,
    pub signature: u32,
    pub sector_count: u64,
}

pub const HBA_GHC_IE: u32 = 0x00000002;
pub const HBA_GHC_AE: u32 = 0x80000000;
pub const HBA_GHC_HR: u32 = 0x00000001;

pub const HBA_PXCMD_ST: u32 = 0x00000001;
pub const HBA_PXCMD_FRE: u32 = 0x00000010;
pub const HBA_PXCMD_FR: u32 = 0x00004000;
pub const HBA_PXCMD_CR: u32 = 0x00008000;

pub const SATA_SIG_ATA: u32 = 0x00000101;
pub const SATA_SIG_ATAPI: u32 = 0xEB140101;
pub const SATA_SIG_PM: u32 = 0x96690101;
pub const SATA_SIG_SEMB: u32 = 0xC33C0101;

/// Register offsets in the HBA memory window.
pub const HBA_CAP: usize = 0x00;
pub const HBA_GHC: usize = 0x04;
pub const HBA_PI: usize = 0x0C;
pub const HBA_PORTS: usize = 0x100;
pub const HBA_PORT_SIZE: usize = 0x80;
pub const PORT_CMD: usize = 0x18;
pub const PORT_SIG: usize = 0x24;
pub const PORT_SSTS: usize = 0x28;

pub const MAX_PORTS: usize = 32;

/// Offset of register `reg` of port `i`.
pub open spec fn port_reg(i: int, reg: usize) -> usize {
    (HBA_PORTS + i * HBA_PORT_SIZE + reg) as usize
}

/// The device type of a port signature.
pub open spec fn port_type_of(sig: u32) -> PortType {
    if sig == SATA_SIG_ATA {
        PortType::Sata
    } else if sig == SATA_SIG_ATAPI {
        PortType::Satapi
    } else if sig == SATA_SIG_SEMB {
        PortType::Semu
    } else {
        PortType::NoDevice
    }
}

/// A port with a device present (DET = 3) and its link active (IPM = 1).
pub open spec fn link_up_spec(ssts: u32) -> bool {
    ssts & 0x0F == 0x03 && (ssts >> 8u32) & 0x0F == 0x01
}

/// The smallest implemented port `i` with `from <= i < 32`.
pub open spec fn next_port_spec(pi: u32, from: int) -> Option<usize>
    decreases MAX_PORTS - from,
{
    if from >= MAX_PORTS || from < 0 {
        None
    } else if pi & (1u32 << (from as u32)) != 0 {
        Some(from as usize)
    } else {
        next_port_spec(pi, from + 1)
    }
}

pub fn port_type(sig: u32) -> (r: PortType)
    ensures
        r == port_type_of(sig),
{
    match sig {
        SATA_SIG_ATA => PortType::Sata,
        SATA_SIG_ATAPI => PortType::Satapi,
        SATA_SIG_SEMB => PortType::Semu,
        _ => PortType::NoDevice,
    }
}

pub fn link_up(ssts: u32) -> (r: bool)
    ensures
        r == link_up_spec(ssts),
{
    let ipm = (ssts >> 8u32) & 0x0F;
    let det = ssts & 0x0F;
    det == 0x03 && ipm == 0x01
}

/// Where the HBA bring-up stands.
#[derive(Debug, Clone, Copy, PartialEq, Eq, Structural)]
pub enum AhciInit {
    Start,
    Cap,
    Ghc,
    PollReset { n: u32 },
    Enable,
    Pi,
    PortCmd { i: usize },
    PortSsts { i: usize, cmd: u32 },
    PortStop { i: usize, ssts: u32, n: u32 },
    PortSig { i: usize },
    Finished,
}

/// Next thing the bring-up asks for.
#[derive(Debug)]
pub enum AhciStep {
    /// Perform these accesses; the value of the last read is the next input.
    Run(Vec<MmioOp>),
    Done(AhciResult<()>),
}

pub struct AhciController {
    mmio_base: usize,
    port_count: u32,
    implemented: u32,
    ports: Vec<Option<AhciPort>>,
    initialized: bool,
}

/// The accesses that look at port `i`, or the end of the bring-up when no
/// implemented port is left from `from` on.
pub open spec fn scan_from(pi: u32, from: int, count: u32) -> (AhciInit, Option<Seq<MmioOp>>, Option<AhciResult<()>>) {
    match next_port_spec(pi, from) {
        Some(i) => (AhciInit::PortCmd { i }, Some(seq![MmioOp::Read32(port_reg(i as int, PORT_CMD))]), None),
        None => (AhciInit::Finished, None, Some(if count == 0 { Err(AhciError::NoPorts) } else { Ok(()) })),
    }
}

/// What follows the status check of port `i` whose status reads `ssts`.
pub open spec fn after_link(pi: u32, i: usize, ssts: u32, count: u32) -> (AhciInit, Option<Seq<MmioOp>>, Option<AhciResult<()>>) {
    if link_up_spec(ssts) {
        (AhciInit::PortSig { i }, Some(seq![MmioOp::Read32(port_reg(i as int, PORT_SIG))]), None)
    } else {
        scan_from(pi, i + 1, count)
    }
}

/// One transition of the bring-up that does not touch the port table.
pub open spec fn ahci_next(st: AhciInit, v: u32, pi: u32, count: u32) -> (AhciInit, Option<Seq<MmioOp>>, Option<AhciResult<()>>) {
    match st {
        AhciInit::Start => (AhciInit::Cap, Some(seq![MmioOp::Read32(HBA_CAP)]), None),
        AhciInit::Cap => if v == 0xFFFF_FFFF || v == 0 {
            (AhciInit::Finished, None, Some(Err(AhciError::NotFound)))
        } else {
            (AhciInit::Ghc, Some(seq![MmioOp::Read32(HBA_GHC)]), None)
        },
        AhciInit::Ghc => (AhciInit::PollReset { n: 0 }, Some(seq![MmioOp::Write32(HBA_GHC, v | HBA_GHC_HR), MmioOp::Read32(HBA_GHC)]), None),
        AhciInit::PollReset { n } => if v & HBA_GHC_HR == 0 || n >= POLLS_LONG - 1 {
            (AhciInit::Enable, Some(seq![MmioOp::Write32(HBA_GHC, HBA_GHC_AE), MmioOp::Read32(HBA_GHC)]), None)
        } else {
            (AhciInit::PollReset { n: (n + 1) as u32 }, Some(seq![MmioOp::Read32(HBA_GHC)]), None)
        },
        AhciInit::Enable => (AhciInit::Pi, Some(seq![MmioOp::Write32(HBA_GHC, v | HBA_GHC_IE), MmioOp::Read32(HBA_PI)]), None),
        AhciInit::Pi => scan_from(v, 0, count),
        AhciInit::PortCmd { i } => (AhciInit::PortSsts { i, cmd: v }, Some(seq![MmioOp::Read32(port_reg(i as int, PORT_SSTS))]), None),
        AhciInit::PortSsts { i, cmd } => if cmd & HBA_PXCMD_CR != 0 {
            (AhciInit::PortStop { i, ssts: v, n: 0 }, Some(seq![
                MmioOp::Write32(port_reg(i as int, PORT_CMD), cmd & !HBA_PXCMD_ST),
                MmioOp::Read32(port_reg(i as int, PORT_CMD)),
            ]), None)
        } else {
            after_link(pi, i, v, count)
        },
        AhciInit::PortStop { i, ssts, n } => if v & HBA_PXCMD_CR == 0 || n >= POLLS_SHORT - 1 {
            after_link(pi, i, ssts, count)
        } else {
            (AhciInit::PortStop { i, ssts, n: (n + 1) as u32 }, Some(seq![MmioOp::Read32(port_reg(i as int, PORT_CMD))]), None)
        },
        AhciInit::PortSig { i } => scan_from(pi, i + 1, (count + 1) as u32),
        AhciInit::Finished => (st, None, Some(if count == 0 { Err(AhciError::NoPorts) } else { Ok(()) })),
    }
}

/// Port numbers in a state are below 32.
pub open spec fn ahci_state_ok(st: AhciInit) -> bool {
    match st {
        AhciInit::PortCmd { i } => i < MAX_PORTS,
        AhciInit::PortSsts { i, .. } => i < MAX_PORTS,
        AhciInit::PortStop { i, .. } => i < MAX_PORTS,
        AhciInit::PortSig { i } => i < MAX_PORTS,
        _ => true,
    }
}

/// What one bring-up step does: `before` and `st` are the controller and
/// state it starts from, `after` and `next` where it leaves them, `v` the
/// value of the last read and `r` what it asks for.
pub open spec fn ahci_step(before: AhciController, after: AhciController, st: AhciInit, next: AhciInit, v: u32, r: AhciStep) -> bool {
    let pi = if st == AhciInit::Pi { v } else { before.spec_pi() };
    let (n, ops, res) = ahci_next(st, v, pi, before.spec_port_count());
    &&& next == n
    &&& after.spec_pi() == pi
    &&& match r {
        AhciStep::Run(o) => ops == Some(o@) && res is None,
        AhciStep::Done(d) => ops is None && res == Some(d),
    }
    &&& match st {
        AhciInit::PortSig { i } => after.spec_ports() == before.spec_ports().update(i as int,
            Some(AhciPort { id: i, port_type: port_type_of(v), signature: v, sector_count: 0 }))
            && after.spec_port_count() == before.spec_port_count() + 1,
        _ => after.spec_ports() == before.spec_ports()
            && after.spec_port_count() == before.spec_port_count(),
    }
    &&& after.spec_initialized() == (before.spec_initialized() || res == Some(Ok::<(), AhciError>(())))
}

/// Number of recorded ports.
pub open spec fn count_ports(s: Seq<Option<AhciPort>>) -> nat
    decreases s.len(),
{
    if s.len() == 0 {
        0
    } else {
        count_ports(s.drop_last()) + if s.last() is Some { 1nat } else { 0nat }
    }
}

/// The first port number the bring-up has not looked at yet.
pub open spec fn scan_frontier(st: AhciInit) -> int {
    match st {
        AhciInit::PortCmd { i } => i as int,
        AhciInit::PortSsts { i, .. } => i as int,
        AhciInit::PortStop { i, .. } => i as int,
        AhciInit::PortSig { i } => i as int,
        AhciInit::Finished => MAX_PORTS as int,
        _ => 0,
    }
}

/// The port count is the number of recorded ports, and no port at or past
/// the scan frontier is recorded.
pub open spec fn ports_consistent(ports: Seq<Option<AhciPort>>, count: int, st: AhciInit) -> bool {
    &&& count == count_ports(ports)
    &&& forall|j: int| scan_frontier(st) <= j < ports.len() ==> #[trigger] ports[j] is None
}

proof fn lemma_next_port_from(pi: u32, from: int)
    ensures
        next_port_spec(pi, from) matches Some(k) ==> from <= k < MAX_PORTS,
    decreases MAX_PORTS - from,
{
    if 0 <= from < MAX_PORTS {
        lemma_next_port_from(pi, from + 1);
    }
}

proof fn lemma_count_ports_fill(s: Seq<Option<AhciPort>>, i: int, p: AhciPort)
    requires
        0 <= i < s.len(),
        s[i] is None,
    ensures
        count_ports(s.update(i, Some(p))) == count_ports(s) + 1,
    decreases s.len(),
{
    let u = s.update(i, Some(p));
    if i == s.len() - 1 {
        assert(u.drop_last() =~= s.drop_last());
    } else {
        lemma_count_ports_fill(s.drop_last(), i, p);
        assert(u.drop_last() =~= s.drop_last().update(i, Some(p)));
    }
}

proof fn lemma_all_none_count(n: nat)
    ensures
        count_ports(Seq::new(n, |i: int| None::<AhciPort>)) == 0,
    decreases n,
{
    if n > 0 {
        lemma_all_none_count((n - 1) as nat);
        assert(Seq::new(n, |i: int| None::<AhciPort>).drop_last() =~= Seq::new((n - 1) as nat, |i: int| None::<AhciPort>));
    }
}

proof fn lemma_scan_from_frontier(pi: u32, from: int, count: u32)
    requires
        0 <= from <= MAX_PORTS,
    ensures
        scan_frontier(scan_from(pi, from, count).0) >= from,
{
    lemma_next_port_from(pi, from);
}

proof fn lemma_step_keeps_ports_consistent(before: AhciController, after: AhciController, st: AhciInit, next: AhciInit, v: u32, r: AhciStep)
    requires
        ahci_step(before, after, st, next, v, r),
        ahci_state_ok(st),
        before.wf(),
    ensures
        ports_consistent(before.spec_ports(), before.spec_port_count() as int, st)
            ==> ports_consistent(after.spec_ports(), after.spec_port_count() as int, next),
{
    if ports_consistent(before.spec_ports(), before.spec_port_count() as int, st) {
        let pi = if st == AhciInit::Pi { v } else { before.spec_pi() };
        let count = before.spec_port_count();
        match st {
            AhciInit::Pi => {
                lemma_scan_from_frontier(pi, 0, count);
            },
            AhciInit::PortSsts { i, cmd } => {
                lemma_scan_from_frontier(pi, i + 1, count);
            },
            AhciInit::PortStop { i, ssts, n } => {
                lemma_scan_from_frontier(pi, i + 1, count);
            },
            AhciInit::PortSig { i } => {
                lemma_scan_from_frontier(pi, i + 1, (count + 1) as u32);
                lemma_count_ports_fill(before.spec_ports(), i as int,
                    AhciPort { id: i, port_type: port_type_of(v), signature: v, sector_count: 0 });
                assert(before.spec_ports()[i as int] is None);
            },
            _ => {},
        }
        assert(scan_frontier(next) >= scan_frontier(st) || scan_frontier(next) == MAX_PORTS);
    }
}

impl AhciController {
    pub closed spec fn wf(&self) -> bool {
        &&& self.ports.len() == MAX_PORTS
    }

    pub closed spec fn spec_ports(&self) -> Seq<Option<AhciPort>> {
        self.ports@
    }

    pub closed spec fn spec_port_count(&self) -> u32 {
        self.port_count
    }

    pub closed spec fn spec_pi(&self) -> u32 {
        self.implemented
    }

    pub closed spec fn spec_initialized(&self) -> bool {
        self.initialized
    }

    pub closed spec fn spec_base(&self) -> usize {
        self.mmio_base
    }

    pub fn new(mmio_base: usize) -> (r: Self)
        ensures
            r.wf(),
            r.spec_base() == mmio_base,
            r.spec_port_count() == 0,
            r.spec_ports() == Seq::new(32, |i: int| None::<AhciPort>),
            !r.spec_initialized(),
            ports_consistent(r.spec_ports(), r.spec_port_count() as int, AhciInit::Start),
    {
        proof {
            lemma_all_none_count(32);
        }
        let mut ports: Vec<Option<AhciPort>> = Vec::new();
        let mut i: usize = 0;
        while i < MAX_PORTS
            invariant
                i <= MAX_PORTS,
                ports@ == Seq::new(i as nat, |k: int| None::<AhciPort>),
            decreases MAX_PORTS - i,
        {
            ports.push(None);
            i = i + 1;
            assert(ports@ =~= Seq::new(i as nat, |k: int| None::<AhciPort>));
        }
        Self { mmio_base, port_count: 0, implemented: 0, ports, initialized: false }
    }

    pub fn base(&self) -> (r: usize)
        ensures
            r == self.spec_base(),
    {
        self.mmio_base
    }

    /// One step of the HBA bring-up; `v` is the value of the last read.
    /// It checks the capabilities register, resets the HBA and turns on
    /// AHCI mode and interrupts, then for every implemented port stops a
    /// running command engine, and records the ports whose link is up with
    /// the device type their signature names. No HBA ends it with
    /// `NotFound`, no usable port with `NoPorts`. A bring-up started on a
    /// fresh controller keeps the port count equal to the number of ports
    /// recorded.
    pub fn init(&mut self, st: &mut AhciInit, v: u32) -> (r: AhciStep)
        requires
            old(self).wf(),
            ahci_state_ok(*old(st)),
            *old(st) is PortSig ==> old(self).spec_port_count() < u32::MAX,
        ensures
            final(self).wf(),
            ahci_state_ok(*final(st)),
            final(self).spec_base() == old(self).spec_base(),
            ahci_step(*old(self), *final(self), *old(st), *final(st), v, r),
            ports_consistent(old(self).spec_ports(), old(self).spec_port_count() as int, *old(st))
                ==> ports_consistent(final(self).spec_ports(), final(self).spec_port_count() as int, *final(st)),
    {
        let ghost before = *self;
        let ghost st0 = *st;
        let r = self.step(st, v);
        proof {
            lemma_step_keeps_ports_consistent(before, *self, st0, *st, v, r);
        }
        r
    }

    fn step(&mut self, st: &mut AhciInit, v: u32) -> (r: AhciStep)
        requires
            old(self).wf(),
            ahci_state_ok(*old(st)),
            *old(st) is PortSig ==> old(self).spec_port_count() < u32::MAX,
        ensures
            final(self).wf(),
            ahci_state_ok(*final(st)),
            final(self).spec_base() == old(self).spec_base(),
            ahci_step(*old(self), *final(self), *old(st), *final(st), v, r),
    {
        let mut ops: Vec<MmioOp> = Vec::new();
        match *st {
            AhciInit::Start => {
                ops.push(MmioOp::Read32(HBA_CAP));
                *st = AhciInit::Cap;
            },
            AhciInit::Cap => {
                if v == 0xFFFF_FFFF || v == 0 {
                    *st = AhciInit::Finished;
                    return AhciStep::Done(Err(AhciError::NotFound));
                }
                ops.push(MmioOp::Read32(HBA_GHC));
                *st = AhciInit::Ghc;
            },
            AhciInit::Ghc => {
                ops.push(MmioOp::Write32(HBA_GHC, v | HBA_GHC_HR));
                ops.push(MmioOp::Read32(HBA_GHC));
                *st = AhciInit::PollReset { n: 0 };
            },
            AhciInit::PollReset { n } => {
                if v & HBA_GHC_HR == 0 || n >= POLLS_LONG - 1 {
                    ops.push(MmioOp::Write32(HBA_GHC, HBA_GHC_AE));
                    ops.push(MmioOp::Read32(HBA_GHC));
                    *st = AhciInit::Enable;
                } else {
                    ops.push(MmioOp::Read32(HBA_GHC));
                    *st = AhciInit::PollReset { n: n + 1 };
                }
            },
            AhciInit::Enable => {
                ops.push(MmioOp::Write32(HBA_GHC, v | HBA_GHC_IE));
                ops.push(MmioOp::Read32(HBA_PI));
                *st = AhciInit::Pi;
            },
            AhciInit::Pi => {
                self.implemented = v;
                return self.scan(st, 0);
            },
            AhciInit::PortCmd { i } => {
                ops.push(MmioOp::Read32(HBA_PORTS + i * HBA_PORT_SIZE + PORT_SSTS));
                *st = AhciInit::PortSsts { i, cmd: v };
            },
            AhciInit::PortSsts { i, cmd } => {
                if cmd & HBA_PXCMD_CR != 0 {
                    ops.push(MmioOp::Write32(HBA_PORTS + i * HBA_PORT_SIZE + PORT_CMD, cmd & !HBA_PXCMD_ST));
                    ops.push(MmioOp::Read32(HBA_PORTS + i * HBA_PORT_SIZE + PORT_CMD));
                    *st = AhciInit::PortStop { i, ssts: v, n: 0 };
                } else {
                    return self.check_link(st, i, v);
                }
            },
            AhciInit::PortStop { i, ssts, n } => {
                if v & HBA_PXCMD_CR == 0 || n >= POLLS_SHORT - 1 {
                    return self.check_link(st, i, ssts);
                } else {
                    ops.push(MmioOp::Read32(HBA_PORTS + i * HBA_PORT_SIZE + PORT_CMD));
                    *st = AhciInit::PortStop { i, ssts, n: n + 1 };
                }
            },
            AhciInit::PortSig { i } => {
                let sector_count: u64 = match self.identify_device(i) {
                    Ok(c) => c,
                    Err(_) => 0,
                };
                self.ports.set(i, Some(AhciPort { id: i, port_type: port_type(v), signature: v, sector_count }));
                self.port_count = self.port_count + 1;
                return self.scan(st, i + 1);
            },
            AhciInit::Finished => {
                return self.finish();
            },
        }
        proof {
            let pi = if *old(st) == AhciInit::Pi { v } else { old(self).spec_pi() };
            let (next, sops, res) = ahci_next(*old(st), v, pi, old(self).spec_port_count());
            assert(ops@ =~= sops.unwrap());
        }
        AhciStep::Run(ops)
    }

    fn finish(&mut self) -> (r: AhciStep)
        requires
            old(self).wf(),
        ensures
            final(self).wf(),
            final(self).spec_base() == old(self).spec_base(),
            final(self).spec_pi() == old(self).spec_pi(),
            final(self).spec_ports() == old(self).spec_ports(),
            final(self).spec_port_count() == old(self).spec_port_count(),
            old(self).spec_port_count() == 0 ==> r == AhciStep::Done(Err(AhciError::NoPorts))
                && final(self).spec_initialized() == old(self).spec_initialized(),
            old(self).spec_port_count() != 0 ==> r == AhciStep::Done(Ok(())) && final(self).spec_initialized(),
    {
        if self.port_count == 0 {
            return AhciStep::Done(Err(AhciError::NoPorts));
        }
        self.initialized = true;
        AhciStep::Done(Ok(()))
    }

    fn scan(&mut self, st: &mut AhciInit, from: usize) -> (r: AhciStep)
        requires
            old(self).wf(),
            from <= MAX_PORTS,
        ensures
            final(self).wf(),
            ahci_state_ok(*final(st)),
            final(self).spec_base() == old(self).spec_base(),
            final(self).spec_pi() == old(self).spec_pi(),
            final(self).spec_ports() == old(self).spec_ports(),
            final(self).spec_port_count() == old(self).spec_port_count(),
            ({
                let (next, ops, res) = scan_from(old(self).spec_pi(), from as int, old(self).spec_port_count());
                &&& *final(st) == next
                &&& match r {
                    AhciStep::Run(o) => ops == Some(o@) && res is None,
                    AhciStep::Done(d) => ops is None && res == Some(d),
                }
                &&& final(self).spec_initialized() == (old(self).spec_initialized() || res == Some(Ok::<(), AhciError>(())))
            }),
    {
        match next_port(self.implemented, from) {
            Some(i) => {
                let mut ops: Vec<MmioOp> = Vec::new();
                ops.push(MmioOp::Read32(HBA_PORTS + i * HBA_PORT_SIZE + PORT_CMD));
                *st = AhciInit::PortCmd { i };
                proof {
                    let (next, sops, res) = scan_from(old(self).spec_pi(), from as int, old(self).spec_port_count());
                    assert(ops@ =~= sops.unwrap());
                }
                AhciStep::Run(ops)
            },
            None => {
                *st = AhciInit::Finished;
                self.finish()
            },
        }
    }

    fn check_link(&mut self, st: &mut AhciInit, i: usize, ssts: u32) -> (r: AhciStep)
        requires
            old(self).wf(),
            i < MAX_PORTS,
        ensures
            final(self).wf(),
            ahci_state_ok(*final(st)),
            final(self).spec_base() == old(self).spec_base(),
            final(self).spec_pi() == old(self).spec_pi(),
            final(self).spec_ports() == old(self).spec_ports(),
            final(self).spec_port_count() == old(self).spec_port_count(),
            ({
                let (next, ops, res) = after_link(old(self).spec_pi(), i, ssts, old(self).spec_port_count());
                &&& *final(st) == next
                &&& match r {
                    AhciStep::Run(o) => ops == Some(o@) && res is None,
                    AhciStep::Done(d) => ops is None && res == Some(d),
                }
                &&& final(self).spec_initialized() == (old(self).spec_initialized() || res == Some(Ok::<(), AhciError>(())))
            }),
    {
        if link_up(ssts) {
            let mut ops: Vec<MmioOp> = Vec::new();
            ops.push(MmioOp::Read32(HBA_PORTS + i * HBA_PORT_SIZE + PORT_SIG));
            *st = AhciInit::PortSig { i };
            proof {
                assert(ops@ =~= seq![MmioOp::Read32(port_reg(i as int, PORT_SIG))]);
            }
            AhciStep::Run(ops)
        } else {
            self.scan(st, i + 1)
        }
    }

    /// Identify is not implemented: the sector count is unknown.
    fn identify_device(&self, port_no: usize) -> (r: AhciResult<u64>)
        ensures
            r == Err::<u64, AhciError>(AhciError::CommandFailed),
    {
        Err(AhciError::CommandFailed)
    }

    pub fn port_count(&self) -> (r: u32)
        ensures
            r == self.spec_port_count(),
    {
        self.port_count
    }

    pub fn get_port(&self, index: usize) -> (r: Option<AhciPort>)
        requires
            self.wf(),
        ensures
            index < MAX_PORTS ==> r == self.spec_ports()[index as int],
            index >= MAX_PORTS ==> r is None,
    {
        if index < self.ports.len() {
            self.ports[index]
        } else {
            None
        }
    }

    /// Sector transfers are not implemented.
    pub fn read_sectors(&self, port_no: usize, lba: u64, count: u16, buffer: &mut [u8]) -> (r: AhciResult<()>)
        ensures
            r == Err::<(), AhciError>(AhciError::CommandFailed),
            final(buffer)@ == old(buffer)@,
    {
        Err(AhciError::CommandFailed)
    }

    /// Sector transfers are not implemented.
    pub fn write_sectors(&self, port_no: usize, lba: u64, count: u16, buffer: &[u8]) -> (r: AhciResult<()>)
        ensures
            r == Err::<(), AhciError>(AhciError::CommandFailed),
    {
        Err(AhciError::CommandFailed)
    }

    pub fn flush_cache(&self, port_no: usize) -> (r: AhciResult<()>)
        ensures
            r is Ok,
    {
        Ok(())
    }
}

fn next_port(pi: u32, from: usize) -> (r: Option<usize>)
    requires
        from <= MAX_PORTS,
    ensures
        r == next_port_spec(pi, from as int),
        r matches Some(i) ==> i < MAX_PORTS,
{
    let mut i: usize = from;
    while i < MAX_PORTS
        invariant
            from <= i <= MAX_PORTS,
            next_port_spec(pi, from as int) == next_port_spec(pi, i as int),
        decreases MAX_PORTS - i,
    {
        if pi & (1u32 << (i as u32)) != 0 {
            return Some(i);
        }
        i = i + 1;
    }
    None
}

} // verus!
