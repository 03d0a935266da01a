use vstd::prelude::*;
use crate::mmio::{MmioOp, POLLS_SHORT};

verus! {

pub type EthResult<T> = Result<T, EthError>;

#[derive(Debug, Clone, Copy, PartialEq, Eq, Structural)]
pub enum EthError {
    NotFound,
    LinkDown,
    TxBufferFull,
    RxBufferEmpty,
    InvalidMac,
    Timeout,
}

pub const MAC_LEN: usize = 6;

#[derive(Debug, Clone, Copy)]
pub struct EthDeviceInfo {
    pub vendor: u16,
    pub device: u16,
    pub mac: [u8; 6],
    pub speed_mbps: u32,
    pub full_duplex: bool,
    pub mtu: u16,
}

#[derive(Debug, Clone, Copy)]
pub struct RxPacket {
    pub data: [u8; 2048],
    pub len: u16,
}

#[derive(Debug, Clone, Copy)]
pub struct TxDescriptor {
    pub addr: u64,
    pub len: u16,
    pub flags: u16,
    pub next: u64,
}

#[derive(Debug, Clone, Copy)]
pub struct RxDescriptor {
    pub addr: u64,
    pub len: u16,
    pub flags: u16,
    pub next: u64,
}

/// Size of a packet buffer.
pub const RX_BUFFER: usize = 2048;
/// Size of one descriptor in the register window.
pub const DESC_SIZE: usize = 16;

/// MAC address from the two address registers, least significant byte first.
pub open spec fn mac_spec(low: u32, high: u16) -> Seq<u8> {
    seq![low as u8, (low >> 8u32) as u8, (low >> 16u32) as u8, (low >> 24u32) as u8, high as u8, (high >> 8u16) as u8]
}

/// Link speed in Mbit/s from the status byte (bits 2..3); zero is unknown.
pub open spec fn speed_spec(sts: u8) -> u32 {
    let c = (sts >> 2u8) & 0x03;
    if c == 0 { 10 } else if c == 1 { 100 } else if c == 2 { 1000 } else { 0 }
}

/// Where the bring-up stands.
#[derive(Debug, Clone, Copy, PartialEq, Eq, Structural)]
pub enum EthInit {
    Start,
    Ids,
    Mac,
    Poll { n: u32 },
    Finished,
}

#[derive(Debug)]
pub enum EthStep {
    /// Perform these accesses; the values of their reads, in order, are the
    /// next input.
    Run(Vec<MmioOp>),
    Done(EthResult<()>),
}

pub open spec fn eth_runs(r: EthStep, ops: Seq<MmioOp>) -> bool {
    match r {
        EthStep::Run(v) => v@ == ops,
        _ => false,
    }
}

pub struct EthernetController {
    mac: [u8; 6],
    link_up: bool,
    speed: u32,
    full_duplex: bool,
    rx_desc_base: usize,
    tx_desc_base: usize,
    rx_cur: u16,
    tx_cur: u16,
    rx_entries: u16,
    tx_entries: u16,
    initialized: bool,
}

/// The writes that set up both descriptor rings and enable the device.
pub open spec fn ring_ops(rx_base: usize, rx_entries: u16, tx_base: usize, tx_entries: u16) -> Seq<MmioOp> {
    seq![
        MmioOp::Write32(0x44, rx_base as u32),
        MmioOp::Write16(0x48, rx_entries),
        MmioOp::Write32(0x4C, 0x01),
        MmioOp::Write32(0x50, tx_base as u32),
        MmioOp::Write16(0x54, tx_entries),
        MmioOp::Write32(0x58, 0x01),
        MmioOp::Write32(0x04, 0x06),
        MmioOp::Write32(0x40, 0x01),
    ]
}

impl EthernetController {
    pub closed spec fn wf(&self) -> bool {
        &&& self.rx_entries > 0
        &&& self.tx_entries > 0
        &&& self.rx_cur < self.rx_entries
        &&& self.tx_cur < self.tx_entries
    }

    pub closed spec fn spec_mac(&self) -> Seq<u8> {
        self.mac@
    }

    pub closed spec fn spec_link_up(&self) -> bool {
        self.link_up
    }

    pub closed spec fn spec_initialized(&self) -> bool {
        self.initialized
    }

    pub closed spec fn spec_rx_cur(&self) -> u16 {
        self.rx_cur
    }

    pub closed spec fn spec_tx_cur(&self) -> u16 {
        self.tx_cur
    }

    pub closed spec fn spec_rx_entries(&self) -> u16 {
        self.rx_entries
    }

    pub closed spec fn spec_tx_entries(&self) -> u16 {
        self.tx_entries
    }

    pub closed spec fn spec_rx_base(&self) -> usize {
        self.rx_desc_base
    }

    pub closed spec fn spec_tx_base(&self) -> usize {
        self.tx_desc_base
    }

    pub fn new() -> (r: Self)
        ensures
            r.wf(),
            r.spec_mac() == seq![0u8, 0u8, 0u8, 0u8, 0u8, 0u8],
            !r.spec_link_up(),
            !r.spec_initialized(),
            r.spec_rx_cur() == 0,
            r.spec_tx_cur() == 0,
            r.spec_rx_entries() == 64,
            r.spec_tx_entries() == 32,
            r.spec_rx_base() == 0,
            r.spec_tx_base() == 0,
    {
        let r = Self {
            mac: [0u8; 6],
            link_up: false,
            speed: 0,
            full_duplex: false,
            rx_desc_base: 0,
            tx_desc_base: 0,
            rx_cur: 0,
            tx_cur: 0,
            rx_entries: 64,
            tx_entries: 32,
            initialized: false,
        };
        assert(r.mac@ =~= seq![0u8, 0u8, 0u8, 0u8, 0u8, 0u8]);
        r
    }

    /// One step of the bring-up; `reads` are the values the previous `Run`
    /// read. It checks the vendor register (`NotFound` when it reads all
    /// ones or zero), reads the MAC address, resets the device and waits
    /// for it, and sets up both descriptor rings.
    pub fn init(&mut self, st: &mut EthInit, reads: &[u32]) -> (r: EthStep)
        requires
            old(self).wf(),
            *old(st) == EthInit::Ids || *old(st) == EthInit::Mac ==> reads@.len() >= 2,
            *old(st) is Poll ==> reads@.len() >= 1,
        ensures
            final(self).wf(),
            final(self).spec_link_up() == old(self).spec_link_up(),
            final(self).spec_rx_cur() == old(self).spec_rx_cur(),
            final(self).spec_tx_cur() == old(self).spec_tx_cur(),
            final(self).spec_rx_entries() == old(self).spec_rx_entries(),
            final(self).spec_tx_entries() == old(self).spec_tx_entries(),
            final(self).spec_rx_base() == old(self).spec_rx_base(),
            final(self).spec_tx_base() == old(self).spec_tx_base(),
            *old(st) != EthInit::Mac ==> final(self).spec_mac() == old(self).spec_mac(),
            *old(st) != EthInit::Finished ==> final(self).spec_initialized() == old(self).spec_initialized(),
            match *old(st) {
                EthInit::Start => *final(st) == EthInit::Ids && eth_runs(r, seq![MmioOp::Read16(0x00), MmioOp::Read16(0x02)]),
                EthInit::Ids => if (reads@[0] as u16) == 0xFFFF || (reads@[0] as u16) == 0 {
                    *final(st) == EthInit::Finished && r == EthStep::Done(Err(EthError::NotFound))
                } else {
                    *final(st) == EthInit::Mac && eth_runs(r, seq![MmioOp::Read32(0x00), MmioOp::Read16(0x04)])
                },
                EthInit::Mac => *final(st) == (EthInit::Poll { n: 0 })
                    && final(self).spec_mac() == mac_spec(reads@[0], reads@[1] as u16)
                    && eth_runs(r, seq![MmioOp::Write32(0x08, 0x01), MmioOp::Read8(0x08)]),
                EthInit::Poll { n } => if reads@.last() & 0x01 == 0 || n >= POLLS_SHORT - 1 {
                    *final(st) == EthInit::Finished && eth_runs(r, ring_ops(old(self).spec_rx_base(),
                        old(self).spec_rx_entries(), old(self).spec_tx_base(), old(self).spec_tx_entries()))
                } else {
                    *final(st) == (EthInit::Poll { n: (n + 1) as u32 }) && eth_runs(r, seq![MmioOp::Read8(0x08)])
                },
                EthInit::Finished => *final(st) == EthInit::Finished && r == EthStep::Done(Ok(())) && final(self).spec_initialized(),
            },
    {
        let mut ops: Vec<MmioOp> = Vec::new();
        match *st {
            EthInit::Start => {
                ops.push(MmioOp::Read16(0x00));
                ops.push(MmioOp::Read16(0x02));
                *st = EthInit::Ids;
                assert(ops@ =~= seq![MmioOp::Read16(0x00), MmioOp::Read16(0x02)]);
            },
            EthInit::Ids => {
                let vendor = #[verifier::truncate] (reads[0] as u16);
                if vendor == 0xFFFF || vendor == 0 {
                    *st = EthInit::Finished;
                    return EthStep::Done(Err(EthError::NotFound));
                }
                ops.push(MmioOp::Read32(0x00));
                ops.push(MmioOp::Read16(0x04));
                *st = EthInit::Mac;
                assert(ops@ =~= seq![MmioOp::Read32(0x00), MmioOp::Read16(0x04)]);
            },
            EthInit::Mac => {
                self.mac = mac_from(reads[0], #[verifier::truncate] (reads[1] as u16));
                ops.push(MmioOp::Write32(0x08, 0x01));
                ops.push(MmioOp::Read8(0x08));
                *st = EthInit::Poll { n: 0 };
                assert(ops@ =~= seq![MmioOp::Write32(0x08, 0x01), MmioOp::Read8(0x08)]);
            },
            EthInit::Poll { n } => {
                let v = reads[reads.len() - 1];
                if v & 0x01 == 0 || n >= POLLS_SHORT - 1 {
                    ops.push(MmioOp::Write32(0x44, #[verifier::truncate] (self.rx_desc_base as u32)));
                    ops.push(MmioOp::Write16(0x48, self.rx_entries));
                    ops.push(MmioOp::Write32(0x4C, 0x01));
                    ops.push(MmioOp::Write32(0x50, #[verifier::truncate] (self.tx_desc_base as u32)));
                    ops.push(MmioOp::Write16(0x54, self.tx_entries));
                    ops.push(MmioOp::Write32(0x58, 0x01));
                    ops.push(MmioOp::Write32(0x04, 0x06));
                    ops.push(MmioOp::Write32(0x40, 0x01));
                    *st = EthInit::Finished;
                    assert(ops@ =~= ring_ops(self.rx_desc_base, self.rx_entries, self.tx_desc_base, self.tx_entries));
                } else {
                    ops.push(MmioOp::Read8(0x08));
                    *st = EthInit::Poll { n: n + 1 };
                    assert(ops@ =~= seq![MmioOp::Read8(0x08)]);
                }
            },
            EthInit::Finished => {
                self.initialized = true;
                return EthStep::Done(Ok(()));
            },
        }
        EthStep::Run(ops)
    }

    pub fn mac(&self) -> (r: [u8; 6])
        ensures
            r@ == self.spec_mac(),
    {
        self.mac
    }

    /// Link is up: bit 0 of the status byte.
    pub fn link_status(sts: u8) -> (r: bool)
        ensures
            r == (sts & 0x01 != 0),
    {
        sts & 0x01 != 0
    }

    /// Link speed from the status byte.
    pub fn speed(sts: u8) -> (r: u32)
        ensures
            r == speed_spec(sts),
    {
        let c = (sts >> 2u8) & 0x03;
        if c == 0 { 10 } else if c == 1 { 100 } else if c == 2 { 1000 } else { 0 }
    }

    /// Register offset of the current transmit descriptor.
    pub fn tx_descriptor(&self) -> (r: usize)
        requires
            self.spec_tx_base() + self.spec_tx_cur() * DESC_SIZE <= usize::MAX,
        ensures
            r == self.spec_tx_base() + self.spec_tx_cur() * DESC_SIZE,
    {
        self.tx_desc_base + (self.tx_cur as usize) * DESC_SIZE
    }

    /// Sends a packet of `len` bytes, already copied into the current
    /// transmit buffer: the length word of the descriptor and the
    /// doorbell; the next descriptor becomes current. `LinkDown` while the
    /// link is down.
    pub fn send_packet(&mut self, len: usize) -> (r: EthResult<Vec<MmioOp>>)
        requires
            old(self).wf(),
            old(self).spec_tx_base() + old(self).spec_tx_cur() * DESC_SIZE + 4 <= usize::MAX,
        ensures
            final(self).wf(),
            !old(self).spec_link_up() ==> (r matches Err(e) && e == EthError::LinkDown)
                && final(self).spec_tx_cur() == old(self).spec_tx_cur(),
            old(self).spec_link_up() ==> (r matches Ok(ops) && ops@ == seq![
                MmioOp::Write32((old(self).spec_tx_base() + old(self).spec_tx_cur() * DESC_SIZE + 4) as usize,
                    (len as u32) | 0x0100_0000u32),
                MmioOp::Write32(0x5C, 0x01),
            ]) && final(self).spec_tx_cur() == (old(self).spec_tx_cur() + 1) % (old(self).spec_tx_entries() as int),
            final(self).spec_rx_cur() == old(self).spec_rx_cur(),
            final(self).spec_link_up() == old(self).spec_link_up(),
            final(self).spec_mac() == old(self).spec_mac(),
            final(self).spec_tx_entries() == old(self).spec_tx_entries(),
            final(self).spec_rx_entries() == old(self).spec_rx_entries(),
            final(self).spec_tx_base() == old(self).spec_tx_base(),
            final(self).spec_rx_base() == old(self).spec_rx_base(),
            final(self).spec_initialized() == old(self).spec_initialized(),
    {
        if !self.link_up {
            return Err(EthError::LinkDown);
        }
        let desc_addr = self.tx_desc_base + (self.tx_cur as usize) * DESC_SIZE;
        let mut ops: Vec<MmioOp> = Vec::new();
        ops.push(MmioOp::Write32(desc_addr + 4, (#[verifier::truncate] (len as u32)) | 0x0100_0000u32));
        self.tx_cur = (self.tx_cur + 1) % self.tx_entries;
        ops.push(MmioOp::Write32(0x5C, 0x01));
        Ok(ops)
    }

    /// Register offset of the current receive descriptor.
    pub fn rx_descriptor(&self) -> (r: usize)
        requires
            self.spec_rx_base() + self.spec_rx_cur() * DESC_SIZE <= usize::MAX,
        ensures
            r == self.spec_rx_base() + self.spec_rx_cur() * DESC_SIZE,
    {
        self.rx_desc_base + (self.rx_cur as usize) * DESC_SIZE
    }

    /// Length of the packet that descriptor flags `flags` announce, if one
    /// is ready.
    pub fn rx_ready(flags: u16) -> (r: Option<usize>)
        ensures
            flags & 0x8000 == 0 ==> r is None,
            flags & 0x8000 != 0 ==> r == Some((flags & 0x3FFF) as usize),
    {
        if flags & 0x8000 == 0 {
            return None;
        }
        Some((flags & 0x3FFF) as usize)
    }

    /// Takes the packet of the current receive descriptor, whose flags read
    /// `flags` and whose buffer holds `payload`: the packet, and the write
    /// that hands the descriptor back to the device; the next descriptor
    /// becomes current.
    pub fn receive_packet(&mut self, flags: u16, payload: &[u8]) -> (r: Option<(RxPacket, MmioOp)>)
        requires
            old(self).wf(),
            old(self).spec_rx_base() + old(self).spec_rx_cur() * DESC_SIZE + 12 <= usize::MAX,
            flags & 0x8000 != 0 ==> (flags & 0x3FFF) <= RX_BUFFER && payload@.len() >= (flags & 0x3FFF),
        ensures
            final(self).wf(),
            flags & 0x8000 == 0 ==> r is None && final(self).spec_rx_cur() == old(self).spec_rx_cur(),
            flags & 0x8000 != 0 ==> (r matches Some((p, op)) && ({
                let n = (flags & 0x3FFF) as int;
                &&& p.len == n
                &&& p.data@ == payload@.subrange(0, n) + Seq::new((RX_BUFFER - n) as nat, |i: int| 0u8)
                &&& op == MmioOp::Write16((old(self).spec_rx_base() + old(self).spec_rx_cur() * DESC_SIZE + 12) as usize, 0x0000)
            })) && final(self).spec_rx_cur() == (old(self).spec_rx_cur() + 1) % (old(self).spec_rx_entries() as int),
            final(self).spec_tx_cur() == old(self).spec_tx_cur(),
            final(self).spec_link_up() == old(self).spec_link_up(),
            final(self).spec_mac() == old(self).spec_mac(),
            final(self).spec_tx_entries() == old(self).spec_tx_entries(),
            final(self).spec_rx_entries() == old(self).spec_rx_entries(),
            final(self).spec_tx_base() == old(self).spec_tx_base(),
            final(self).spec_rx_base() == old(self).spec_rx_base(),
            final(self).spec_initialized() == old(self).spec_initialized(),
    {
        if flags & 0x8000 == 0 {
            return None;
        }
        let desc_addr = self.rx_desc_base + (self.rx_cur as usize) * DESC_SIZE;
        let pkt_len = (flags & 0x3FFF) as usize;
        let mut data = [0u8; 2048];
        let mut i: usize = 0;
        while i < pkt_len
            invariant
                i <= pkt_len,
                pkt_len <= RX_BUFFER,
                pkt_len <= payload@.len(),
                forall|k: int| 0 <= k < i ==> data@[k] == payload@[k],
                forall|k: int| i <= k < RX_BUFFER ==> data@[k] == 0u8,
            decreases pkt_len - i,
        {
            data[i] = payload[i];
            i = i + 1;
        }
        assert(data@ =~= payload@.subrange(0, pkt_len as int) + Seq::new((RX_BUFFER - pkt_len) as nat, |i: int| 0u8));
        let packet = RxPacket { data, len: pkt_len as u16 };
        self.rx_cur = (self.rx_cur + 1) % self.rx_entries;
        Some((packet, MmioOp::Write16(desc_addr + 12, 0x0000)))
    }
}

pub fn mac_from(low: u32, high: u16) -> (r: [u8; 6])
    ensures
        r@ == mac_spec(low, high),
{
    let r = [
        #[verifier::truncate] (low as u8),
        #[verifier::truncate] ((low >> 8u32) as u8),
        #[verifier::truncate] ((low >> 16u32) as u8),
        #[verifier::truncate] ((low >> 24u32) as u8),
        #[verifier::truncate] (high as u8),
        #[verifier::truncate] ((high >> 8u16) as u8),
    ];
    assert(r@ =~= mac_spec(low, high));
    r
}

} // verus!
