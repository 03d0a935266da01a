use vstd::prelude::*;
use crate::mmio::{MmioOp, POLLS_SHORT};
use crate::bytes::le16;

verus! {

pub type UdcResult<T> = Result<T, UdcError>;

#[derive(Debug, Clone, Copy, PartialEq, Eq, Structural)]
pub enum UdcError {
    NotFound,
    InitFailed,
    EndpointError,
    Stall,
    BufferOverrun,
    Disconnected,
}

pub const MAX_ENDPOINTS: usize = 16;
/// Largest packet the endpoint FIFOs take.
pub const FIFO_SIZE: usize = 64;

#[derive(Debug, Clone, Copy, PartialEq, Eq, Structural)]
pub enum EndpointDir {
    Out,
    In,
    Bidirectional,
}

#[derive(Debug, Clone, Copy, PartialEq, Eq, Structural)]
pub enum TransferType {
    Control,
    Isochronous,
    Bulk,
    Interrupt,
}

impl EndpointDir {
    pub open spec fn spec_code(self) -> u8 {
        match self {
            EndpointDir::Out => 0,
            EndpointDir::In => 1,
            EndpointDir::Bidirectional => 2,
        }
    }

    /// Register code of the direction.
    pub fn code(self) -> (r: u8)
        ensures
            r == self.spec_code(),
    {
        match self {
            EndpointDir::Out => 0,
            EndpointDir::In => 1,
            EndpointDir::Bidirectional => 2,
        }
    }
}

impl TransferType {
    pub open spec fn spec_code(self) -> u8 {
        match self {
            TransferType::Control => 0,
            TransferType::Isochronous => 1,
            TransferType::Bulk => 2,
            TransferType::Interrupt => 3,
        }
    }

    /// Register code of the transfer type.
    pub fn code(self) -> (r: u8)
        ensures
            r == self.spec_code(),
    {
        match self {
            TransferType::Control => 0,
            TransferType::Isochronous => 1,
            TransferType::Bulk => 2,
            TransferType::Interrupt => 3,
        }
    }
}

#[derive(Debug, Clone, Copy, PartialEq, Eq, Structural)]
pub struct EndpointConfig {
    pub number: u8,
    pub dir: EndpointDir,
    pub max_packet: u16,
    pub transfer_type: TransferType,
}

#[derive(Debug, Clone, Copy, PartialEq, Eq, Structural)]
pub struct UsbDeviceDescriptor {
    pub bcd_usb: u16,
    pub device_class: u8,
    pub device_subclass: u8,
    pub device_protocol: u8,
    pub max_packet_size: u8,
    pub vendor_id: u16,
    pub product_id: u16,
    pub bcd_device: u16,
    pub manufacturer: u8,
    pub product: u8,
    pub serial: u8,
    pub num_configs: u8,
}

#[derive(Debug, Clone, Copy, PartialEq, Eq, Structural)]
pub enum SetupRequest {
    GetStatus,
    ClearFeature,
    SetFeature,
    SetAddress,
    GetDescriptor,
    SetDescriptor,
    GetConfiguration,
    SetConfiguration,
    GetInterface,
    SetInterface,
    SynchFrame,
    Unknown(u8),
}

/// The standard request with code `bm`.
pub open spec fn request_of(bm: u8) -> SetupRequest {
    if bm == 0x00 { SetupRequest::GetStatus }
    else if bm == 0x01 { SetupRequest::ClearFeature }
    else if bm == 0x03 { SetupRequest::SetFeature }
    else if bm == 0x05 { SetupRequest::SetAddress }
    else if bm == 0x06 { SetupRequest::GetDescriptor }
    else if bm == 0x07 { SetupRequest::SetDescriptor }
    else if bm == 0x08 { SetupRequest::GetConfiguration }
    else if bm == 0x09 { SetupRequest::SetConfiguration }
    else if bm == 0x0A { SetupRequest::GetInterface }
    else if bm == 0x0B { SetupRequest::SetInterface }
    else if bm == 0x0C { SetupRequest::SynchFrame }
    else { SetupRequest::Unknown(bm) }
}

/// The standard requests by code, 0 to 12; codes 2 and 4 are reserved.
pub open spec fn standard_requests() -> Seq<SetupRequest> {
    seq![
        SetupRequest::GetStatus,
        SetupRequest::ClearFeature,
        SetupRequest::Unknown(2),
        SetupRequest::SetFeature,
        SetupRequest::Unknown(4),
        SetupRequest::SetAddress,
        SetupRequest::GetDescriptor,
        SetupRequest::SetDescriptor,
        SetupRequest::GetConfiguration,
        SetupRequest::SetConfiguration,
        SetupRequest::GetInterface,
        SetupRequest::SetInterface,
        SetupRequest::SynchFrame,
    ]
}

/// A request code names the standard request at that position of the
/// USB table; reserved codes and codes above 12 are unknown and keep the
/// code.
pub proof fn lemma_request_codes(code: u8)
    ensures
        code <= 12 ==> request_of(code) == standard_requests()[code as int],
        code > 12 ==> request_of(code) == SetupRequest::Unknown(code),
{
}

impl SetupRequest {
    pub fn from_bm(bm: u8) -> (r: Self)
        ensures
            r == request_of(bm),
    {
        match bm {
            0x00 => Self::GetStatus,
            0x01 => Self::ClearFeature,
            0x03 => Self::SetFeature,
            0x05 => Self::SetAddress,
            0x06 => Self::GetDescriptor,
            0x07 => Self::SetDescriptor,
            0x08 => Self::GetConfiguration,
            0x09 => Self::SetConfiguration,
            0x0A => Self::GetInterface,
            0x0B => Self::SetInterface,
            0x0C => Self::SynchFrame,
            x => Self::Unknown(x),
        }
    }
}

#[derive(Debug, Clone, Copy, PartialEq, Eq, Structural)]
pub struct SetupPacket {
    pub bm_request_type: u8,
    pub b_request: u8,
    pub w_value: u16,
    pub w_index: u16,
    pub w_length: u16,
}

/// The writes that give the controller its device descriptor and EP0
/// packet size.
pub open spec fn descriptor_ops(desc: UsbDeviceDescriptor) -> Seq<MmioOp> {
    seq![
        MmioOp::Write16(0x10, desc.bcd_usb),
        MmioOp::Write8(0x12, desc.device_class),
        MmioOp::Write8(0x13, desc.device_subclass),
        MmioOp::Write8(0x14, desc.device_protocol),
        MmioOp::Write16(0x16, desc.vendor_id),
        MmioOp::Write16(0x18, desc.product_id),
        MmioOp::Write16(0x1A, desc.bcd_device),
        MmioOp::Write8(0x08, desc.max_packet_size),
    ]
}

/// Where the controller bring-up stands.
#[derive(Debug, Clone, Copy, PartialEq, Eq, Structural)]
pub enum UdcInit {
    Start,
    Vendor,
    Poll { n: u32 },
    Finished,
}

#[derive(Debug)]
pub enum UdcStep {
    Run(Vec<MmioOp>),
    Done(UdcResult<()>),
}

pub open spec fn udc_runs(r: UdcStep, ops: Seq<MmioOp>) -> bool {
    match r {
        UdcStep::Run(v) => v@ == ops,
        _ => false,
    }
}

/// Endpoint register block of endpoint `idx`.
pub open spec fn ep_reg(idx: int) -> usize {
    (0x20 + idx * 8) as usize
}

/// FIFO of endpoint `idx`.
pub open spec fn fifo_reg(idx: int) -> usize {
    (0x100 + idx * 0x20) as usize
}

pub struct UsbDeviceController {
    endpoints: Vec<Option<EndpointDir>>,
    address: u8,
    configured: bool,
    ep0_in_progress: bool,
    initialized: bool,
}

impl UsbDeviceController {
    pub closed spec fn wf(&self) -> bool {
        self.endpoints.len() == MAX_ENDPOINTS
    }

    pub closed spec fn spec_endpoints(&self) -> Seq<Option<EndpointDir>> {
        self.endpoints@
    }

    pub closed spec fn spec_address(&self) -> u8 {
        self.address
    }

    pub closed spec fn spec_configured(&self) -> bool {
        self.configured
    }

    pub closed spec fn spec_initialized(&self) -> bool {
        self.initialized
    }

    /// Endpoint `ep` exists and is configured.
    pub open spec fn ep_ready(&self, ep: u8) -> bool {
        ep < MAX_ENDPOINTS && self.spec_endpoints()[ep as int] is Some
    }

    pub fn new() -> (r: Self)
        ensures
            r.wf(),
            r.spec_endpoints() == Seq::new(16, |i: int| None::<EndpointDir>),
            r.spec_address() == 0,
            !r.spec_configured(),
            !r.spec_initialized(),
    {
        let mut endpoints: Vec<Option<EndpointDir>> = Vec::new();
        let mut i: usize = 0;
        while i < MAX_ENDPOINTS
            invariant
                i <= MAX_ENDPOINTS,
                endpoints@ == Seq::new(i as nat, |k: int| None::<EndpointDir>),
            decreases MAX_ENDPOINTS - i,
        {
            endpoints.push(None);
            i = i + 1;
            assert(endpoints@ =~= Seq::new(i as nat, |k: int| None::<EndpointDir>));
        }
        Self { endpoints, address: 0, configured: false, ep0_in_progress: false, initialized: false }
    }

    /// One step of the bring-up with descriptor `desc`; `v` is the value of
    /// the last read. It checks the vendor register (`NotFound` when it reads
    /// all ones or zero), enables the controller and waits for it, then
    /// writes the device descriptor and EP0 size and opens EP0.
    pub fn init(&mut self, st: &mut UdcInit, v: u32, desc: &UsbDeviceDescriptor) -> (r: UdcStep)
        requires
            old(self).wf(),
        ensures
            final(self).wf(),
            final(self).spec_address() == old(self).spec_address(),
            match *old(st) {
                UdcInit::Start => *final(st) == UdcInit::Vendor && udc_runs(r, seq![MmioOp::Read16(0x00)])
                    && final(self).spec_endpoints() == old(self).spec_endpoints()
                    && final(self).spec_configured() == old(self).spec_configured()
                    && final(self).spec_initialized() == old(self).spec_initialized(),
                UdcInit::Vendor => final(self).spec_endpoints() == old(self).spec_endpoints()
                    && final(self).spec_configured() == old(self).spec_configured()
                    && final(self).spec_initialized() == old(self).spec_initialized()
                    && if (v as u16) == 0xFFFF || (v as u16) == 0 {
                        r == UdcStep::Done(Err(UdcError::NotFound)) && *final(st) == UdcInit::Finished
                    } else {
                        *final(st) == (UdcInit::Poll { n: 0 }) && udc_runs(r, seq![MmioOp::Write32(0x04, 0x01), MmioOp::Read32(0x04)])
                    },
                UdcInit::Poll { n } => if v & 0x01 != 0 || n >= POLLS_SHORT - 1 {
                    *final(st) == UdcInit::Finished && udc_runs(r, descriptor_ops(*desc))
                        && final(self).spec_endpoints() == old(self).spec_endpoints().update(0, Some(EndpointDir::Bidirectional))
                        && !final(self).spec_configured() && final(self).spec_initialized()
                } else {
                    *final(st) == (UdcInit::Poll { n: (n + 1) as u32 }) && udc_runs(r, seq![MmioOp::Read32(0x04)])
                        && final(self).spec_endpoints() == old(self).spec_endpoints()
                        && final(self).spec_configured() == old(self).spec_configured()
                        && final(self).spec_initialized() == old(self).spec_initialized()
                },
                UdcInit::Finished => *final(st) == UdcInit::Finished && r == UdcStep::Done(Ok(()))
                    && final(self).spec_endpoints() == old(self).spec_endpoints()
                    && final(self).spec_configured() == old(self).spec_configured()
                    && final(self).spec_initialized() == old(self).spec_initialized(),
            },
    {
        let mut ops: Vec<MmioOp> = Vec::new();
        match *st {
            UdcInit::Start => {
                ops.push(MmioOp::Read16(0x00));
                *st = UdcInit::Vendor;
                assert(ops@ =~= seq![MmioOp::Read16(0x00)]);
            },
            UdcInit::Vendor => {
                let vendor = #[verifier::truncate] (v as u16);
                if vendor == 0xFFFF || vendor == 0 {
                    *st = UdcInit::Finished;
                    return UdcStep::Done(Err(UdcError::NotFound));
                }
                ops.push(MmioOp::Write32(0x04, 0x01));
                ops.push(MmioOp::Read32(0x04));
                *st = UdcInit::Poll { n: 0 };
                assert(ops@ =~= seq![MmioOp::Write32(0x04, 0x01), MmioOp::Read32(0x04)]);
            },
            UdcInit::Poll { n } => {
                if v & 0x01 != 0 || n >= POLLS_SHORT - 1 {
                    ops.push(MmioOp::Write16(0x10, desc.bcd_usb));
                    ops.push(MmioOp::Write8(0x12, desc.device_class));
                    ops.push(MmioOp::Write8(0x13, desc.device_subclass));
                    ops.push(MmioOp::Write8(0x14, desc.device_protocol));
                    ops.push(MmioOp::Write16(0x16, desc.vendor_id));
                    ops.push(MmioOp::Write16(0x18, desc.product_id));
                    ops.push(MmioOp::Write16(0x1A, desc.bcd_device));
                    ops.push(MmioOp::Write8(0x08, desc.max_packet_size));
                    self.endpoints.set(0, Some(EndpointDir::Bidirectional));
                    self.configured = false;
                    self.initialized = true;
                    *st = UdcInit::Finished;
                    assert(ops@ =~= descriptor_ops(*desc));
                } else {
                    ops.push(MmioOp::Read32(0x04));
                    *st = UdcInit::Poll { n: n + 1 };
                    assert(ops@ =~= seq![MmioOp::Read32(0x04)]);
                }
            },
            UdcInit::Finished => {
                return UdcStep::Done(Ok(()));
            },
        }
        UdcStep::Run(ops)
    }

    /// Opens endpoint `config.number`: the writes of its number, direction,
    /// packet size, type and enable bit; `EndpointError` past endpoint 15.
    pub fn configure_endpoint(&mut self, config: &EndpointConfig) -> (r: UdcResult<Vec<MmioOp>>)
        requires
            old(self).wf(),
        ensures
            final(self).wf(),
            final(self).spec_address() == old(self).spec_address(),
            final(self).spec_configured() == old(self).spec_configured(),
            final(self).spec_initialized() == old(self).spec_initialized(),
            config.number >= MAX_ENDPOINTS ==> (r matches Err(e) && e == UdcError::EndpointError)
                && final(self).spec_endpoints() == old(self).spec_endpoints(),
            config.number < MAX_ENDPOINTS ==> (r matches Ok(ops) && ops@ == seq![
                MmioOp::Write8(ep_reg(config.number as int), config.number),
                MmioOp::Write8((ep_reg(config.number as int) + 1) as usize, config.dir.spec_code()),
                MmioOp::Write16((ep_reg(config.number as int) + 2) as usize, config.max_packet),
                MmioOp::Write8((ep_reg(config.number as int) + 4) as usize, config.transfer_type.spec_code()),
                MmioOp::Write8((ep_reg(config.number as int) + 5) as usize, 0x01),
            ]) && final(self).spec_endpoints() == old(self).spec_endpoints().update(config.number as int, Some(config.dir)),
    {
        let idx = config.number as usize;
        if idx >= MAX_ENDPOINTS {
            return Err(UdcError::EndpointError);
        }
        let reg = 0x20 + idx * 8;
        let mut ops: Vec<MmioOp> = Vec::new();
        ops.push(MmioOp::Write8(reg, config.number));
        ops.push(MmioOp::Write8(reg + 1, config.dir.code()));
        ops.push(MmioOp::Write16(reg + 2, config.max_packet));
        ops.push(MmioOp::Write8(reg + 4, config.transfer_type.code()));
        ops.push(MmioOp::Write8(reg + 5, 0x01));
        self.endpoints.set(idx, Some(config.dir));
        Ok(ops)
    }

    /// The setup packet, when status word `sts` shows one; `regs` are the
    /// eight bytes of the setup registers (request type, request, value,
    /// index, length, little endian).
    pub fn read_setup_packet(&self, sts: u32, regs: &[u8]) -> (r: Option<SetupPacket>)
        requires
            sts & 0x02 != 0 ==> regs@.len() >= 8,
        ensures
            sts & 0x02 == 0 ==> r is None,
            sts & 0x02 != 0 ==> r == Some(SetupPacket {
                bm_request_type: regs@[0],
                b_request: regs@[1],
                w_value: le16(regs@, 2),
                w_index: le16(regs@, 4),
                w_length: le16(regs@, 6),
            }),
    {
        if sts & 0x02 == 0 {
            return None;
        }
        Some(SetupPacket {
            bm_request_type: regs[0],
            b_request: regs[1],
            w_value: crate::bytes::read_le16(regs, 2),
            w_index: crate::bytes::read_le16(regs, 4),
            w_length: crate::bytes::read_le16(regs, 6),
        })
    }

    /// The writes that queue up to 64 bytes of `data` on endpoint `ep`;
    /// `EndpointError` for an endpoint that is not open.
    pub fn send_data(&self, ep: u8, data: &[u8]) -> (r: UdcResult<Vec<MmioOp>>)
        requires
            self.wf(),
        ensures
            !self.ep_ready(ep) ==> (r matches Err(e) && e == UdcError::EndpointError),
            self.ep_ready(ep) ==> (r matches Ok(ops) && ({
                let n = if data@.len() < FIFO_SIZE { data@.len() as int } else { FIFO_SIZE as int };
                &&& ops@.len() == n + 1
                &&& forall|i: int| 0 <= i < n ==> #[trigger] ops@[i] == MmioOp::Write8((fifo_reg(ep as int) + i) as usize, data@[i])
                &&& ops@[n] == MmioOp::Write16((0x04 + ep) as usize, n as u16)
            })),
    {
        let ep_idx = ep as usize;
        if ep_idx >= MAX_ENDPOINTS || self.endpoints[ep_idx].is_none() {
            return Err(UdcError::EndpointError);
        }
        let fifo = 0x100 + ep_idx * 0x20;
        let len = if data.len() < FIFO_SIZE { data.len() } else { FIFO_SIZE };
        let mut ops: Vec<MmioOp> = Vec::new();
        let mut i: usize = 0;
        while i < len
            invariant
                i <= len,
                len <= data@.len(),
                len <= FIFO_SIZE,
                fifo == fifo_reg(ep_idx as int),
                ep_idx == ep,
                ep_idx < MAX_ENDPOINTS,
                ops@.len() == i,
                forall|k: int| 0 <= k < i ==> #[trigger] ops@[k] == MmioOp::Write8((fifo_reg(ep as int) + k) as usize, data@[k]),
            decreases len - i,
        {
            ops.push(MmioOp::Write8(fifo + i, data[i]));
            i = i + 1;
        }
        ops.push(MmioOp::Write16(0x04 + ep_idx, len as u16));
        Ok(ops)
    }

    /// Checks endpoint `ep` for received data: `EndpointError` for an
    /// endpoint that is not open or whose status word `sts` shows nothing.
    /// Otherwise it gives the FIFO register to read from.
    pub fn receive_start(&self, ep: u8, sts: u16) -> (r: UdcResult<usize>)
        requires
            self.wf(),
        ensures
            !self.ep_ready(ep) || sts & 0x01 == 0 ==> (r matches Err(e) && e == UdcError::EndpointError),
            self.ep_ready(ep) && sts & 0x01 != 0 ==> r == Ok::<usize, UdcError>(fifo_reg(ep as int)),
    {
        let ep_idx = ep as usize;
        if ep_idx >= MAX_ENDPOINTS || self.endpoints[ep_idx].is_none() {
            return Err(UdcError::EndpointError);
        }
        if sts & 0x01 == 0 {
            return Err(UdcError::EndpointError);
        }
        Ok(0x100 + ep_idx * 0x20)
    }

    /// Copies a received packet into `buf`: the FIFO's first byte gives the
    /// length, and `fifo` holds the bytes read from the FIFO (at least as
    /// many as are copied). Returns how many bytes were copied.
    pub fn receive_data(&self, fifo: &[u8], buf: &mut [u8]) -> (r: u16)
        requires
            fifo@.len() >= 1,
            fifo@.len() >= (if (fifo@[0] as int) < old(buf)@.len() { fifo@[0] as int } else { old(buf)@.len() as int }),
        ensures
            ({
                let n = if (fifo@[0] as int) < old(buf)@.len() { fifo@[0] as int } else { old(buf)@.len() as int };
                &&& r == n
                &&& final(buf)@ == fifo@.subrange(0, n) + old(buf)@.subrange(n, old(buf)@.len() as int)
            }),
    {
        let len = fifo[0] as usize;
        let copy_len = if len < buf.len() { len } else { buf.len() };
        let mut i: usize = 0;
        while i < copy_len
            invariant
                i <= copy_len,
                copy_len <= buf@.len(),
                copy_len <= fifo@.len(),
                buf@.len() == old(buf)@.len(),
                forall|k: int| 0 <= k < i ==> buf@[k] == fifo@[k],
                forall|k: int| i <= k < buf@.len() ==> buf@[k] == old(buf)@[k],
            decreases copy_len - i,
        {
            buf[i] = fifo[i];
            i = i + 1;
        }
        assert(buf@ =~= fifo@.subrange(0, copy_len as int) + old(buf)@.subrange(copy_len as int, old(buf)@.len() as int));
        copy_len as u16
    }

    /// The write that stalls endpoint `ep`; nothing past endpoint 15.
    pub fn stall_ep(&self, ep: u8) -> (r: Option<MmioOp>)
        ensures
            ep < MAX_ENDPOINTS ==> r == Some(MmioOp::Write8((ep_reg(ep as int) + 6) as usize, 0x01)),
            ep >= MAX_ENDPOINTS ==> r is None,
    {
        let ep_idx = ep as usize;
        if ep_idx < MAX_ENDPOINTS {
            Some(MmioOp::Write8(0x20 + ep_idx * 8 + 6, 0x01))
        } else {
            None
        }
    }

    pub fn set_address(&mut self, addr: u8) -> (r: MmioOp)
        ensures
            r == MmioOp::Write8(0x08, addr),
            final(self).spec_address() == addr,
            final(self).spec_endpoints() == old(self).spec_endpoints(),
            final(self).spec_configured() == old(self).spec_configured(),
            final(self).spec_initialized() == old(self).spec_initialized(),
            final(self).wf() == old(self).wf(),
    {
        self.address = addr;
        MmioOp::Write8(0x08, addr)
    }

    pub fn set_configured(&mut self, configured: bool) -> (r: MmioOp)
        ensures
            r == MmioOp::Write32(0x0C, if configured { 0x01 } else { 0x00 }),
            final(self).spec_configured() == configured,
            final(self).spec_address() == old(self).spec_address(),
            final(self).spec_endpoints() == old(self).spec_endpoints(),
            final(self).spec_initialized() == old(self).spec_initialized(),
            final(self).wf() == old(self).wf(),
    {
        self.configured = configured;
        if configured {
            MmioOp::Write32(0x0C, 0x01)
        } else {
            MmioOp::Write32(0x0C, 0x00)
        }
    }
}

} // verus!
