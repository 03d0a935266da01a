use vstd::prelude::*;

verus! {

pub type PciResult<T> = Result<T, PciError>;

#[derive(Debug, Clone, Copy, PartialEq, Eq, Structural)]
pub enum PciError {
    DeviceNotFound,
    InvalidVendor,
    BarInvalid,
    InvalidBusRange,
    ConfigAccessFailed,
}

/// Location of a function on the PCI bus.
#[derive(Debug, Clone, Copy, PartialEq, Eq, Structural)]
pub struct PciAddress {
    pub bus: u8,
    pub device: u8,
    pub function: u8,
}

/// Port-I/O configuration address: enable bit, bus, device, function and
/// the dword-aligned register offset.
pub open spec fn config_addr_spec(a: PciAddress, offset: u8) -> u32 {
    (((0x8000_0000u32 | ((a.bus as u32) << 16u32)) | ((a.device as u32) << 11u32))
        | ((a.function as u32) << 8u32)) | ((offset as u32) & 0xFCu32)
}

/// Offset of a register in the memory-mapped configuration space.
pub open spec fn mmio_offset_spec(a: PciAddress, offset: u8) -> usize {
    ((((a.bus as usize) << 20usize) | ((a.device as usize) << 15usize)) | ((a.function as usize) << 12usize))
        | (offset as usize)
}

impl PciAddress {
    pub fn new(bus: u8, device: u8, function: u8) -> (r: Self)
        ensures
            r == (PciAddress { bus, device, function }),
    {
        PciAddress { bus, device, function }
    }

    pub fn to_config_addr(&self, offset: u8) -> (r: u32)
        ensures
            r == config_addr_spec(*self, offset),
    {
        (((0x8000_0000u32 | ((self.bus as u32) << 16u32)) | ((self.device as u32) << 11u32))
            | ((self.function as u32) << 8u32)) | ((offset as u32) & 0xFCu32)
    }

    pub fn mmio_offset(&self, offset: u8) -> (r: usize)
        ensures
            r == mmio_offset_spec(*self, offset),
    {
        ((((self.bus as usize) << 20usize) | ((self.device as usize) << 15usize)) | ((self.function as usize) << 12usize))
            | (offset as usize)
    }
}

#[derive(Debug, Clone, Copy, PartialEq, Eq, Structural)]
pub struct PciDeviceInfo {
    pub address: PciAddress,
    pub vendor_id: u16,
    pub device_id: u16,
    pub revision: u8,
    pub class: u8,
    pub subclass: u8,
    pub prog_if: u8,
    pub header_type: u8,
    pub subsystem_vendor: u16,
    pub subsystem_id: u16,
}

#[derive(Debug, Clone, Copy, PartialEq, Eq, Structural)]
pub struct Bar {
    pub address: u64,
    pub size: u64,
    pub is_mmio: bool,
    pub is_prefetchable: bool,
}

/// How configuration space is reached.
#[derive(Debug, Clone, Copy, PartialEq, Eq, Structural)]
pub enum PciConfigMode {
    Io,
    Mmio { base: usize, size: usize },
}

/// One configuration-space access.
#[derive(Debug, Clone, Copy, PartialEq, Eq, Structural)]
pub enum ConfigAccess {
    /// Write the address to port 0xCF8, then use port 0xCFC.
    Port(u32),
    /// Use this offset in the configuration window.
    Window(usize),
}

pub const CONFIG_ADDRESS_PORT: u16 = 0xCF8;
pub const CONFIG_DATA_PORT: u16 = 0xCFC;

/// The 16-bit field at `offset` of a configuration dword.
pub open spec fn field16(dword: u32, offset: u8) -> u16 {
    (dword >> ((((offset as u32) & 0x02u32) * 8) as u32)) as u16
}

/// The byte at `offset` of a configuration dword.
pub open spec fn field8(dword: u32, offset: u8) -> u8 {
    (dword >> ((((offset as u32) & 0x03u32) * 8) as u32)) as u8
}

/// A dword with the 16-bit field at `offset` replaced by `val`.
pub open spec fn merge16_spec(old: u32, offset: u8, val: u16) -> u32 {
    let shift = (((offset as u32) & 0x02u32) * 8) as u32;
    (old & !(0xFFFFu32 << shift)) | ((val as u32) << shift)
}

proof fn lemma_low_bits(x: u32)
    by (bit_vector)
    ensures
        x & 0x02u32 <= 2,
        x & 0x03u32 <= 3,
{
}

pub fn config_field16(dword: u32, offset: u8) -> (r: u16)
    ensures
        r == field16(dword, offset),
{
    proof {
        lemma_low_bits(offset as u32);
    }
    let shift = ((offset as u32) & 0x02) * 8;
    #[verifier::truncate] ((dword >> shift) as u16)
}

pub fn config_field8(dword: u32, offset: u8) -> (r: u8)
    ensures
        r == field8(dword, offset),
{
    proof {
        lemma_low_bits(offset as u32);
    }
    let shift = ((offset as u32) & 0x03) * 8;
    #[verifier::truncate] ((dword >> shift) as u8)
}

pub fn merge16(old: u32, offset: u8, val: u16) -> (r: u32)
    ensures
        r == merge16_spec(old, offset, val),
{
    proof {
        lemma_low_bits(offset as u32);
    }
    let shift = ((offset as u32) & 0x02) * 8;
    (old & !(0xFFFFu32 << shift)) | ((val as u32) << shift)
}

/// Writing a 16-bit field and reading it back gives the value written.
pub proof fn lemma_merge16_roundtrip(old: u32, offset: u8, val: u16)
    ensures
        field16(merge16_spec(old, offset, val), offset) == val,
{
    let o = (offset as u32) & 0x02u32;
    assert(o == 0 || o == 2) by (bit_vector)
        requires
            o == (offset as u32) & 0x02u32,
    ;
    if o == 0 {
        assert((((old & !(0xFFFFu32 << 0u32)) | ((val as u32) << 0u32)) >> 0u32) as u16 == val) by (bit_vector);
    } else {
        assert((((old & !(0xFFFFu32 << 16u32)) | ((val as u32) << 16u32)) >> 16u32) as u16 == val) by (bit_vector);
    }
}

/// Decoded base address register.
pub open spec fn bar_spec(bar_index: u8, low: u32, hi: u32, size_raw: u32) -> Bar {
    let is_mmio = low & 0x01 == 0;
    let mask = if is_mmio { size_raw & 0xFFFF_FFF0u32 } else { size_raw & 0xFFFCu32 };
    Bar {
        address: if is_mmio {
            if bar_index == 5 {
                ((low & 0xFFFF_FFF0u32) as u64) | ((hi as u64) << 32u64)
            } else {
                (low & 0xFFFF_FFF0u32) as u64
            }
        } else {
            (low & 0xFFFCu32) as u64
        },
        size: if mask == 0 { 0 } else { ((!mask) + 1) as u64 },
        is_mmio,
        is_prefetchable: is_mmio && low & 0x08 != 0,
    }
}

/// Configuration offset of BAR `i`.
pub open spec fn bar_register_spec(i: u8) -> u8 {
    (0x10 + i * 4) as u8
}

pub struct PciBus {
    config_mode: PciConfigMode,
}

impl PciBus {
    pub closed spec fn mode(&self) -> PciConfigMode {
        self.config_mode
    }

    pub fn new_io() -> (r: Self)
        ensures
            r.mode() == PciConfigMode::Io,
    {
        Self { config_mode: PciConfigMode::Io }
    }

    pub fn new_mmio(base: usize, size: usize) -> (r: Self)
        ensures
            r.mode() == (PciConfigMode::Mmio { base, size }),
    {
        Self { config_mode: PciConfigMode::Mmio { base, size } }
    }

    pub fn config_mode(&self) -> (r: PciConfigMode)
        ensures
            r == self.mode(),
    {
        self.config_mode
    }

    /// How to reach the configuration dword at `offset` of `addr`.
    pub fn config_access(&self, addr: PciAddress, offset: u8) -> (r: ConfigAccess)
        ensures
            self.mode() == PciConfigMode::Io ==> r == ConfigAccess::Port(config_addr_spec(addr, offset)),
            self.mode() != PciConfigMode::Io ==> r == ConfigAccess::Window(mmio_offset_spec(addr, offset)),
    {
        match self.config_mode {
            PciConfigMode::Io => ConfigAccess::Port(addr.to_config_addr(offset)),
            PciConfigMode::Mmio { .. } => ConfigAccess::Window(addr.mmio_offset(offset)),
        }
    }

    /// Configuration offset of BAR `bar_index`; `BarInvalid` past BAR 5.
    pub fn bar_register(bar_index: u8) -> (r: PciResult<u8>)
        ensures
            bar_index > 5 ==> r == Err::<u8, PciError>(PciError::BarInvalid),
            bar_index <= 5 ==> r == Ok::<u8, PciError>(bar_register_spec(bar_index)),
    {
        if bar_index > 5 {
            return Err(PciError::BarInvalid);
        }
        Ok(0x10 + bar_index * 4)
    }

    /// The upper half of the address is read too (the register after the
    /// BAR) for a memory BAR in slot 5.
    pub fn bar_has_high_half(bar_index: u8, low: u32) -> (r: bool)
        ensures
            r == (low & 0x01 == 0 && bar_index == 5),
    {
        low & 0x01 == 0 && bar_index == 5
    }

    /// Decodes BAR `bar_index` of `addr` from its value `low`, the next
    /// register `hi` (when `bar_has_high_half`), and the value `size_raw`
    /// that it read back after all ones were written to it.
    pub fn read_bar(&self, addr: PciAddress, bar_index: u8, low: u32, hi: u32, size_raw: u32) -> (r: PciResult<Bar>)
        ensures
            bar_index > 5 ==> r == Err::<Bar, PciError>(PciError::BarInvalid),
            bar_index <= 5 ==> r == Ok::<Bar, PciError>(bar_spec(bar_index, low, hi, size_raw)),
    {
        if bar_index > 5 {
            return Err(PciError::BarInvalid);
        }
        let is_mmio = low & 0x01 == 0;
        let is_prefetchable = if is_mmio { low & 0x08 != 0 } else { false };
        let address: u64 = if is_mmio {
            let addr_low = low & 0xFFFF_FFF0u32;
            if bar_index == 5 {
                (addr_low as u64) | ((hi as u64) << 32u64)
            } else {
                addr_low as u64
            }
        } else {
            (low & 0xFFFCu32) as u64
        };
        let mask = if is_mmio { size_raw & 0xFFFF_FFF0u32 } else { size_raw & 0xFFFCu32 };
        let size: u64 = if mask == 0 {
            0
        } else {
            assert(!mask < 0xFFFF_FFFFu32) by (bit_vector)
                requires
                    mask != 0,
            ;
            ((!mask) + 1) as u64
        };
        Ok(Bar { address, size, is_mmio, is_prefetchable })
    }

    /// The command register value that turns bus mastering on or off.
    pub fn bus_master_command(cmd: u16, enable: bool) -> (r: u16)
        ensures
            r == if enable { cmd | 0x04u16 } else { cmd & !0x04u16 },
    {
        if enable { cmd | 0x04 } else { cmd & !0x04u16 }
    }
}

/// A memory BAR's size and its size mask add up to 2^32: the size is the
/// two's complement of the mask.
pub proof fn lemma_bar_size_complement(bar_index: u8, low: u32, hi: u32, size_raw: u32)
    requires
        low & 0x01 == 0,
        size_raw & 0xFFFF_FFF0u32 != 0,
    ensures
        bar_spec(bar_index, low, hi, size_raw).size + (size_raw & 0xFFFF_FFF0u32) == 0x1_0000_0000,
{
    let mask = size_raw & 0xFFFF_FFF0u32;
    assert((((!mask) + 1) as u64) + mask == 0x1_0000_0000) by (bit_vector)
        requires
            mask != 0,
    ;
}

/// Where the bus scan stands.
#[derive(Debug, Clone, Copy, PartialEq, Eq, Structural)]
pub enum PciScan {
    /// Read vendor of function 0 of `(bus, device)`.
    Slot { bus: u8, device: u8 },
    /// The slot has a device; read its header type.
    Header { bus: u8, device: u8 },
    /// Read the vendor of `function`; `nfunc` functions are scanned.
    Function { bus: u8, device: u8, function: u8, nfunc: u8, header: u8 },
    /// Reading the other fields of a present function; `got` is what is
    /// known so far and `field` how many fields have been read.
    Fields { info: PciDeviceInfo, nfunc: u8, field: u8 },
    Finished,
}

/// Next thing the scan asks for.
#[derive(Debug)]
pub enum ScanStep {
    /// Read the configuration dword at this offset of this function.
    Read(PciAddress, u8),
    Done(PciResult<Vec<PciDeviceInfo>>),
}

/// Configuration offsets of the fields read after the vendor id, in order:
/// device id, revision, class, subclass, programming interface,
/// subsystem vendor, subsystem id.
pub open spec fn field_offset(field: u8) -> u8 {
    if field == 0 { 0x02 }
    else if field == 1 { 0x08 }
    else if field == 2 { 0x0B }
    else if field == 3 { 0x0A }
    else if field == 4 { 0x09 }
    else if field == 5 { 0x2C }
    else { 0x2E }
}

/// `info` with field number `field` taken from configuration dword `v`.
pub open spec fn with_field(info: PciDeviceInfo, field: u8, v: u32) -> PciDeviceInfo {
    let off = field_offset(field);
    if field == 0 { PciDeviceInfo { device_id: field16(v, off), ..info } }
    else if field == 1 { PciDeviceInfo { revision: field8(v, off), ..info } }
    else if field == 2 { PciDeviceInfo { class: field8(v, off), ..info } }
    else if field == 3 { PciDeviceInfo { subclass: field8(v, off), ..info } }
    else if field == 4 { PciDeviceInfo { prog_if: field8(v, off), ..info } }
    else if field == 5 { PciDeviceInfo { subsystem_vendor: field16(v, off), ..info } }
    else { PciDeviceInfo { subsystem_id: field16(v, off), ..info } }
}

/// Each field is taken from its place in the configuration header: device
/// id at 0x02, revision at 0x08, programming interface at 0x09, subclass
/// at 0x0A, class at 0x0B, subsystem vendor at 0x2C and subsystem id at
/// 0x2E, each field read once.
pub proof fn lemma_field_places(info: PciDeviceInfo, v: u32)
    ensures
        with_field(info, 0, v).device_id == field16(v, 0x02),
        with_field(info, 1, v).revision == field8(v, 0x08),
        with_field(info, 4, v).prog_if == field8(v, 0x09),
        with_field(info, 3, v).subclass == field8(v, 0x0A),
        with_field(info, 2, v).class == field8(v, 0x0B),
        with_field(info, 5, v).subsystem_vendor == field16(v, 0x2C),
        with_field(info, 6, v).subsystem_id == field16(v, 0x2E),
        forall|f: u8, g: u8| f < 7 && g < 7 && f != g ==> field_offset(f) != field_offset(g),
{
}

/// Fields read after the vendor id.
pub const FIELDS: u8 = 7;

/// The slot after `(bus, device)`, or the end of the scan.
pub open spec fn next_slot(bus: u8, device: u8) -> PciScan {
    if device < 31 {
        PciScan::Slot { bus, device: (device + 1) as u8 }
    } else if bus < 255 {
        PciScan::Slot { bus: (bus + 1) as u8, device: 0 }
    } else {
        PciScan::Finished
    }
}

/// The scan position after `k` moves from one slot to the next, starting
/// at bus 0, slot 0.
pub open spec fn slot_after(k: nat) -> PciScan
    decreases k,
{
    if k == 0 {
        PciScan::Slot { bus: 0, device: 0 }
    } else {
        match slot_after((k - 1) as nat) {
            PciScan::Slot { bus, device } => next_slot(bus, device),
            other => other,
        }
    }
}

/// The scan visits every slot of every bus in order: slots 0 to 31 of
/// bus 0, then of bus 1, and so on up to bus 255, after which it ends.
pub proof fn lemma_scan_visits_every_slot(k: nat)
    requires
        k <= 256 * 32,
    ensures
        k < 256 * 32 ==> slot_after(k) == (PciScan::Slot { bus: (k / 32) as u8, device: (k % 32) as u8 }),
        k == 256 * 32 ==> slot_after(k) == PciScan::Finished,
    decreases k,
{
    if k > 0 {
        lemma_scan_visits_every_slot((k - 1) as nat);
        let j = (k - 1) as nat;
        assert(j < 256 * 32);
        if j % 32 < 31 {
            assert(k / 32 == j / 32 && k % 32 == j % 32 + 1);
        } else {
            assert(k / 32 == j / 32 + 1 && k % 32 == 0);
        }
    }
}

/// Within a bus, the slot after slot `d < 31` is slot `d + 1` of the same
/// bus; after slot 31 comes slot 0 of the next bus.
pub proof fn lemma_next_slot_steps(bus: u8, device: u8)
    ensures
        device < 31 ==> next_slot(bus, device) == (PciScan::Slot { bus, device: (device + 1) as u8 }),
        device >= 31 && bus < 255 ==> next_slot(bus, device) == (PciScan::Slot { bus: (bus + 1) as u8, device: 0 }),
        device >= 31 && bus == 255 ==> next_slot(bus, device) == PciScan::Finished,
{
}

/// The function after `function` of a slot, or the next slot.
pub open spec fn next_function(bus: u8, device: u8, function: u8, nfunc: u8, header: u8) -> PciScan {
    if function + 1 < nfunc {
        PciScan::Function { bus, device, function: (function + 1) as u8, nfunc, header }
    } else {
        next_slot(bus, device)
    }
}

/// The read that a scan state asks for.
pub open spec fn scan_read(s: PciScan) -> Option<(PciAddress, u8)> {
    match s {
        PciScan::Slot { bus, device } => Some((PciAddress { bus, device, function: 0 }, 0x00)),
        PciScan::Header { bus, device } => Some((PciAddress { bus, device, function: 0 }, 0x0E)),
        PciScan::Function { bus, device, function, .. } => Some((PciAddress { bus, device, function }, 0x00)),
        PciScan::Fields { info, field, .. } => Some((info.address, field_offset(field))),
        PciScan::Finished => None,
    }
}

/// The state after a scan state gets the dword `v` it asked for, and the
/// device it completes, if any.
pub open spec fn scan_next(s: PciScan, v: u32) -> (PciScan, Option<PciDeviceInfo>) {
    match s {
        PciScan::Slot { bus, device } => {
            let vendor = field16(v, 0x00);
            if vendor == 0xFFFF || vendor == 0 {
                (next_slot(bus, device), None)
            } else {
                (PciScan::Header { bus, device }, None)
            }
        },
        PciScan::Header { bus, device } => {
            let header = field8(v, 0x0E);
            (PciScan::Function { bus, device, function: 0, nfunc: if header & 0x80 != 0 { 8 } else { 1 }, header }, None)
        },
        PciScan::Function { bus, device, function, nfunc, header } => {
            let vendor = field16(v, 0x00);
            if vendor == 0xFFFF {
                (next_function(bus, device, function, nfunc, header), None)
            } else {
                (PciScan::Fields {
                    info: PciDeviceInfo {
                        address: PciAddress { bus, device, function },
                        vendor_id: vendor,
                        device_id: 0,
                        revision: 0,
                        class: 0,
                        subclass: 0,
                        prog_if: 0,
                        header_type: header,
                        subsystem_vendor: 0,
                        subsystem_id: 0,
                    },
                    nfunc,
                    field: 0,
                }, None)
            }
        },
        PciScan::Fields { info, nfunc, field } => {
            let info2 = with_field(info, field, v);
            if field + 1 < FIELDS {
                (PciScan::Fields { info: info2, nfunc, field: (field + 1) as u8 }, None)
            } else {
                (next_function(info.address.bus, info.address.device, info.address.function, nfunc, info.header_type), Some(info2))
            }
        },
        PciScan::Finished => (s, None),
    }
}

/// Counters of a scan state are in range.
pub open spec fn scan_ok(s: PciScan) -> bool {
    match s {
        PciScan::Slot { device, .. } => device <= 31,
        PciScan::Header { device, .. } => device <= 31,
        PciScan::Function { device, function, nfunc, .. } => device <= 31 && function < nfunc && nfunc <= 8,
        PciScan::Fields { info, nfunc, field } => info.address.device <= 31 && info.address.function < nfunc
            && nfunc <= 8 && field < FIELDS,
        PciScan::Finished => true,
    }
}

/// Position of a function in scan order.
pub open spec fn addr_key(a: PciAddress) -> int {
    a.bus * 256 + a.device * 8 + a.function
}

/// Position of the first function the scan has not decided on yet.
pub open spec fn scan_frontier(s: PciScan) -> int {
    match s {
        PciScan::Slot { bus, device } => bus * 256 + device * 8,
        PciScan::Header { bus, device } => bus * 256 + device * 8,
        PciScan::Function { bus, device, function, .. } => bus * 256 + device * 8 + function,
        PciScan::Fields { info, .. } => addr_key(info.address),
        PciScan::Finished => 65536int,
    }
}

/// The functions found so far are present ones, each once, in scan order,
/// all before the scan frontier.
pub open spec fn found_ordered(found: Seq<PciDeviceInfo>, s: PciScan) -> bool {
    &&& forall|i: int, j: int| 0 <= i < j < found.len() ==> addr_key(#[trigger] found[i].address) < addr_key(#[trigger] found[j].address)
    &&& forall|i: int| 0 <= i < found.len() ==> addr_key(#[trigger] found[i].address) < scan_frontier(s) && found[i].vendor_id != 0xFFFF
    &&& s matches PciScan::Fields { info, .. } ==> info.vendor_id != 0xFFFF
}

proof fn lemma_next_slot_frontier(bus: u8, device: u8)
    requires
        device <= 31,
    ensures
        scan_frontier(next_slot(bus, device)) >= bus * 256 + device * 8 + 8,
{
}

proof fn lemma_next_function_frontier(bus: u8, device: u8, function: u8, nfunc: u8, header: u8)
    requires
        device <= 31,
        function < nfunc,
        nfunc <= 8,
    ensures
        scan_frontier(next_function(bus, device, function, nfunc, header)) >= bus * 256 + device * 8 + function + 1,
{
    lemma_next_slot_frontier(bus, device);
}

/// A scan step keeps the functions found present, distinct and in order.
proof fn lemma_scan_keeps_found_ordered(s: PciScan, v: u32, found: Seq<PciDeviceInfo>)
    requires
        scan_ok(s),
    ensures
        found_ordered(found, s) ==> ({
            let (next, dev) = scan_next(s, v);
            found_ordered(match dev {
                Some(d) => found.push(d),
                None => found,
            }, next)
        }),
{
    if found_ordered(found, s) {
        match s {
            PciScan::Slot { bus, device } => {
                lemma_next_slot_frontier(bus, device);
            },
            PciScan::Function { bus, device, function, nfunc, header } => {
                lemma_next_function_frontier(bus, device, function, nfunc, header);
            },
            PciScan::Fields { info, nfunc, field } => {
                let info2 = with_field(info, field, v);
                assert(info2.address == info.address && info2.vendor_id == info.vendor_id);
                lemma_next_function_frontier(info.address.bus, info.address.device, info.address.function,
                    nfunc, info.header_type);
                if field + 1 >= FIELDS {
                    let f2 = found.push(info2);
                    assert forall|i: int, j: int| 0 <= i < j < f2.len() implies
                        addr_key(#[trigger] f2[i].address) < addr_key(#[trigger] f2[j].address) by {
                        if j == found.len() {
                            assert(f2[i] == found[i]);
                        } else {
                            assert(f2[i] == found[i] && f2[j] == found[j]);
                        }
                    }
                    assert forall|i: int| 0 <= i < f2.len() implies addr_key(#[trigger] f2[i].address)
                        < scan_frontier(scan_next(s, v).0) && f2[i].vendor_id != 0xFFFF by {
                        if i < found.len() {
                            assert(f2[i] == found[i]);
                        }
                    }
                }
            },
            _ => {},
        }
    }
}

impl PciBus {
    /// One step of the bus scan. `v` is the dword that the previous
    /// `Read` gave. Every bus and device is tried; a device whose vendor id
    /// reads all ones or zero is absent; a multi-function device (header
    /// bit 7) has its eight functions tried; each present function is
    /// recorded with its ids, class codes and subsystem ids. The scan ends
    /// with the list of functions found.
    pub fn enumerate(&self, st: &mut PciScan, found: &mut Vec<PciDeviceInfo>, v: u32) -> (r: ScanStep)
        requires
            scan_ok(*old(st)),
        ensures
            scan_ok(*final(st)),
            *old(st) != PciScan::Finished ==> ({
                let (next, dev) = scan_next(*old(st), v);
                &&& *final(st) == next
                &&& final(found)@ == match dev {
                    Some(d) => old(found)@.push(d),
                    None => old(found)@,
                }
                &&& match scan_read(next) {
                    Some((a, off)) => r == ScanStep::Read(a, off),
                    None => r matches ScanStep::Done(Ok(list)) && list@ == final(found)@,
                }
            }),
            *old(st) == PciScan::Finished ==> *final(st) == PciScan::Finished
                && (r matches ScanStep::Done(Ok(list)) && list@ == old(found)@),
            found_ordered(old(found)@, *old(st)) ==> found_ordered(final(found)@, *final(st)),
    {
        proof {
            lemma_scan_keeps_found_ordered(*st, v, found@);
        }
        match *st {
            PciScan::Slot { bus, device } => {
                let vendor = config_field16(v, 0x00);
                if vendor == 0xFFFF || vendor == 0 {
                    *st = next_slot_exec(bus, device);
                } else {
                    *st = PciScan::Header { bus, device };
                }
            },
            PciScan::Header { bus, device } => {
                let header = config_field8(v, 0x0E);
                let nfunc: u8 = if header & 0x80 != 0 { 8 } else { 1 };
                *st = PciScan::Function { bus, device, function: 0, nfunc, header };
            },
            PciScan::Function { bus, device, function, nfunc, header } => {
                let vendor = config_field16(v, 0x00);
                if vendor == 0xFFFF {
                    *st = next_function_exec(bus, device, function, nfunc, header);
                } else {
                    *st = PciScan::Fields {
                        info: PciDeviceInfo {
                            address: PciAddress { bus, device, function },
                            vendor_id: vendor,
                            device_id: 0,
                            revision: 0,
                            class: 0,
                            subclass: 0,
                            prog_if: 0,
                            header_type: header,
                            subsystem_vendor: 0,
                            subsystem_id: 0,
                        },
                        nfunc,
                        field: 0,
                    };
                }
            },
            PciScan::Fields { info, nfunc, field } => {
                let info2 = with_field_exec(info, field, v);
                if field + 1 < FIELDS {
                    *st = PciScan::Fields { info: info2, nfunc, field: field + 1 };
                } else {
                    found.push(info2);
                    *st = next_function_exec(info.address.bus, info.address.device, info.address.function, nfunc, info.header_type);
                }
            },
            PciScan::Finished => {},
        }
        match *st {
            PciScan::Slot { bus, device } => ScanStep::Read(PciAddress { bus, device, function: 0 }, 0x00),
            PciScan::Header { bus, device } => ScanStep::Read(PciAddress { bus, device, function: 0 }, 0x0E),
            PciScan::Function { bus, device, function, .. } => ScanStep::Read(PciAddress { bus, device, function }, 0x00),
            PciScan::Fields { info, field, .. } => ScanStep::Read(info.address, field_offset_exec(field)),
            PciScan::Finished => {
                let mut list: Vec<PciDeviceInfo> = Vec::new();
                let mut i: usize = 0;
                while i < found.len()
                    invariant
                        i <= found@.len(),
                        list@ == found@.take(i as int),
                    decreases found@.len() - i,
                {
                    list.push(found[i]);
                    i = i + 1;
                    assert(list@ =~= found@.take(i as int));
                }
                assert(found@.take(i as int) =~= found@);
                ScanStep::Done(Ok(list))
            },
        }
    }
}

fn next_slot_exec(bus: u8, device: u8) -> (r: PciScan)
    requires
        device <= 31,
    ensures
        r == next_slot(bus, device),
        scan_ok(r),
{
    if device < 31 {
        PciScan::Slot { bus, device: device + 1 }
    } else if bus < 255 {
        PciScan::Slot { bus: bus + 1, device: 0 }
    } else {
        PciScan::Finished
    }
}

fn next_function_exec(bus: u8, device: u8, function: u8, nfunc: u8, header: u8) -> (r: PciScan)
    requires
        device <= 31,
        function < nfunc,
        nfunc <= 8,
    ensures
        r == next_function(bus, device, function, nfunc, header),
        scan_ok(r),
{
    if function + 1 < nfunc {
        PciScan::Function { bus, device, function: function + 1, nfunc, header }
    } else {
        next_slot_exec(bus, device)
    }
}

fn field_offset_exec(field: u8) -> (r: u8)
    ensures
        r == field_offset(field),
{
    if field == 0 { 0x02 }
    else if field == 1 { 0x08 }
    else if field == 2 { 0x0B }
    else if field == 3 { 0x0A }
    else if field == 4 { 0x09 }
    else if field == 5 { 0x2C }
    else { 0x2E }
}

fn with_field_exec(info: PciDeviceInfo, field: u8, v: u32) -> (r: PciDeviceInfo)
    ensures
        r == with_field(info, field, v),
{
    let off = field_offset_exec(field);
    if field == 0 { PciDeviceInfo { device_id: config_field16(v, off), ..info } }
    else if field == 1 { PciDeviceInfo { revision: config_field8(v, off), ..info } }
    else if field == 2 { PciDeviceInfo { class: config_field8(v, off), ..info } }
    else if field == 3 { PciDeviceInfo { subclass: config_field8(v, off), ..info } }
    else if field == 4 { PciDeviceInfo { prog_if: config_field8(v, off), ..info } }
    else if field == 5 { PciDeviceInfo { subsystem_vendor: config_field16(v, off), ..info } }
    else { PciDeviceInfo { subsystem_id: config_field16(v, off), ..info } }
}

} // verus!
