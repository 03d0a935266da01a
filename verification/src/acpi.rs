use vstd::prelude::*;
use crate::bytes::{le16, le32, le64, read_le32, read_le64, read_array4, read_array6, read_array8};

verus! {

pub type AcpiResult<T> = Result<T, AcpiError>;

#[derive(Debug, Clone, Copy, PartialEq, Eq, Structural)]
pub enum AcpiError {
    NoRsdp,
    BadChecksum,
    TableNotFound,
    NotSupported,
    HwPlatformError,
}

/// Root system description pointer, as laid out in memory (packed).
#[derive(Debug, Clone, Copy)]
pub struct Rsdp {
    pub signature: [u8; 8],
    pub checksum: u8,
    pub oem_id: [u8; 6],
    pub revision: u8,
    pub rsdt_address: u32,
    pub xsdt_address: u64,
    pub ext_checksum: u8,
}

/// Header shared by all system description tables (packed).
#[derive(Debug, Clone, Copy)]
pub struct SdtHeader {
    pub signature: [u8; 4],
    pub length: u32,
    pub revision: u8,
    pub checksum: u8,
    pub oem_id: [u8; 6],
    pub oem_table_id: [u8; 8],
    pub oem_revision: u32,
    pub creator_id: u32,
    pub creator_revision: u32,
}

#[derive(Debug, Clone, Copy, PartialEq, Eq, Structural)]
pub struct GenericAddress {
    pub address_space: u8,
    pub bit_width: u8,
    pub bit_offset: u8,
    pub access_size: u8,
    pub address: u64,
}

#[derive(Debug, Clone, Copy, PartialEq, Eq, Structural)]
pub enum PowerState {
    G0Working,
    G1Sleeping,
    G2SoftOff,
    G3MechanicalOff,
}

#[derive(Debug, Clone, Copy, PartialEq, Eq, Structural)]
pub struct AcpiPmResource {
    pub pm1a_cnt_blk: u16,
    pub pm1b_cnt_blk: u16,
    pub pm1a_evt_blk: u16,
    pub pm1b_evt_blk: u16,
}

/// A 16-bit write to a physical address.
#[derive(Debug, Clone, Copy, PartialEq, Eq, Structural)]
pub struct MemWrite16 {
    pub address: usize,
    pub value: u16,
}

/// An 8-bit write to a physical address.
#[derive(Debug, Clone, Copy, PartialEq, Eq, Structural)]
pub struct MemWrite8 {
    pub address: usize,
    pub value: u8,
}

pub const RSDP_SIZE: usize = 29;
pub const SDT_HEADER_SIZE: usize = 36;
/// Bytes of the FADT read for the power-management blocks.
pub const FACP_PM_END: usize = 72;
/// Offset of the reset register in the FADT, and of the reset value.
pub const FACP_RESET_REG: usize = 152;
pub const FACP_RESET_VALUE: usize = 164;

/// "RSD PTR ".
pub open spec fn rsdp_signature() -> Seq<u8> {
    seq![0x52u8, 0x53u8, 0x44u8, 0x20u8, 0x50u8, 0x54u8, 0x52u8, 0x20u8]
}

/// "FACP".
pub open spec fn facp_signature() -> Seq<u8> {
    seq![0x46u8, 0x41u8, 0x43u8, 0x50u8]
}

pub fn facp_sig() -> (r: [u8; 4])
    ensures
        r@ == facp_signature(),
{
    let r = [0x46u8, 0x41u8, 0x43u8, 0x50u8];
    assert(r@ =~= facp_signature());
    r
}

/// SLP_EN with SLP_TYP 1, for the sleeping state.
pub const SLEEP_VALUE: u16 = 0x2400;
/// SLP_EN with SLP_TYP 5, for soft off.
pub const SOFT_OFF_VALUE: u16 = 0x3400;

/// Reads a root system description pointer from its bytes.
pub fn parse_rsdp(b: &[u8]) -> (r: Rsdp)
    requires
        b@.len() >= RSDP_SIZE,
    ensures
        r.signature@ == b@.subrange(0, 8),
        r.checksum == b@[8],
        r.oem_id@ == b@.subrange(9, 15),
        r.revision == b@[15],
        r.rsdt_address == le32(b@, 16),
        r.xsdt_address == le64(b@, 20),
        r.ext_checksum == b@[28],
{
    Rsdp {
        signature: read_array8(b, 0),
        checksum: b[8],
        oem_id: read_array6(b, 9),
        revision: b[15],
        rsdt_address: read_le32(b, 16),
        xsdt_address: read_le64(b, 20),
        ext_checksum: b[28],
    }
}

/// Reads a table header from its bytes.
pub fn parse_sdt_header(b: &[u8]) -> (r: SdtHeader)
    requires
        b@.len() >= SDT_HEADER_SIZE,
    ensures
        r.signature@ == b@.subrange(0, 4),
        r.length == le32(b@, 4),
        r.revision == b@[8],
        r.checksum == b@[9],
        r.oem_id@ == b@.subrange(10, 16),
        r.oem_table_id@ == b@.subrange(16, 24),
        r.oem_revision == le32(b@, 24),
        r.creator_id == le32(b@, 28),
        r.creator_revision == le32(b@, 32),
{
    SdtHeader {
        signature: read_array4(b, 0),
        length: read_le32(b, 4),
        revision: b[8],
        checksum: b[9],
        oem_id: read_array6(b, 10),
        oem_table_id: read_array8(b, 16),
        oem_revision: read_le32(b, 24),
        creator_id: read_le32(b, 28),
        creator_revision: read_le32(b, 32),
    }
}

/// Reads a generic address structure from its bytes.
pub fn parse_generic_address(b: &[u8], off: usize) -> (r: GenericAddress)
    requires
        off + 12 <= b@.len(),
    ensures
        r == (GenericAddress {
            address_space: b@[off as int],
            bit_width: b@[off + 1],
            bit_offset: b@[off + 2],
            access_size: b@[off + 3],
            address: le64(b@, off + 4),
        }),
{
    GenericAddress {
        address_space: b[off],
        bit_width: b[off + 1],
        bit_offset: b[off + 2],
        access_size: b[off + 3],
        address: read_le64(b, off + 4),
    }
}

fn bytes_equal(a: &[u8], b: &[u8]) -> (r: bool)
    ensures
        r == (a@ == b@),
{
    if a.len() != b.len() {
        return false;
    }
    let mut i: usize = 0;
    while i < a.len()
        invariant
            i <= a@.len(),
            a@.len() == b@.len(),
            forall|k: int| 0 <= k < i ==> a@[k] == b@[k],
        decreases a@.len() - i,
    {
        if a[i] != b[i] {
            return false;
        }
        i = i + 1;
    }
    assert(a@ =~= b@);
    true
}

/// The system description tables: the root table (RSDT or XSDT) and what
/// has been read from the FADT.
pub struct Acpi {
    rsdp: Rsdp,
    root_addr: usize,
    root_length: u32,
    xsdt_present: bool,
    pm_resource: Option<AcpiPmResource>,
    facp: Option<usize>,
}

/// Number of entries of a root table of `length` bytes: 4-byte entries in
/// an RSDT, 8-byte entries in an XSDT.
pub open spec fn entry_count_spec(length: u32, xsdt: bool) -> int {
    (length - SDT_HEADER_SIZE) / (if xsdt { 8int } else { 4int })
}

/// Index of the first entry whose table has signature `sig`.
pub open spec fn first_match(entries: Seq<(u64, [u8; 4])>, sig: Seq<u8>, from: int) -> Option<int>
    decreases entries.len() - from,
{
    if from >= entries.len() || from < 0 {
        None
    } else if entries[from].1@ == sig {
        Some(from)
    } else {
        first_match(entries, sig, from + 1)
    }
}

impl Acpi {
    pub closed spec fn spec_root_addr(&self) -> usize {
        self.root_addr
    }

    pub closed spec fn spec_xsdt(&self) -> bool {
        self.xsdt_present
    }

    pub closed spec fn spec_root_length(&self) -> u32 {
        self.root_length
    }

    pub closed spec fn spec_pm(&self) -> Option<AcpiPmResource> {
        self.pm_resource
    }

    pub closed spec fn spec_facp(&self) -> Option<usize> {
        self.facp
    }

    pub closed spec fn wf(&self) -> bool {
        self.root_length >= SDT_HEADER_SIZE
    }

    /// Address of the root table: the RSDT for revision 0, the XSDT after.
    pub fn root_address(rsdp: &Rsdp) -> (r: usize)
        ensures
            rsdp.revision == 0 ==> r == rsdp.rsdt_address as usize,
            rsdp.revision != 0 ==> r == rsdp.xsdt_address as usize,
    {
        if rsdp.revision == 0 {
            rsdp.rsdt_address as usize
        } else {
            #[verifier::truncate] (rsdp.xsdt_address as usize)
        }
    }

    /// Takes the tables over from the RSDP bytes and the header of the root
    /// table that it points to; `NoRsdp` when the signature is wrong.
    pub fn new(rsdp_bytes: &[u8], root_header: &[u8]) -> (r: AcpiResult<Self>)
        requires
            rsdp_bytes@.len() >= RSDP_SIZE,
            rsdp_bytes@.subrange(0, 8) == rsdp_signature() ==> root_header@.len() >= SDT_HEADER_SIZE
                && le32(root_header@, 4) >= SDT_HEADER_SIZE,
        ensures
            rsdp_bytes@.subrange(0, 8) != rsdp_signature() ==> r == Err::<Acpi, AcpiError>(AcpiError::NoRsdp),
            rsdp_bytes@.subrange(0, 8) == rsdp_signature() ==> (r matches Ok(a) && a.wf()
                && a.spec_xsdt() == (rsdp_bytes@[15] != 0)
                && a.spec_root_addr() == (if rsdp_bytes@[15] == 0 {
                    le32(rsdp_bytes@, 16) as usize
                } else {
                    le64(rsdp_bytes@, 20) as usize
                })
                && a.spec_root_length() == le32(root_header@, 4)
                && a.spec_pm() is None && a.spec_facp() is None),
    {
        let rsdp = parse_rsdp(rsdp_bytes);
        let sig = [0x52u8, 0x53u8, 0x44u8, 0x20u8, 0x50u8, 0x54u8, 0x52u8, 0x20u8];
        assert(sig@ =~= rsdp_signature());
        if !bytes_equal(rsdp.signature.as_slice(), sig.as_slice()) {
            return Err(AcpiError::NoRsdp);
        }
        let header = parse_sdt_header(root_header);
        let root_addr = Self::root_address(&rsdp);
        Ok(Self {
            rsdp,
            root_addr,
            root_length: header.length,
            xsdt_present: rsdp.revision != 0,
            pm_resource: None,
            facp: None,
        })
    }

    /// Number of table pointers in the root table.
    pub fn entry_count(&self) -> (r: usize)
        requires
            self.wf(),
        ensures
            r == entry_count_spec(self.spec_root_length(), self.spec_xsdt()),
    {
        let body = (self.root_length - 36) as usize;
        if self.xsdt_present { body / 8 } else { body / 4 }
    }

    /// Address of entry `i` of the root table, and its width in bytes.
    pub fn entry_location(&self, i: usize) -> (r: (usize, usize))
        requires
            self.spec_root_addr() + SDT_HEADER_SIZE + i * 8 <= usize::MAX,
        ensures
            r.1 == if self.spec_xsdt() { 8usize } else { 4usize },
            r.0 == self.spec_root_addr() + SDT_HEADER_SIZE + i * r.1,
    {
        let width: usize = if self.xsdt_present { 8 } else { 4 };
        (self.root_addr + SDT_HEADER_SIZE + i * width, width)
    }

    /// The table address held by a root-table entry whose bytes are `raw`:
    /// eight little-endian bytes in an XSDT, four in an RSDT.
    pub fn entry_address(&self, raw: &[u8]) -> (r: u64)
        requires
            raw@.len() >= if self.spec_xsdt() { 8int } else { 4int },
        ensures
            self.spec_xsdt() ==> r == le64(raw@, 0),
            !self.spec_xsdt() ==> r == le32(raw@, 0) as u64,
    {
        if self.xsdt_present {
            read_le64(raw, 0)
        } else {
            read_le32(raw, 0) as u64
        }
    }

    /// The address of the first table, among the root table's `entries`
    /// (each table's address and the signature found there), whose
    /// signature is `signature`.
    pub fn find_table(&self, signature: &[u8; 4], entries: &[(u64, [u8; 4])]) -> (r: Option<usize>)
        ensures
            r == match first_match(entries@, signature@, 0) {
                Some(i) => Some(entries@[i].0 as usize),
                None => None,
            },
    {
        let mut i: usize = 0;
        while i < entries.len()
            invariant
                i <= entries@.len(),
                first_match(entries@, signature@, 0) == first_match(entries@, signature@, i as int),
            decreases entries@.len() - i,
        {
            let (addr, sig) = entries[i];
            if bytes_equal(sig.as_slice(), signature.as_slice()) {
                return Some(#[verifier::truncate] (addr as usize));
            }
            i = i + 1;
        }
        None
    }

    /// Reads the power-management blocks from the FADT at `facp_addr`,
    /// whose bytes are `facp`; `TableNotFound` without a FADT.
    pub fn load_facp(&mut self, facp_addr: Option<usize>, facp: &[u8]) -> (r: AcpiResult<()>)
        requires
            facp_addr is Some ==> facp@.len() >= FACP_PM_END,
        ensures
            facp_addr is None ==> r == Err::<(), AcpiError>(AcpiError::TableNotFound)
                && final(self).spec_pm() == old(self).spec_pm() && final(self).spec_facp() == old(self).spec_facp(),
            facp_addr is Some ==> r is Ok && final(self).spec_facp() == facp_addr && final(self).spec_pm() == Some(
                AcpiPmResource {
                    pm1a_cnt_blk: le32(facp@, 64) as u16,
                    pm1b_cnt_blk: le32(facp@, 68) as u16,
                    pm1a_evt_blk: le32(facp@, 56) as u16,
                    pm1b_evt_blk: le32(facp@, 60) as u16,
                },
            ),
            final(self).spec_root_addr() == old(self).spec_root_addr(),
            final(self).spec_root_length() == old(self).spec_root_length(),
            final(self).spec_xsdt() == old(self).spec_xsdt(),
    {
        let addr = match facp_addr {
            Some(a) => a,
            None => return Err(AcpiError::TableNotFound),
        };
        self.pm_resource = Some(AcpiPmResource {
            pm1a_cnt_blk: #[verifier::truncate] (read_le32(facp, 64) as u16),
            pm1b_cnt_blk: #[verifier::truncate] (read_le32(facp, 68) as u16),
            pm1a_evt_blk: #[verifier::truncate] (read_le32(facp, 56) as u16),
            pm1b_evt_blk: #[verifier::truncate] (read_le32(facp, 60) as u16),
        });
        self.facp = Some(addr);
        Ok(())
    }

    pub fn pm_resource(&self) -> (r: Option<AcpiPmResource>)
        ensures
            r == self.spec_pm(),
    {
        self.pm_resource
    }

    /// The PM1a control write that enters `state`: sleeping and soft off
    /// are supported, given the power-management blocks.
    pub fn sleep(&self, state: PowerState) -> (r: AcpiResult<MemWrite16>)
        ensures
            self.spec_pm() is None ==> r == Err::<MemWrite16, AcpiError>(AcpiError::NotSupported),
            self.spec_pm() matches Some(pm) ==> r == match state {
                PowerState::G1Sleeping => Ok::<MemWrite16, AcpiError>(MemWrite16 { address: pm.pm1a_cnt_blk as usize, value: SLEEP_VALUE }),
                PowerState::G2SoftOff => Ok(MemWrite16 { address: pm.pm1a_cnt_blk as usize, value: SOFT_OFF_VALUE }),
                _ => Err(AcpiError::NotSupported),
            },
    {
        let pm = match self.pm_resource {
            Some(p) => p,
            None => return Err(AcpiError::NotSupported),
        };
        match state {
            PowerState::G1Sleeping => {
                let slp_typa = 1u16;
                let slp_typb = 0u16;
                let val = ((slp_typa << 10u16) | (slp_typb << 10u16)) | (1u16 << 13u16);
                assert(val == SLEEP_VALUE) by (bit_vector)
                    requires
                        slp_typa == 1u16,
                        slp_typb == 0u16,
                        val == ((slp_typa << 10u16) | (slp_typb << 10u16)) | (1u16 << 13u16),
                ;
                Ok(MemWrite16 { address: pm.pm1a_cnt_blk as usize, value: val })
            },
            PowerState::G2SoftOff => Ok(MemWrite16 { address: pm.pm1a_cnt_blk as usize, value: soft_off_value() }),
            _ => Err(AcpiError::NotSupported),
        }
    }

    /// The write of the FADT reset register's value to its address; `facp`
    /// holds the FADT's bytes when one was found. `NotSupported` for a zero
    /// address or an address space other than memory and I/O.
    pub fn reboot(&self, facp_addr: Option<usize>, facp: &[u8]) -> (r: AcpiResult<MemWrite8>)
        requires
            facp_addr is Some ==> facp@.len() > FACP_RESET_VALUE,
        ensures
            facp_addr is None ==> r == Err::<MemWrite8, AcpiError>(AcpiError::TableNotFound),
            facp_addr is Some ==> r == ({
                let address = le64(facp@, FACP_RESET_REG + 4);
                let space = facp@[FACP_RESET_REG as int];
                if address == 0 || (space != 0 && space != 1) {
                    Err::<MemWrite8, AcpiError>(AcpiError::NotSupported)
                } else {
                    Ok(MemWrite8 { address: address as usize, value: facp@[FACP_RESET_VALUE as int] })
                }
            }),
    {
        if facp_addr.is_none() {
            return Err(AcpiError::TableNotFound);
        }
        let reg = parse_generic_address(facp, FACP_RESET_REG);
        let reset_value = facp[FACP_RESET_VALUE];
        if reg.address == 0 {
            return Err(AcpiError::NotSupported);
        }
        match reg.address_space {
            0 => Ok(MemWrite8 { address: #[verifier::truncate] (reg.address as usize), value: reset_value }),
            1 => Ok(MemWrite8 { address: #[verifier::truncate] (reg.address as usize), value: reset_value }),
            _ => Err(AcpiError::NotSupported),
        }
    }

    /// The PM1a control write for soft off; `TableNotFound` without a FADT,
    /// `NotSupported` without power-management blocks.
    pub fn shutdown(&self, facp_addr: Option<usize>) -> (r: AcpiResult<MemWrite16>)
        ensures
            facp_addr is None ==> r == Err::<MemWrite16, AcpiError>(AcpiError::TableNotFound),
            facp_addr is Some && self.spec_pm() is None ==> r == Err::<MemWrite16, AcpiError>(AcpiError::NotSupported),
            facp_addr is Some && self.spec_pm() is Some ==> r == Ok::<MemWrite16, AcpiError>(
                MemWrite16 { address: self.spec_pm()->0.pm1a_cnt_blk as usize, value: SOFT_OFF_VALUE },
            ),
    {
        if facp_addr.is_none() {
            return Err(AcpiError::TableNotFound);
        }
        let pm = match self.pm_resource {
            Some(p) => p,
            None => return Err(AcpiError::NotSupported),
        };
        Ok(MemWrite16 { address: pm.pm1a_cnt_blk as usize, value: soft_off_value() })
    }
}

fn soft_off_value() -> (r: u16)
    ensures
        r == SOFT_OFF_VALUE,
{
    let slp_typa = 5u16;
    let val = (slp_typa << 10u16) | (1u16 << 13u16);
    assert(val == SOFT_OFF_VALUE) by (bit_vector)
        requires
            slp_typa == 5u16,
            val == (slp_typa << 10u16) | (1u16 << 13u16),
    ;
    val
}

} // verus!
