use vstd::prelude::*;
use crate::mmio::{MmioOp, POLLS_LONG, POLLS_SHORT};

verus! {

pub type VirtioResult = Result<(), VirtioError>;

#[derive(Debug, Clone, Copy, PartialEq, Eq, Structural)]
pub enum VirtioError {
    NotFound,
    InitFailed,
    QueueFull,
    QueueEmpty,
    DeviceError,
    InvalidFeature,
    Timeout,
}

#[derive(Debug, Clone, Copy, PartialEq, Eq, Structural)]
pub enum VirtioDeviceType {
    Network,
    Block,
    Console,
    Entropy,
    MemoryBalloon,
    IoMemory,
    Rpmsg,
    Scsi,
    Audio,
    Gpu,
    Input,
    Vsock,
    Unknown,
}

/// The device type with virtio device id `id`.
pub open spec fn device_type_of(id: u32) -> VirtioDeviceType {
    if id == 1 { VirtioDeviceType::Network }
    else if id == 2 { VirtioDeviceType::Block }
    else if id == 3 { VirtioDeviceType::Console }
    else if id == 4 { VirtioDeviceType::Entropy }
    else if id == 5 { VirtioDeviceType::MemoryBalloon }
    else if id == 6 { VirtioDeviceType::IoMemory }
    else if id == 7 { VirtioDeviceType::Rpmsg }
    else if id == 8 { VirtioDeviceType::Scsi }
    else if id == 9 { VirtioDeviceType::Audio }
    else if id == 16 { VirtioDeviceType::Gpu }
    else if id == 18 { VirtioDeviceType::Input }
    else if id == 19 { VirtioDeviceType::Vsock }
    else { VirtioDeviceType::Unknown }
}

impl VirtioDeviceType {
    pub fn from_id(id: u32) -> (r: Self)
        ensures
            r == device_type_of(id),
    {
        match id {
            1 => Self::Network,
            2 => Self::Block,
            3 => Self::Console,
            4 => Self::Entropy,
            5 => Self::MemoryBalloon,
            6 => Self::IoMemory,
            7 => Self::Rpmsg,
            8 => Self::Scsi,
            9 => Self::Audio,
            16 => Self::Gpu,
            18 => Self::Input,
            19 => Self::Vsock,
            _ => Self::Unknown,
        }
    }
}

#[derive(Debug, Clone, Copy)]
pub struct VirtioPciCap {
    pub cap_vndr: u8,
    pub cap_next: u8,
    pub cap_len: u8,
    pub cfg_type: u8,
    pub bar: u8,
    pub _padding: [u8; 3],
    pub offset: u32,
    pub length: u32,
}

pub const VIRTIO_PCI_CAP_COMMON_CFG: u8 = 1;
pub const VIRTIO_PCI_CAP_NOTIFY_CFG: u8 = 2;
pub const VIRTIO_PCI_CAP_DEVICE_CFG: u8 = 4;

pub const VIRTIO_F_VERSION_1: u64 = 0x1_0000_0000;

pub const VIRTIO_BLK_T_IN: u32 = 0;
pub const VIRTIO_BLK_T_OUT: u32 = 1;
pub const VIRTIO_BLK_T_FLUSH: u32 = 4;

pub const VRING_DESC_F_NEXT: u16 = 1;
pub const VRING_DESC_F_WRITE: u16 = 2;

/// Entries in the available and used rings.
pub const RING_ENTRIES: usize = 256;

/// The "virt" magic value of a virtio MMIO device.
pub const VIRTIO_MAGIC: u32 = 0x74726976;

#[derive(Debug, Clone, Copy)]
pub struct VirtqDesc {
    pub addr: u64,
    pub len: u32,
    pub flags: u16,
    pub next: u16,
}

#[derive(Debug, Clone, Copy)]
pub struct VirtqAvail {
    pub flags: u16,
    pub idx: u16,
    pub ring: [u16; 256],
    pub used_event: u16,
}

#[derive(Debug, Clone, Copy, PartialEq, Eq, Structural)]
pub struct VirtqUsedElem {
    pub id: u32,
    pub len: u32,
}

#[derive(Debug, Clone, Copy)]
pub struct VirtqUsed {
    pub flags: u16,
    pub idx: u16,
    pub ring: [VirtqUsedElem; 256],
    pub avail_event: u16,
}

#[derive(Debug, Clone, Copy)]
pub struct VirtioBlkReq {
    pub type_: u32,
    pub reserved: u32,
    pub sector: u64,
}

#[derive(Debug, Clone, Copy)]
pub struct VirtioBlkResp {
    pub status: u8,
}

/// The descriptor free list: the `next` links of the table, its head and its
/// length.
pub struct FreeList {
    pub next: Seq<u16>,
    pub head: u16,
    pub num_free: u16,
}

/// The indices on a chain of `n` descriptors that starts at `head`.
pub open spec fn chain(next: Seq<u16>, head: u16, n: nat) -> Seq<u16>
    decreases n,
{
    if n == 0 {
        Seq::empty()
    } else {
        seq![head] + chain(next, if head < next.len() { next[head as int] } else { 0 }, (n - 1) as nat)
    }
}

/// The free descriptors, in the order they are handed out.
pub open spec fn free_chain(f: FreeList) -> Seq<u16> {
    chain(f.next, f.head, f.num_free as nat)
}

/// Taking a descriptor: the head, whose link becomes the new head.
pub open spec fn alloc_spec(f: FreeList) -> (FreeList, Option<u16>) {
    if f.num_free == 0 {
        (f, None)
    } else {
        (FreeList { next: f.next, head: f.next[f.head as int], num_free: (f.num_free - 1) as u16 }, Some(f.head))
    }
}

/// Giving a descriptor back: it links to the old head and becomes the head.
pub open spec fn free_spec(f: FreeList, d: u16) -> FreeList {
    FreeList { next: f.next.update(d as int, f.head), head: d, num_free: (f.num_free + 1) as u16 }
}

/// A virtqueue: the descriptor table, both rings and the free list.
pub struct VirtioQueue {
    pub desc: Vec<VirtqDesc>,
    pub avail: VirtqAvail,
    pub used: VirtqUsed,
    pub index: u16,
    pub size: u16,
    pub free_head: u16,
    pub num_free: u16,
}

impl VirtioQueue {
    /// The free-list part of the queue.
    pub open spec fn free_list(&self) -> FreeList {
        FreeList {
            next: Seq::new(self.desc@.len(), |i: int| self.desc@[i].next),
            head: self.free_head,
            num_free: self.num_free,
        }
    }

    /// A queue of `size` entries with every descriptor free.
    pub fn new(index: u16, size: u16, desc: Vec<VirtqDesc>, avail: VirtqAvail, used: VirtqUsed) -> (q: Self)
        ensures
            q.index == index,
            q.size == size,
            q.free_head == 0,
            q.num_free == size,
            q.desc@ == desc@,
            q.avail == avail,
            q.used == used,
    {
        Self { desc, avail, used, index, size, free_head: 0, num_free: size }
    }

    /// Takes the descriptor at the head of the free list.
    pub fn alloc_desc(&mut self) -> (r: Option<u16>)
        requires
            old(self).num_free > 0 ==> old(self).free_head < old(self).desc@.len(),
        ensures
            (final(self).free_list(), r) == alloc_spec(old(self).free_list()),
            final(self).desc@ == old(self).desc@,
            final(self).avail == old(self).avail,
            final(self).used == old(self).used,
            final(self).index == old(self).index,
            final(self).size == old(self).size,
    {
        if self.num_free == 0 {
            return None;
        }
        let desc_idx = self.free_head;
        self.free_head = self.desc[desc_idx as usize].next;
        self.num_free = self.num_free - 1;
        Some(desc_idx)
    }

    /// Puts descriptor `desc_idx` back at the head of the free list.
    pub fn free_desc(&mut self, desc_idx: u16)
        requires
            desc_idx < old(self).desc@.len(),
            old(self).num_free < u16::MAX,
        ensures
            final(self).free_list() == free_spec(old(self).free_list(), desc_idx),
            final(self).desc@.len() == old(self).desc@.len(),
            forall|i: int| 0 <= i < old(self).desc@.len() ==> {
                let d = #[trigger] final(self).desc@[i];
                let o = old(self).desc@[i];
                d.addr == o.addr && d.len == o.len && d.flags == o.flags
            },
            final(self).avail == old(self).avail,
            final(self).used == old(self).used,
            final(self).index == old(self).index,
            final(self).size == old(self).size,
    {
        let mut d = self.desc[desc_idx as usize];
        d.next = self.free_head;
        self.desc.set(desc_idx as usize, d);
        self.free_head = desc_idx;
        self.num_free = self.num_free + 1;
        assert(self.free_list().next =~= free_spec(old(self).free_list(), desc_idx).next);
    }

    /// Publishes descriptor chain `desc_idx` in the next slot of the
    /// available ring and advances its index (modulo 2^16).
    pub fn add_buf(&mut self, desc_idx: u16)
        requires
            old(self).size > 0,
            (old(self).avail.idx % old(self).size) < RING_ENTRIES,
        ensures
            final(self).avail.ring@ == old(self).avail.ring@.update(
                (old(self).avail.idx % old(self).size) as int, desc_idx),
            final(self).avail.idx == (old(self).avail.idx + 1) % 0x10000,
            final(self).avail.flags == old(self).avail.flags,
            final(self).avail.used_event == old(self).avail.used_event,
            final(self).desc@ == old(self).desc@,
            final(self).used == old(self).used,
            final(self).free_head == old(self).free_head,
            final(self).num_free == old(self).num_free,
            final(self).index == old(self).index,
            final(self).size == old(self).size,
    {
        let idx = self.avail.idx % self.size;
        self.avail.ring[idx as usize] = desc_idx;
        self.avail.idx = if self.avail.idx == u16::MAX { 0 } else { self.avail.idx + 1 };
    }

    pub fn used_idx(&self) -> (r: u16)
        ensures
            r == self.used.idx,
    {
        self.used.idx
    }

    /// The used-ring element at position `idx` modulo the queue size.
    pub fn get_used_elem(&self, idx: u16) -> (r: VirtqUsedElem)
        requires
            self.size > 0,
            (idx % self.size) < RING_ENTRIES,
        ensures
            r == self.used.ring@[(idx % self.size) as int],
    {
        self.used.ring[(idx as usize) % (self.size as usize)]
    }

    /// Value written to the notify register for this queue.
    pub fn notify_value(&self) -> (r: u16)
        ensures
            r == self.index,
    {
        self.index
    }
}

proof fn lemma_chain_unchanged(next: Seq<u16>, head: u16, n: nat, d: int, v: u16)
    requires
        !chain(next, head, n).contains(d as u16),
        0 <= d < next.len(),
        d <= u16::MAX,
    ensures
        chain(next.update(d, v), head, n) == chain(next, head, n),
    decreases n,
{
    if n > 0 {
        let h2 = if head < next.len() { next[head as int] } else { 0 };
        assert(chain(next, head, n)[0] == head);
        assert(head != d as u16);
        assert forall|x: u16| chain(next, h2, (n - 1) as nat).contains(x) implies chain(next, head, n).contains(x) by {
            let tail = chain(next, h2, (n - 1) as nat);
            let i = choose|i: int| 0 <= i < tail.len() && #[trigger] tail[i] == x;
            assert(chain(next, head, n)[i + 1] == x);
        }
        lemma_chain_unchanged(next, h2, (n - 1) as nat, d, v);
    }
}

/// Giving back a descriptor that is not free puts it at the front of the
/// free list and keeps the rest in order.
pub proof fn lemma_free_pushes_front(f: FreeList, d: u16)
    requires
        d < f.next.len(),
        f.num_free < u16::MAX,
        !free_chain(f).contains(d),
    ensures
        free_chain(free_spec(f, d)) == seq![d] + free_chain(f),
{
    lemma_chain_unchanged(f.next, f.head, f.num_free as nat, d as int, f.head);
    let g = free_spec(f, d);
    assert(g.next[d as int] == f.head);
    assert(chain(g.next, d, (f.num_free + 1) as nat) == seq![d] + chain(g.next, f.head, f.num_free as nat));
}

/// Taking a descriptor hands out the head of the free list and leaves the
/// rest of it.
pub proof fn lemma_alloc_takes_front(f: FreeList)
    requires
        f.num_free > 0,
        f.head < f.next.len(),
    ensures
        alloc_spec(f).1 == Some(free_chain(f)[0]),
        free_chain(alloc_spec(f).0) == free_chain(f).drop_first(),
{
    assert(free_chain(f) == seq![f.head] + chain(f.next, f.next[f.head as int], (f.num_free - 1) as nat));
    assert(free_chain(f).drop_first() =~= chain(f.next, f.next[f.head as int], (f.num_free - 1) as nat));
}

/// While the free list holds no descriptor twice, a descriptor that is
/// handed out is no longer on it, and the rest of it still holds none twice.
pub proof fn lemma_alloc_hands_out_once(f: FreeList)
    requires
        f.num_free > 0,
        f.head < f.next.len(),
        free_chain(f).no_duplicates(),
    ensures
        alloc_spec(f).1 matches Some(d) && !free_chain(alloc_spec(f).0).contains(d),
        free_chain(alloc_spec(f).0).no_duplicates(),
{
    lemma_alloc_takes_front(f);
    let c = free_chain(f);
    assert forall|i: int| 0 <= i < c.drop_first().len() implies c.drop_first()[i] != c[0] by {
        assert(c.drop_first()[i] == c[i + 1]);
    }
}

/// Taking a descriptor right after giving one back returns that descriptor
/// and leaves the free list as it was before.
pub proof fn lemma_free_then_alloc(f: FreeList, d: u16)
    requires
        d < f.next.len(),
        f.num_free < u16::MAX,
        !free_chain(f).contains(d),
    ensures
        alloc_spec(free_spec(f, d)).1 == Some(d),
        free_chain(alloc_spec(free_spec(f, d)).0) == free_chain(f),
        alloc_spec(free_spec(f, d)).0.head == f.head,
        alloc_spec(free_spec(f, d)).0.num_free == f.num_free,
{
    lemma_free_pushes_front(f, d);
    lemma_alloc_takes_front(free_spec(f, d));
    assert((seq![d] + free_chain(f)).drop_first() =~= free_chain(f));
}

/// Device state that the transport keeps.
pub struct VirtioTransport {
    base: usize,
    size: usize,
    device_type: VirtioDeviceType,
    device_features: u64,
    negotiated: u64,
    queue_notify_off: u32,
    initialized: bool,
}

/// Checks the magic value and version of a virtio MMIO header.
pub fn check_header(magic: u32, version: u32) -> (r: VirtioResult)
    ensures
        r is Ok <==> magic == VIRTIO_MAGIC && (version == 1 || version == 2),
        r is Err ==> r == Err::<(), VirtioError>(VirtioError::NotFound),
{
    if magic != VIRTIO_MAGIC {
        return Err(VirtioError::NotFound);
    }
    if version != 2 && version != 1 {
        return Err(VirtioError::NotFound);
    }
    Ok(())
}

/// The four status values written while the driver brings the device up:
/// acknowledge, driver, driver-ok and features-ok set in turn on `status`.
pub fn status_steps(status: u8) -> (r: [u8; 4])
    ensures
        r@ == seq![status | 0x01u8, status | 0x03u8, status | 0x07u8, status | 0x0Fu8],
{
    let r = [status | 0x01, status | 0x03, status | 0x07, status | 0x0F];
    assert(r@ =~= seq![status | 0x01u8, status | 0x03u8, status | 0x07u8, status | 0x0Fu8]);
    r
}

/// The status byte shows all four bring-up bits.
pub fn status_settled(status: u8) -> (r: bool)
    ensures
        r == (status & 0x0F == 0x0F),
{
    status & 0x0F == 0x0F
}

/// The status byte no longer shows the driver bit.
pub fn driver_bit_clear(status: u8) -> (r: bool)
    ensures
        r == (status & 0x02 == 0),
{
    status & 0x02 == 0
}

/// The status byte with the needs-reset bit added.
pub fn with_reset_bit(status: u8) -> (r: u8)
    ensures
        r == status | 0x10,
{
    status | 0x10
}

/// Where the status waits of a bring-up stand once the four status bits
/// have been written: waiting up to `POLLS_SHORT` reads for them to show,
/// about to set the needs-reset bit, waiting up to `POLLS_LONG` reads for
/// the driver bit to clear, or done.
#[derive(Debug, Clone, Copy, PartialEq, Eq, Structural)]
pub enum StatusWait {
    Settle { n: u32 },
    Raise,
    Reset { n: u32 },
    Finished,
}

/// A wait whose poll count is within its limit.
pub open spec fn status_wait_ok(w: StatusWait) -> bool {
    match w {
        StatusWait::Settle { n } => n < POLLS_SHORT,
        StatusWait::Reset { n } => n < POLLS_LONG,
        _ => true,
    }
}

/// The next wait state and the register accesses to make, given the value
/// of the status byte read last: each poll reads it again until the
/// awaited bits show or the polls run out.
pub open spec fn status_wait_next(w: StatusWait, status: u8) -> (StatusWait, Seq<MmioOp>) {
    match w {
        StatusWait::Settle { n } => if status & 0x0F == 0x0F || n + 1 >= POLLS_SHORT {
            (StatusWait::Raise, seq![MmioOp::Read8(0x22)])
        } else {
            (StatusWait::Settle { n: (n + 1) as u32 }, seq![MmioOp::Read8(0x22)])
        },
        StatusWait::Raise => (StatusWait::Reset { n: 0 }, seq![MmioOp::Write8(0x22, status | 0x10), MmioOp::Read8(0x22)]),
        StatusWait::Reset { n } => if status & 0x02 == 0 || n + 1 >= POLLS_LONG {
            (StatusWait::Finished, Seq::empty())
        } else {
            (StatusWait::Reset { n: (n + 1) as u32 }, seq![MmioOp::Read8(0x22)])
        },
        StatusWait::Finished => (StatusWait::Finished, Seq::empty()),
    }
}

/// One step of the status waits: `status` is the value of the last read
/// of the status byte. The accesses returned end with a read of it, whose
/// value is the next input, unless the waits are over.
pub fn status_wait_step(w: StatusWait, status: u8) -> (r: (StatusWait, Vec<MmioOp>))
    requires
        status_wait_ok(w),
    ensures
        r.0 == status_wait_next(w, status).0,
        r.1@ == status_wait_next(w, status).1,
        status_wait_ok(r.0),
{
    match w {
        StatusWait::Settle { n } => {
            if status_settled(status) || n + 1 >= POLLS_SHORT {
                (StatusWait::Raise, vec![MmioOp::Read8(0x22)])
            } else {
                (StatusWait::Settle { n: n + 1 }, vec![MmioOp::Read8(0x22)])
            }
        },
        StatusWait::Raise => (StatusWait::Reset { n: 0 }, vec![MmioOp::Write8(0x22, with_reset_bit(status)), MmioOp::Read8(0x22)]),
        StatusWait::Reset { n } => {
            if driver_bit_clear(status) || n + 1 >= POLLS_LONG {
                (StatusWait::Finished, Vec::new())
            } else {
                (StatusWait::Reset { n: n + 1 }, vec![MmioOp::Read8(0x22)])
            }
        },
        StatusWait::Finished => (StatusWait::Finished, Vec::new()),
    }
}

/// Where a transport bring-up stands: each state names the register whose
/// value, read by the previous step, is the next input.
#[derive(Debug, Clone, Copy, PartialEq, Eq, Structural)]
pub enum VirtioInit {
    Start,
    Magic,
    Version,
    DeviceId,
    Vendor,
    Features,
    Negotiated,
    Status,
    Wait { w: StatusWait },
    NotifyOff,
    Finished,
}

#[derive(Debug)]
pub enum VirtioStep {
    /// Perform these accesses; the value of the last read is the next input.
    Run(Vec<MmioOp>),
    Done(VirtioResult),
}

/// A bring-up state whose wait, if any, is within its poll limit.
pub open spec fn virtio_init_ok(st: VirtioInit) -> bool {
    match st {
        VirtioInit::Wait { w } => status_wait_ok(w) && w != StatusWait::Finished,
        _ => true,
    }
}

/// The next state, the accesses to make and, once the bring-up is over,
/// its result, given the value `v` of the last read: the magic value and
/// the version are checked (`NotFound` ends the bring-up before any other
/// access), the device id, vendor id and device features are read, the
/// driver features written and read back, the four status values written,
/// the two status waits run, and the queue notify offset read.
pub open spec fn virtio_init_next(st: VirtioInit, v: u64) -> (VirtioInit, Seq<MmioOp>, Option<VirtioResult>) {
    match st {
        VirtioInit::Start => (VirtioInit::Magic, seq![MmioOp::Read32(0x00)], None),
        VirtioInit::Magic => if v as u32 != VIRTIO_MAGIC {
            (VirtioInit::Finished, Seq::empty(), Some(Err(VirtioError::NotFound)))
        } else {
            (VirtioInit::Version, seq![MmioOp::Read32(0x04)], None)
        },
        VirtioInit::Version => if v as u32 != 1 && v as u32 != 2 {
            (VirtioInit::Finished, Seq::empty(), Some(Err(VirtioError::NotFound)))
        } else {
            (VirtioInit::DeviceId, seq![MmioOp::Read32(0x08)], None)
        },
        VirtioInit::DeviceId => (VirtioInit::Vendor, seq![MmioOp::Read32(0x0C)], None),
        VirtioInit::Vendor => (VirtioInit::Features, seq![MmioOp::Read64(0x10)], None),
        VirtioInit::Features => (VirtioInit::Negotiated,
            seq![MmioOp::Write32(0x20, VIRTIO_F_VERSION_1 as u32), MmioOp::Read64(0x20)], None),
        VirtioInit::Negotiated => (VirtioInit::Status, seq![MmioOp::Read8(0x22)], None),
        VirtioInit::Status => {
            let s = v as u8;
            (VirtioInit::Wait { w: StatusWait::Settle { n: 0 } }, seq![
                MmioOp::Write8(0x22, s | 0x01u8),
                MmioOp::Write8(0x22, s | 0x03u8),
                MmioOp::Write8(0x22, s | 0x07u8),
                MmioOp::Write8(0x22, s | 0x0Fu8),
                MmioOp::Read8(0x22),
            ], None)
        },
        VirtioInit::Wait { w } => {
            let (next, ops) = status_wait_next(w, v as u8);
            if next == StatusWait::Finished {
                (VirtioInit::NotifyOff, ops.push(MmioOp::Read32(0x30)), None)
            } else {
                (VirtioInit::Wait { w: next }, ops, None)
            }
        },
        VirtioInit::NotifyOff => (VirtioInit::Finished, Seq::empty(), Some(Ok(()))),
        VirtioInit::Finished => (VirtioInit::Finished, Seq::empty(), Some(Ok(()))),
    }
}

impl VirtioTransport {
    pub closed spec fn spec_device_type(&self) -> VirtioDeviceType {
        self.device_type
    }

    pub closed spec fn spec_features(&self) -> u64 {
        self.device_features
    }

    pub closed spec fn spec_negotiated(&self) -> u64 {
        self.negotiated
    }

    pub closed spec fn spec_notify_off(&self) -> u32 {
        self.queue_notify_off
    }

    pub closed spec fn spec_initialized(&self) -> bool {
        self.initialized
    }

    pub fn new(base: usize, size: usize) -> (t: Self)
        ensures
            t.spec_device_type() == VirtioDeviceType::Unknown,
            t.spec_features() == 0,
            t.spec_negotiated() == 0,
            t.spec_notify_off() == 0,
            !t.spec_initialized(),
    {
        Self {
            base,
            size,
            device_type: VirtioDeviceType::Unknown,
            device_features: 0,
            negotiated: 0,
            queue_notify_off: 0,
            initialized: false,
        }
    }

    /// One step of bringing the device up. `v` is the value of the last
    /// read asked for (unused for the first step). The state moves on as
    /// `virtio_init_next` says, the accesses it gives are returned to be
    /// made, and the values read are recorded: the device type from the
    /// device id, the device and negotiated features, and the notify
    /// offset, which also marks the device ready.
    pub fn init(&mut self, st: &mut VirtioInit, v: u64) -> (r: VirtioStep)
        requires
            virtio_init_ok(*old(st)),
        ensures
            virtio_init_ok(*final(st)),
            *final(st) == virtio_init_next(*old(st), v).0,
            match virtio_init_next(*old(st), v).2 {
                Some(res) => r == VirtioStep::Done(res),
                None => r matches VirtioStep::Run(ops) && ops@ == virtio_init_next(*old(st), v).1,
            },
            final(self).spec_device_type() == if *old(st) == VirtioInit::DeviceId {
                device_type_of(v as u32)
            } else {
                old(self).spec_device_type()
            },
            final(self).spec_features() == if *old(st) == VirtioInit::Features { v } else { old(self).spec_features() },
            final(self).spec_negotiated() == if *old(st) == VirtioInit::Negotiated { v } else { old(self).spec_negotiated() },
            final(self).spec_notify_off() == if *old(st) == VirtioInit::NotifyOff { v as u32 } else { old(self).spec_notify_off() },
            final(self).spec_initialized() == (old(self).spec_initialized() || *old(st) == VirtioInit::NotifyOff),
    {
        match *st {
            VirtioInit::Start => {
                *st = VirtioInit::Magic;
                VirtioStep::Run(vec![MmioOp::Read32(0x00)])
            },
            VirtioInit::Magic => {
                if #[verifier::truncate] (v as u32) != VIRTIO_MAGIC {
                    *st = VirtioInit::Finished;
                    VirtioStep::Done(Err(VirtioError::NotFound))
                } else {
                    *st = VirtioInit::Version;
                    VirtioStep::Run(vec![MmioOp::Read32(0x04)])
                }
            },
            VirtioInit::Version => {
                let version = #[verifier::truncate] (v as u32);
                if version != 1 && version != 2 {
                    *st = VirtioInit::Finished;
                    VirtioStep::Done(Err(VirtioError::NotFound))
                } else {
                    *st = VirtioInit::DeviceId;
                    VirtioStep::Run(vec![MmioOp::Read32(0x08)])
                }
            },
            VirtioInit::DeviceId => {
                self.device_type = VirtioDeviceType::from_id(#[verifier::truncate] (v as u32));
                *st = VirtioInit::Vendor;
                VirtioStep::Run(vec![MmioOp::Read32(0x0C)])
            },
            VirtioInit::Vendor => {
                *st = VirtioInit::Features;
                VirtioStep::Run(vec![MmioOp::Read64(0x10)])
            },
            VirtioInit::Features => {
                self.device_features = v;
                *st = VirtioInit::Negotiated;
                VirtioStep::Run(vec![MmioOp::Write32(0x20, #[verifier::truncate] (VIRTIO_F_VERSION_1 as u32)), MmioOp::Read64(0x20)])
            },
            VirtioInit::Negotiated => {
                self.negotiated = v;
                *st = VirtioInit::Status;
                VirtioStep::Run(vec![MmioOp::Read8(0x22)])
            },
            VirtioInit::Status => {
                let steps = status_steps(#[verifier::truncate] (v as u8));
                *st = VirtioInit::Wait { w: StatusWait::Settle { n: 0 } };
                VirtioStep::Run(vec![
                    MmioOp::Write8(0x22, steps[0]),
                    MmioOp::Write8(0x22, steps[1]),
                    MmioOp::Write8(0x22, steps[2]),
                    MmioOp::Write8(0x22, steps[3]),
                    MmioOp::Read8(0x22),
                ])
            },
            VirtioInit::Wait { w } => {
                let (next, mut ops) = status_wait_step(w, #[verifier::truncate] (v as u8));
                if next == StatusWait::Finished {
                    ops.push(MmioOp::Read32(0x30));
                    *st = VirtioInit::NotifyOff;
                } else {
                    *st = VirtioInit::Wait { w: next };
                }
                VirtioStep::Run(ops)
            },
            VirtioInit::NotifyOff => {
                self.queue_notify_off = #[verifier::truncate] (v as u32);
                self.initialized = true;
                *st = VirtioInit::Finished;
                VirtioStep::Done(Ok(()))
            },
            VirtioInit::Finished => VirtioStep::Done(Ok(())),
        }
    }

    /// Feature word written by the driver: only VERSION_1, in the low half
    /// of the register.
    pub fn driver_features(&self) -> (r: u32)
        ensures
            r == 0,
    {
        assert((VIRTIO_F_VERSION_1 as u32) == 0) by (bit_vector);
        VIRTIO_F_VERSION_1 as u32
    }

    /// Block transfers are not implemented.
    pub fn block_read(&mut self, sector: u64, buf: &mut [u8]) -> (r: VirtioResult)
        ensures
            r == Err::<(), VirtioError>(VirtioError::DeviceError),
            final(buf)@ == old(buf)@,
            *final(self) == *old(self),
    {
        Err(VirtioError::DeviceError)
    }

    /// Block transfers are not implemented.
    pub fn block_write(&mut self, sector: u64, buf: &[u8]) -> (r: VirtioResult)
        ensures
            r == Err::<(), VirtioError>(VirtioError::DeviceError),
            *final(self) == *old(self),
    {
        Err(VirtioError::DeviceError)
    }

    pub fn device_type(&self) -> (r: VirtioDeviceType)
        ensures
            r == self.spec_device_type(),
    {
        self.device_type
    }

    pub fn features(&self) -> (r: u64)
        ensures
            r == self.spec_features(),
    {
        self.device_features
    }

    pub fn notify_offset(&self) -> (r: u32)
        ensures
            r == self.spec_notify_off(),
    {
        self.queue_notify_off
    }
}

} // verus!
