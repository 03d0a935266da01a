use vstd::prelude::*;
use crate::mmio::MmioOp;

verus! {

pub type GpuResult<T> = Result<T, GpuError>;

#[derive(Debug, Clone, Copy, PartialEq, Eq, Structural)]
pub enum GpuError {
    NotFound,
    InitFailed,
    NoMemory,
    InvalidMode,
    CommandQueueFull,
    Timeout,
}

#[derive(Debug, Clone, Copy, PartialEq, Eq, Structural)]
pub struct DisplayMode {
    pub width: u32,
    pub height: u32,
    pub bpp: u8,
    pub pitch: u32,
    pub refresh_hz: u32,
}

#[derive(Debug, Clone, Copy, PartialEq, Eq, Structural)]
pub enum GpuVendor {
    Bochs,
    Virtio,
    Intel,
    Amd,
    Nvidia,
    Generic,
}

/// The vendor that a PCI vendor and device id pair names.
pub open spec fn vendor_spec(pci_vendor: u16, pci_device: u16) -> GpuVendor {
    if pci_vendor == 0x1234 && pci_device == 0x1111 {
        GpuVendor::Bochs
    } else if pci_vendor == 0x1AF4 && pci_device == 0x1050 {
        GpuVendor::Virtio
    } else if pci_vendor == 0x8086 {
        GpuVendor::Intel
    } else if pci_vendor == 0x1002 {
        GpuVendor::Amd
    } else if pci_vendor == 0x10DE {
        GpuVendor::Nvidia
    } else {
        GpuVendor::Generic
    }
}

/// Intel (0x8086), AMD (0x1002) and NVIDIA (0x10DE) adapters are known by
/// their vendor id alone, whatever the device id; the Bochs adapter only
/// as 1234:1111 and the virtio GPU only as 1AF4:1050; every other vendor
/// is generic.
pub proof fn lemma_vendor_ids(pci_vendor: u16, pci_device: u16)
    ensures
        vendor_spec(0x8086, pci_device) == GpuVendor::Intel,
        vendor_spec(0x1002, pci_device) == GpuVendor::Amd,
        vendor_spec(0x10DE, pci_device) == GpuVendor::Nvidia,
        vendor_spec(pci_vendor, pci_device) == GpuVendor::Bochs <==> pci_vendor == 0x1234 && pci_device == 0x1111,
        vendor_spec(pci_vendor, pci_device) == GpuVendor::Virtio <==> pci_vendor == 0x1AF4 && pci_device == 0x1050,
        pci_vendor != 0x8086 && pci_vendor != 0x1002 && pci_vendor != 0x10DE && pci_vendor != 0x1234
            && pci_vendor != 0x1AF4 ==> vendor_spec(pci_vendor, pci_device) == GpuVendor::Generic,
{
}

pub fn classify(pci_vendor: u16, pci_device: u16) -> (r: GpuVendor)
    ensures
        r == vendor_spec(pci_vendor, pci_device),
{
    if pci_vendor == 0x1234 && pci_device == 0x1111 {
        GpuVendor::Bochs
    } else if pci_vendor == 0x1AF4 && pci_device == 0x1050 {
        GpuVendor::Virtio
    } else if pci_vendor == 0x8086 {
        GpuVendor::Intel
    } else if pci_vendor == 0x1002 {
        GpuVendor::Amd
    } else if pci_vendor == 0x10DE {
        GpuVendor::Nvidia
    } else {
        GpuVendor::Generic
    }
}

/// Offset of the EDID register that holds byte `i`.
pub open spec fn edid_reg(i: int) -> usize {
    ((0x100 + i) as usize) & !0x03usize
}

/// Polls of the vertical-blank status.
pub const VBLANK_POLLS: u32 = 100_000;
pub const EDID_LEN: usize = 128;

#[derive(Debug)]
pub struct GpuDevice {
    vendor: GpuVendor,
    vram_base: usize,
    vram_size: usize,
    current_mode: Option<DisplayMode>,
    initialized: bool,
}

impl GpuDevice {
    pub closed spec fn spec_vendor(&self) -> GpuVendor {
        self.vendor
    }

    pub closed spec fn spec_vram_base(&self) -> usize {
        self.vram_base
    }

    pub closed spec fn spec_vram_size(&self) -> usize {
        self.vram_size
    }

    pub closed spec fn spec_mode(&self) -> Option<DisplayMode> {
        self.current_mode
    }

    pub closed spec fn spec_initialized(&self) -> bool {
        self.initialized
    }

    pub fn new(vendor: GpuVendor, vram_base: usize, vram_size: usize) -> (r: Self)
        ensures
            r.spec_vendor() == vendor,
            r.spec_vram_base() == vram_base,
            r.spec_vram_size() == vram_size,
            r.spec_mode() is None,
            !r.spec_initialized(),
    {
        Self { vendor, vram_base, vram_size, current_mode: None, initialized: false }
    }

    pub fn vendor(&self) -> (r: GpuVendor)
        ensures
            r == self.spec_vendor(),
    {
        self.vendor
    }

    pub fn vram_base(&self) -> (r: usize)
        ensures
            r == self.spec_vram_base(),
    {
        self.vram_base
    }

    pub fn vram_size(&self) -> (r: usize)
        ensures
            r == self.spec_vram_size(),
    {
        self.vram_size
    }

    pub fn current_mode(&self) -> (r: Option<DisplayMode>)
        ensures
            r == self.spec_mode(),
    {
        self.current_mode
    }

    pub fn is_initialized(&self) -> (r: bool)
        ensures
            r == self.spec_initialized(),
    {
        self.initialized
    }

    /// Marks the device ready once its vendor register reads `vendor_id`;
    /// an initialised device stays so whatever it reads. `NotFound` when the
    /// register reads 0xFFFF or zero.
    pub fn init(&mut self, vendor_id: u32) -> (r: GpuResult<()>)
        ensures
            old(self).spec_initialized() ==> r is Ok && final(self).spec_initialized(),
            !old(self).spec_initialized() && (vendor_id == 0xFFFF || vendor_id == 0) ==>
                r == Err::<(), GpuError>(GpuError::NotFound) && !final(self).spec_initialized(),
            !old(self).spec_initialized() && !(vendor_id == 0xFFFF || vendor_id == 0) ==>
                r is Ok && final(self).spec_initialized(),
            final(self).spec_vendor() == old(self).spec_vendor(),
            final(self).spec_vram_base() == old(self).spec_vram_base(),
            final(self).spec_vram_size() == old(self).spec_vram_size(),
            final(self).spec_mode() == old(self).spec_mode(),
    {
        if self.initialized {
            return Ok(());
        }
        if vendor_id == 0xFFFF || vendor_id == 0 {
            return Err(GpuError::NotFound);
        }
        self.initialized = true;
        Ok(())
    }

    /// Switches to `mode`: the pitch is the width times the bytes per
    /// pixel; the registers are programmed and the mode recorded.
    /// `InitFailed` before `init`, `NoMemory` when the frame does not fit in
    /// video memory.
    pub fn set_mode(&mut self, mode: &DisplayMode) -> (r: GpuResult<Vec<MmioOp>>)
        requires
            old(self).spec_initialized() ==> mode.width * (mode.bpp / 8) <= u32::MAX,
            old(self).spec_initialized() ==> mode.width * (mode.bpp / 8) * mode.height <= u32::MAX,
        ensures
            final(self).spec_vendor() == old(self).spec_vendor(),
            final(self).spec_vram_base() == old(self).spec_vram_base(),
            final(self).spec_vram_size() == old(self).spec_vram_size(),
            final(self).spec_initialized() == old(self).spec_initialized(),
            !old(self).spec_initialized() ==> (r matches Err(e) && e == GpuError::InitFailed)
                && final(self).spec_mode() == old(self).spec_mode(),
            old(self).spec_initialized() ==> ({
                let pitch = (mode.width * (mode.bpp / 8)) as u32;
                let fb_size = pitch * mode.height;
                if fb_size > (old(self).spec_vram_size() as u32) {
                    (r matches Err(e) && e == GpuError::NoMemory) && final(self).spec_mode() == old(self).spec_mode()
                } else {
                    &&& final(self).spec_mode() == Some(DisplayMode { pitch, ..*mode })
                    &&& r matches Ok(ops) && ops@ == seq![
                        MmioOp::Write32(0x08, mode.width),
                        MmioOp::Write32(0x0C, mode.height),
                        MmioOp::Write32(0x10, mode.bpp as u32),
                        MmioOp::Write32(0x14, pitch),
                        MmioOp::Write32(0x18, old(self).spec_vram_base() as u32),
                        MmioOp::Write32(0x1C, 0x01),
                    ]
                }
            }),
    {
        if !self.initialized {
            return Err(GpuError::InitFailed);
        }
        let bytes_per_pixel = (mode.bpp as u32) / 8;
        proof {
            vstd::arithmetic::mul::lemma_mul_nonnegative(mode.width as int, bytes_per_pixel as int);
            vstd::arithmetic::mul::lemma_mul_nonnegative(mode.width * bytes_per_pixel, mode.height as int);
            if mode.height >= 1 {
                vstd::arithmetic::mul::lemma_mul_inequality(1, mode.height as int, mode.width * bytes_per_pixel);
            }
        }
        let pitch = mode.width * bytes_per_pixel;
        let fb_size = pitch * mode.height;
        if fb_size > #[verifier::truncate] (self.vram_size as u32) {
            return Err(GpuError::NoMemory);
        }
        let stored = DisplayMode { width: mode.width, height: mode.height, bpp: mode.bpp, pitch, refresh_hz: mode.refresh_hz };
        let mut ops: Vec<MmioOp> = Vec::new();
        ops.push(MmioOp::Write32(0x08, mode.width));
        ops.push(MmioOp::Write32(0x0C, mode.height));
        ops.push(MmioOp::Write32(0x10, mode.bpp as u32));
        ops.push(MmioOp::Write32(0x14, pitch));
        ops.push(MmioOp::Write32(0x18, #[verifier::truncate] (self.vram_base as u32)));
        ops.push(MmioOp::Write32(0x1C, 0x01));
        self.current_mode = Some(stored);
        Ok(ops)
    }

    /// The write that shows the frame; `InvalidMode` before a mode is set.
    pub fn present(&self) -> (r: GpuResult<MmioOp>)
        ensures
            self.spec_mode() is None ==> r == Err::<MmioOp, GpuError>(GpuError::InvalidMode),
            self.spec_mode() is Some ==> r == Ok::<MmioOp, GpuError>(MmioOp::Write32(0x20, 0x01)),
    {
        if self.current_mode.is_none() {
            return Err(GpuError::InvalidMode);
        }
        Ok(MmioOp::Write32(0x20, 0x01))
    }

    /// A vertical blank is signalled by bit 0 of the status register.
    pub fn vblank_seen(status: u32) -> (r: bool)
        ensures
            r == (status & 0x01 != 0),
    {
        status & 0x01 != 0
    }

    /// The write that acknowledges a vertical blank.
    pub fn vblank_ack() -> (r: MmioOp)
        ensures
            r == MmioOp::Write32(0x24, 0x01),
    {
        MmioOp::Write32(0x24, 0x01)
    }

    /// One poll of the wait for a vertical blank: `status` is the status
    /// register, read after `polls_done` earlier polls saw none. A blank
    /// ends the wait with the write that acknowledges it; otherwise the wait
    /// goes on (`None`) until `VBLANK_POLLS` polls have seen none, which ends
    /// it with `Timeout`.
    pub fn vblank_poll(polls_done: u32, status: u32) -> (r: Option<GpuResult<MmioOp>>)
        requires
            polls_done < VBLANK_POLLS,
        ensures
            status & 0x01 != 0 ==> r == Some(Ok::<MmioOp, GpuError>(MmioOp::Write32(0x24, 0x01))),
            status & 0x01 == 0 ==> r == if polls_done + 1 >= VBLANK_POLLS {
                Some(Err::<MmioOp, GpuError>(GpuError::Timeout))
            } else {
                None
            },
    {
        if Self::vblank_seen(status) {
            Some(Ok(Self::vblank_ack()))
        } else if polls_done + 1 >= VBLANK_POLLS {
            Some(Err(GpuError::Timeout))
        } else {
            None
        }
    }

    /// Outcome of waiting for a vertical blank: `Timeout` if none came.
    pub fn wait_vblank(seen: bool) -> (r: GpuResult<()>)
        ensures
            seen <==> r is Ok,
            !seen ==> r == Err::<(), GpuError>(GpuError::Timeout),
    {
        if seen { Ok(()) } else { Err(GpuError::Timeout) }
    }

    /// The EDID block from its registers: `first` is the first EDID
    /// register and `words[i]` the register that holds byte `i` (the low
    /// byte of each word is taken). `None` when the first register reads
    /// zero or the block does not start with 00 FF.
    pub fn edid(&self, first: u32, words: &[u32]) -> (r: Option<[u8; 128]>)
        requires
            first != 0 ==> words@.len() >= EDID_LEN,
        ensures
            first == 0 ==> r is None,
            first != 0 ==> ({
                let b = Seq::new(128, |i: int| words@[i] as u8);
                if b[0] != 0x00 || b[1] != 0xFF { r is None } else { r matches Some(e) && e@ == b }
            }),
    {
        if first == 0 {
            return None;
        }
        let mut edid = [0u8; 128];
        let mut i: usize = 0;
        while i < EDID_LEN
            invariant
                i <= EDID_LEN,
                words@.len() >= EDID_LEN,
                forall|k: int| 0 <= k < i ==> edid@[k] == words@[k] as u8,
            decreases EDID_LEN - i,
        {
            edid[i] = #[verifier::truncate] (words[i] as u8);
            i = i + 1;
        }
        assert(edid@ =~= Seq::new(128, |i: int| words@[i] as u8));
        if edid[0] != 0x00 || edid[1] != 0xFF {
            return None;
        }
        Some(edid)
    }

    /// Offset of the register that holds EDID byte `i`.
    pub fn edid_register(i: usize) -> (r: usize)
        requires
            i < EDID_LEN,
        ensures
            r == edid_reg(i as int),
    {
        (0x100 + i) & !0x03usize
    }

    /// Bytes of video memory that the current mode uses.
    pub fn vram_in_use(&self) -> (r: Option<usize>)
        requires
            self.spec_mode() matches Some(m) ==> m.pitch * m.height <= u32::MAX,
        ensures
            r == match self.spec_mode() {
                Some(m) => Some((m.pitch * m.height) as usize),
                None => None,
            },
    {
        match self.current_mode {
            Some(m) => Some((m.pitch * m.height) as usize),
            None => None,
        }
    }
}

/// Probes a display adapter: classifies it by its PCI ids and marks it
/// ready when its vendor register reads `vendor_id`; `None` when it does
/// not answer.
pub fn probe(pci_vendor: u16, pci_device: u16, vram_base: usize, vram_size: usize, vendor_id: u32) -> (r: Option<GpuDevice>)
    ensures
        (vendor_id == 0xFFFF || vendor_id == 0) ==> r is None,
        !(vendor_id == 0xFFFF || vendor_id == 0) ==> (r matches Some(d) && d.spec_vendor() == vendor_spec(pci_vendor, pci_device)
            && d.spec_vram_base() == vram_base && d.spec_vram_size() == vram_size
            && d.spec_initialized() && d.spec_mode() is None),
{
    let vendor = classify(pci_vendor, pci_device);
    let mut device = GpuDevice::new(vendor, vram_base, vram_size);
    match device.init(vendor_id) {
        Ok(()) => Some(device),
        Err(_) => None,
    }
}

/// Drawing into the video memory of a device with a mode set.
pub struct GpuFramebuffer {
    mode: DisplayMode,
    vram_base: usize,
    vram_size: usize,
}

/// Offset of pixel `(x, y)` in a mode.
pub open spec fn gpu_offset(m: DisplayMode, x: int, y: int) -> int {
    y * m.pitch + x * (m.bpp / 8)
}

/// The three byte writes that clear pixel `(x, y)`: blue, green, red.
pub open spec fn clear_pixel(m: DisplayMode, x: int, y: int, r: u8, g: u8, b: u8) -> Seq<MmioOp> {
    let off = gpu_offset(m, x, y);
    seq![
        MmioOp::Write8(off as usize, b),
        MmioOp::Write8((off + 1) as usize, g),
        MmioOp::Write8((off + 2) as usize, r),
    ]
}

/// The writes that clear the first `n` pixels of row `y`, from the left.
pub open spec fn clear_row(m: DisplayMode, y: int, n: nat, r: u8, g: u8, b: u8) -> Seq<MmioOp>
    decreases n,
{
    if n == 0 {
        Seq::empty()
    } else {
        clear_row(m, y, (n - 1) as nat, r, g, b) + clear_pixel(m, n - 1, y, r, g, b)
    }
}

/// The writes that clear the first `n` rows, from the top.
pub open spec fn clear_rows(m: DisplayMode, n: nat, r: u8, g: u8, b: u8) -> Seq<MmioOp>
    decreases n,
{
    if n == 0 {
        Seq::empty()
    } else {
        clear_rows(m, (n - 1) as nat, r, g, b) + clear_row(m, n - 1, m.width as nat, r, g, b)
    }
}

/// A pixel inside the mode lies no further than the last one.
proof fn lemma_offset_bounded(m: DisplayMode, x: int, y: int)
    requires
        0 <= x < m.width,
        0 <= y < m.height,
    ensures
        0 <= gpu_offset(m, x, y) <= gpu_offset(m, m.width - 1, m.height - 1),
{
    vstd::arithmetic::mul::lemma_mul_inequality(y, m.height - 1, m.pitch as int);
    vstd::arithmetic::mul::lemma_mul_inequality(x, m.width - 1, (m.bpp / 8) as int);
    vstd::arithmetic::mul::lemma_mul_nonnegative(y, m.pitch as int);
    vstd::arithmetic::mul::lemma_mul_nonnegative(x, (m.bpp / 8) as int);
}

impl GpuFramebuffer {
    pub closed spec fn spec_mode(&self) -> DisplayMode {
        self.mode
    }

    /// A framebuffer over `device`'s video memory; `None` without a mode.
    pub fn new(device: &GpuDevice) -> (r: Option<Self>)
        ensures
            device.spec_mode() is None ==> r is None,
            device.spec_mode() matches Some(m) ==> (r matches Some(f) && f.spec_mode() == m),
    {
        match device.current_mode {
            Some(m) => Some(Self { mode: m, vram_base: device.vram_base, vram_size: device.vram_size }),
            None => None,
        }
    }

    /// The byte writes of pixel `(x, y)`: blue, green, red, and alpha at 32
    /// bits per pixel; nothing off the screen.
    pub fn set_pixel(&mut self, x: u32, y: u32, r: u8, g: u8, b: u8, a: u8) -> (ops: Vec<MmioOp>)
        requires
            x < old(self).spec_mode().width && y < old(self).spec_mode().height ==>
                gpu_offset(old(self).spec_mode(), x as int, y as int) <= u32::MAX,
            x < old(self).spec_mode().width && y < old(self).spec_mode().height ==>
                gpu_offset(old(self).spec_mode(), x as int, y as int) + 3 <= usize::MAX,
        ensures
            final(self).spec_mode() == old(self).spec_mode(),
            ({
                let m = old(self).spec_mode();
                let off = gpu_offset(m, x as int, y as int);
                if x >= m.width || y >= m.height {
                    ops@ == Seq::<MmioOp>::empty()
                } else {
                    ops@ == seq![
                        MmioOp::Write8(off as usize, b),
                        MmioOp::Write8((off + 1) as usize, g),
                        MmioOp::Write8((off + 2) as usize, r),
                    ] + if m.bpp / 8 >= 4 { seq![MmioOp::Write8((off + 3) as usize, a)] } else { Seq::empty() }
                }
            }),
    {
        let bpp = (self.mode.bpp as u32) / 8;
        let mut ops: Vec<MmioOp> = Vec::new();
        if x >= self.mode.width || y >= self.mode.height {
            assert(ops@ =~= Seq::<MmioOp>::empty());
            return ops;
        }
        proof {
            vstd::arithmetic::mul::lemma_mul_nonnegative(y as int, self.mode.pitch as int);
            vstd::arithmetic::mul::lemma_mul_nonnegative(x as int, bpp as int);
        }
        let offset = (y * self.mode.pitch + x * bpp) as usize;
        ops.push(MmioOp::Write8(offset, b));
        ops.push(MmioOp::Write8(offset + 1, g));
        ops.push(MmioOp::Write8(offset + 2, r));
        if bpp >= 4 {
            ops.push(MmioOp::Write8(offset + 3, a));
        }
        proof {
            let m = old(self).spec_mode();
            let off = gpu_offset(m, x as int, y as int);
            assert(ops@ =~= seq![
                MmioOp::Write8(off as usize, b),
                MmioOp::Write8((off + 1) as usize, g),
                MmioOp::Write8((off + 2) as usize, r),
            ] + if m.bpp / 8 >= 4 { seq![MmioOp::Write8((off + 3) as usize, a)] } else { Seq::empty() });
        }
        ops
    }

    /// The byte writes that clear the whole mode to `(r, g, b)`: for each
    /// row from the top and each pixel from the left, its blue, green and
    /// red bytes, whatever the depth.
    pub fn clear(&self, r: u8, g: u8, b: u8) -> (ops: Vec<MmioOp>)
        requires
            self.spec_mode().width > 0 && self.spec_mode().height > 0 ==>
                gpu_offset(self.spec_mode(), self.spec_mode().width - 1, self.spec_mode().height - 1) <= u32::MAX,
            self.spec_mode().width > 0 && self.spec_mode().height > 0 ==>
                gpu_offset(self.spec_mode(), self.spec_mode().width - 1, self.spec_mode().height - 1) + 2 <= usize::MAX,
        ensures
            ops@ == clear_rows(self.spec_mode(), self.spec_mode().height as nat, r, g, b),
    {
        let m = self.mode;
        let bpp = (m.bpp as u32) / 8;
        let mut ops: Vec<MmioOp> = Vec::new();
        let mut y: u32 = 0;
        while y < m.height
            invariant
                m == self.spec_mode(),
                bpp == m.bpp / 8,
                y <= m.height,
                m.width > 0 && m.height > 0 ==> gpu_offset(m, m.width - 1, m.height - 1) <= u32::MAX,
                m.width > 0 && m.height > 0 ==> gpu_offset(m, m.width - 1, m.height - 1) + 2 <= usize::MAX,
                ops@ == clear_rows(m, y as nat, r, g, b),
            decreases m.height - y,
        {
            let mut x: u32 = 0;
            while x < m.width
                invariant
                    m == self.spec_mode(),
                    bpp == m.bpp / 8,
                    y < m.height,
                    x <= m.width,
                    m.width > 0 && m.height > 0 ==> gpu_offset(m, m.width - 1, m.height - 1) <= u32::MAX,
                    m.width > 0 && m.height > 0 ==> gpu_offset(m, m.width - 1, m.height - 1) + 2 <= usize::MAX,
                    ops@ == clear_rows(m, y as nat, r, g, b) + clear_row(m, y as int, x as nat, r, g, b),
                decreases m.width - x,
            {
                proof {
                    lemma_offset_bounded(m, x as int, y as int);
                    vstd::arithmetic::mul::lemma_mul_nonnegative(y as int, m.pitch as int);
                    vstd::arithmetic::mul::lemma_mul_nonnegative(x as int, bpp as int);
                }
                let offset = (y * m.pitch + x * bpp) as usize;
                ops.push(MmioOp::Write8(offset, b));
                ops.push(MmioOp::Write8(offset + 1, g));
                ops.push(MmioOp::Write8(offset + 2, r));
                proof {
                    assert(ops@ =~= clear_rows(m, y as nat, r, g, b) + clear_row(m, y as int, (x + 1) as nat, r, g, b));
                }
                x = x + 1;
            }
            proof {
                assert(ops@ =~= clear_rows(m, (y + 1) as nat, r, g, b));
            }
            y = y + 1;
        }
        ops
    }

    pub fn width(&self) -> (r: u32)
        ensures
            r == self.spec_mode().width,
    {
        self.mode.width
    }

    pub fn height(&self) -> (r: u32)
        ensures
            r == self.spec_mode().height,
    {
        self.mode.height
    }
}

} // verus!
