use vstd::prelude::*;
use crate::mmio::{MmioOp, POLLS_LONG};
use crate::bytes::le16;

verus! {

pub type WifiResult<T> = Result<T, WifiError>;

#[derive(Debug, Clone, Copy, PartialEq, Eq, Structural)]
pub enum WifiError {
    NotFound,
    InitFailed,
    ScanFailed,
    AuthFailed,
    AssocFailed,
    HandshakeFailed,
    Disconnected,
    TxFailed,
}

#[derive(Debug, Clone, Copy, PartialEq, Eq, Structural)]
pub enum WifiSecurity {
    Open,
    Wep,
    WpaPsk,
    Wpa2Psk,
    Wpa3Sae,
}

impl WifiSecurity {
    pub open spec fn spec_code(self) -> u8 {
        match self {
            WifiSecurity::Open => 0,
            WifiSecurity::Wep => 1,
            WifiSecurity::WpaPsk => 2,
            WifiSecurity::Wpa2Psk => 3,
            WifiSecurity::Wpa3Sae => 4,
        }
    }

    /// Register code of the security mode.
    pub fn code(self) -> (r: u8)
        ensures
            r == self.spec_code(),
    {
        match self {
            WifiSecurity::Open => 0,
            WifiSecurity::Wep => 1,
            WifiSecurity::WpaPsk => 2,
            WifiSecurity::Wpa2Psk => 3,
            WifiSecurity::Wpa3Sae => 4,
        }
    }

    /// Security mode a scan record reports; unknown codes count as WPA2.
    pub open spec fn spec_from_code(c: u8) -> WifiSecurity {
        if c == 0 { WifiSecurity::Open } else if c == 1 { WifiSecurity::Wep } else if c == 2 { WifiSecurity::WpaPsk } else { WifiSecurity::Wpa2Psk }
    }

    pub fn from_code(c: u8) -> (r: WifiSecurity)
        ensures
            r == WifiSecurity::spec_from_code(c),
    {
        match c {
            0 => WifiSecurity::Open,
            1 => WifiSecurity::Wep,
            2 => WifiSecurity::WpaPsk,
            3 => WifiSecurity::Wpa2Psk,
            _ => WifiSecurity::Wpa2Psk,
        }
    }
}

#[derive(Debug, Clone, Copy, PartialEq, Eq, Structural)]
pub enum WifiChannelWidth {
    MHz20,
    MHz40,
    MHz80,
    MHz160,
}

/// A network name of up to 32 bytes, zero padded.
#[derive(Debug, Clone, Copy)]
pub struct Ssid(pub [u8; 32]);

/// The 32 name bytes: `b` cut to 32 bytes, then zeros.
pub open spec fn ssid_bytes(b: Seq<u8>) -> Seq<u8> {
    Seq::new(32, |i: int| if i < b.len() { b[i] } else { 0u8 })
}

impl Ssid {
    pub fn from_bytes(b: &[u8]) -> (r: Self)
        ensures
            r.0@ == ssid_bytes(b@),
    {
        let mut ssid = [0u8; 32];
        let len = if b.len() < 32 { b.len() } else { 32 };
        let mut i: usize = 0;
        while i < len
            invariant
                i <= len,
                len <= 32,
                len <= b@.len(),
                len == b@.len() || len == 32,
                forall|k: int| 0 <= k < i ==> ssid@[k] == b@[k],
                forall|k: int| i <= k < 32 ==> ssid@[k] == 0u8,
            decreases len - i,
        {
            ssid[i] = b[i];
            i = i + 1;
        }
        assert(ssid@ =~= ssid_bytes(b@));
        Ssid(ssid)
    }
}

#[derive(Debug, Clone, Copy)]
pub struct WifiAccessPoint {
    pub ssid: Ssid,
    pub bssid: [u8; 6],
    pub channel: u8,
    pub rssi: i8,
    pub security: WifiSecurity,
    pub max_rate_mbps: u16,
}

#[derive(Debug, Clone, Copy)]
pub struct WifiConfig {
    pub ssid: Ssid,
    pub password: [u8; 64],
    pub password_len: u8,
    pub security: WifiSecurity,
}

/// Bytes of one scan record the driver looks at.
pub const AP_RECORD_LEN: usize = 44;
/// Distance between scan records in the register window.
pub const AP_RECORD_STRIDE: usize = 48;
pub const CONFIG_BASE: usize = 0x200;
pub const TX_BASE: usize = 0x300;
pub const RX_BASE: usize = 0x400;
pub const MAX_FRAME: usize = 1500;
pub const SCAN_POLLS: u32 = 50000;
pub const CONNECT_POLLS: u32 = 100000;

/// Index of the first zero byte of the name, or 32.
pub open spec fn ssid_len_spec(s: Seq<u8>) -> int
    decreases s.len(),
{
    if s.len() == 0 {
        0
    } else if s[0] == 0 {
        0
    } else {
        1 + ssid_len_spec(s.drop_first())
    }
}

/// The writes that hand a network configuration to the device and start
/// the association.
pub open spec fn connect_ops(c: WifiConfig) -> Seq<MmioOp> {
    Seq::new(32, |i: int| MmioOp::Write8((CONFIG_BASE + i) as usize, c.ssid.0@[i]))
        + seq![MmioOp::Write8((CONFIG_BASE + 32) as usize, ssid_len_spec(c.ssid.0@) as u8)]
        + Seq::new(c.password_len as nat, |i: int| MmioOp::Write8((CONFIG_BASE + 33 + i) as usize, c.password@[i]))
        + seq![
            MmioOp::Write8((CONFIG_BASE + 33 + c.password_len) as usize, c.password_len),
            MmioOp::Write8((CONFIG_BASE + 100) as usize, c.security.spec_code()),
            MmioOp::Write32(0x18, 0x01),
        ]
}

/// Where the bring-up stands.
#[derive(Debug, Clone, Copy, PartialEq, Eq, Structural)]
pub enum WifiInit {
    Start,
    Vendor,
    Poll { n: u32 },
    Firmware,
    Finished,
}

#[derive(Debug)]
pub enum WifiStep {
    /// Perform these accesses; the value of the last read is the next input.
    Run(Vec<MmioOp>),
    Done(WifiResult<()>),
}

pub open spec fn wifi_runs(r: WifiStep, ops: Seq<MmioOp>) -> bool {
    match r {
        WifiStep::Run(v) => v@ == ops,
        _ => false,
    }
}

pub struct WifiController {
    initialized: bool,
    associated: bool,
    current_bssid: [u8; 6],
    channel: u8,
}

impl WifiController {
    pub closed spec fn spec_initialized(&self) -> bool {
        self.initialized
    }

    pub closed spec fn spec_associated(&self) -> bool {
        self.associated
    }

    pub closed spec fn spec_bssid(&self) -> Seq<u8> {
        self.current_bssid@
    }

    pub closed spec fn spec_channel(&self) -> u8 {
        self.channel
    }

    pub fn new() -> (r: Self)
        ensures
            !r.spec_initialized(),
            !r.spec_associated(),
            r.spec_channel() == 0,
            r.spec_bssid() == seq![0u8, 0u8, 0u8, 0u8, 0u8, 0u8],
    {
        let current_bssid = [0u8; 6];
        assert(current_bssid@ =~= seq![0u8, 0u8, 0u8, 0u8, 0u8, 0u8]);
        Self { initialized: false, associated: false, current_bssid, channel: 0 }
    }

    /// One step of the bring-up; `v` is the value of the last read. It
    /// checks the vendor register (`NotFound` when it reads all ones or
    /// zero), resets the device and waits for it, and starts the firmware
    /// load when the firmware status register reads neither all ones nor
    /// zero.
    pub fn init(&mut self, st: &mut WifiInit, v: u32) -> (r: WifiStep)
        ensures
            final(self).spec_associated() == old(self).spec_associated(),
            final(self).spec_channel() == old(self).spec_channel(),
            final(self).spec_bssid() == old(self).spec_bssid(),
            match *old(st) {
                WifiInit::Start => *final(st) == WifiInit::Vendor && wifi_runs(r, seq![MmioOp::Read16(0x00)])
                    && final(self).spec_initialized() == old(self).spec_initialized(),
                WifiInit::Vendor => final(self).spec_initialized() == old(self).spec_initialized()
                    && if (v as u16) == 0xFFFF || (v as u16) == 0 {
                        *final(st) == WifiInit::Finished && r == WifiStep::Done(Err(WifiError::NotFound))
                    } else {
                        *final(st) == (WifiInit::Poll { n: 0 }) && wifi_runs(r, seq![MmioOp::Write32(0x04, 0x01), MmioOp::Read32(0x04)])
                    },
                WifiInit::Poll { n } => final(self).spec_initialized() == old(self).spec_initialized()
                    && if v & 0x01 != 0 || n >= POLLS_LONG - 1 {
                        *final(st) == WifiInit::Firmware && wifi_runs(r, seq![MmioOp::Read32(0x08)])
                    } else {
                        *final(st) == (WifiInit::Poll { n: (n + 1) as u32 }) && wifi_runs(r, seq![MmioOp::Read32(0x04)])
                    },
                WifiInit::Firmware => *final(st) == WifiInit::Finished && final(self).spec_initialized()
                    && if v != 0xFFFF_FFFF && v != 0 {
                        wifi_runs(r, seq![MmioOp::Write32(0x0C, 0x00), MmioOp::Write32(0x08, 0x01)])
                    } else {
                        r == WifiStep::Done(Ok(()))
                    },
                WifiInit::Finished => *final(st) == WifiInit::Finished && r == WifiStep::Done(Ok(()))
                    && final(self).spec_initialized() == old(self).spec_initialized(),
            },
    {
        let mut ops: Vec<MmioOp> = Vec::new();
        match *st {
            WifiInit::Start => {
                ops.push(MmioOp::Read16(0x00));
                *st = WifiInit::Vendor;
                assert(ops@ =~= seq![MmioOp::Read16(0x00)]);
            },
            WifiInit::Vendor => {
                let vendor = #[verifier::truncate] (v as u16);
                if vendor == 0xFFFF || vendor == 0 {
                    *st = WifiInit::Finished;
                    return WifiStep::Done(Err(WifiError::NotFound));
                }
                ops.push(MmioOp::Write32(0x04, 0x01));
                ops.push(MmioOp::Read32(0x04));
                *st = WifiInit::Poll { n: 0 };
                assert(ops@ =~= seq![MmioOp::Write32(0x04, 0x01), MmioOp::Read32(0x04)]);
            },
            WifiInit::Poll { n } => {
                if v & 0x01 != 0 || n >= POLLS_LONG - 1 {
                    ops.push(MmioOp::Read32(0x08));
                    *st = WifiInit::Firmware;
                    assert(ops@ =~= seq![MmioOp::Read32(0x08)]);
                } else {
                    ops.push(MmioOp::Read32(0x04));
                    *st = WifiInit::Poll { n: n + 1 };
                    assert(ops@ =~= seq![MmioOp::Read32(0x04)]);
                }
            },
            WifiInit::Firmware => {
                self.initialized = true;
                *st = WifiInit::Finished;
                if v != 0xFFFF_FFFF && v != 0 {
                    ops.push(MmioOp::Write32(0x0C, 0x00));
                    ops.push(MmioOp::Write32(0x08, 0x01));
                    assert(ops@ =~= seq![MmioOp::Write32(0x0C, 0x00), MmioOp::Write32(0x08, 0x01)]);
                } else {
                    return WifiStep::Done(Ok(()));
                }
            },
            WifiInit::Finished => {
                return WifiStep::Done(Ok(()));
            },
        }
        WifiStep::Run(ops)
    }

    /// The write that starts a scan; `InitFailed` before `init`.
    pub fn scan(&self) -> (r: WifiResult<MmioOp>)
        ensures
            !self.spec_initialized() ==> r == Err::<MmioOp, WifiError>(WifiError::InitFailed),
            self.spec_initialized() ==> r == Ok::<MmioOp, WifiError>(MmioOp::Write32(0x10, 0x01)),
    {
        if !self.initialized {
            return Err(WifiError::InitFailed);
        }
        Ok(MmioOp::Write32(0x10, 0x01))
    }

    /// The scan has finished when its busy bit clears.
    pub fn scan_done(sts: u32) -> (r: bool)
        ensures
            r == (sts & 0x01 == 0),
    {
        sts & 0x01 == 0
    }

    /// Outcome of a scan after polling: `ScanFailed` unless it finished.
    pub fn scan_outcome(done: bool) -> (r: WifiResult<()>)
        ensures
            done <==> r is Ok,
            !done ==> r == Err::<(), WifiError>(WifiError::ScanFailed),
    {
        if done { Ok(()) } else { Err(WifiError::ScanFailed) }
    }

    /// One poll of a scan: `sts` is the scan status register, read after
    /// `polls_done` earlier polls found the scan running. A finished scan
    /// ends the wait with `Ok`; otherwise it goes on (`None`) until
    /// `SCAN_POLLS` polls have found it running, which ends it with
    /// `ScanFailed`.
    pub fn scan_poll(polls_done: u32, sts: u32) -> (r: Option<WifiResult<()>>)
        requires
            polls_done < SCAN_POLLS,
        ensures
            sts & 0x01 == 0 ==> r == Some(Ok::<(), WifiError>(())),
            sts & 0x01 != 0 ==> r == if polls_done + 1 >= SCAN_POLLS {
                Some(Err::<(), WifiError>(WifiError::ScanFailed))
            } else {
                None
            },
    {
        if Self::scan_done(sts) {
            Some(Ok(()))
        } else if polls_done + 1 >= SCAN_POLLS {
            Some(Err(WifiError::ScanFailed))
        } else {
            None
        }
    }

    /// Register offset of scan record `i`.
    pub fn record_base(i: usize) -> (r: usize)
        requires
            i < 256,
        ensures
            r == 0x100 + i * AP_RECORD_STRIDE,
    {
        0x100 + i * AP_RECORD_STRIDE
    }

    /// Copies the scan results the device reports into `results`: as many
    /// as it reports (`count`) and `results` holds. `records` holds the
    /// bytes of those records, 44 each, one after the other.
    pub fn scan_results(&self, count: u8, records: &[u8], results: &mut [WifiAccessPoint]) -> (r: usize)
        requires
            records@.len() >= (if (count as int) < old(results)@.len() { count as int } else { old(results)@.len() as int }) * AP_RECORD_LEN,
        ensures
            r == (if (count as int) < old(results)@.len() { count as int } else { old(results)@.len() as int }),
            final(results)@.len() == old(results)@.len(),
            forall|i: int| 0 <= i < r ==> ap_is(#[trigger] final(results)@[i], records@.subrange(i * AP_RECORD_LEN, i * AP_RECORD_LEN + AP_RECORD_LEN)),
            forall|i: int| r <= i < final(results)@.len() ==> #[trigger] final(results)@[i] == old(results)@[i],
    {
        let max = if (count as usize) < results.len() { count as usize } else { results.len() };
        let mut i: usize = 0;
        while i < max
            invariant
                i <= max,
                max <= results@.len(),
                max <= 255,
                records@.len() >= max * AP_RECORD_LEN,
                results@.len() == old(results)@.len(),
                forall|k: int| 0 <= k < i ==> ap_is(#[trigger] results@[k], records@.subrange(k * AP_RECORD_LEN, k * AP_RECORD_LEN + AP_RECORD_LEN)),
                forall|k: int| i <= k < results@.len() ==> #[trigger] results@[k] == old(results)@[k],
            decreases max - i,
        {
            proof {
                vstd::arithmetic::mul::lemma_mul_inequality(i as int + 1, max as int, AP_RECORD_LEN as int);
            }
            let ap = parse_access_point(records, i * AP_RECORD_LEN);
            results[i] = ap;
            i = i + 1;
        }
        max
    }

    /// The writes that hand `config` to the device and start associating.
    pub fn connect(&self, config: &WifiConfig) -> (r: Vec<MmioOp>)
        requires
            config.password_len <= 64,
        ensures
            r@ == connect_ops(*config),
    {
        let mut ops: Vec<MmioOp> = Vec::new();
        let mut i: usize = 0;
        while i < 32
            invariant
                i <= 32,
                ops@ == Seq::new(i as nat, |k: int| MmioOp::Write8((CONFIG_BASE + k) as usize, config.ssid.0@[k])),
            decreases 32 - i,
        {
            ops.push(MmioOp::Write8(CONFIG_BASE + i, config.ssid.0[i]));
            i = i + 1;
            assert(ops@ =~= Seq::new(i as nat, |k: int| MmioOp::Write8((CONFIG_BASE + k) as usize, config.ssid.0@[k])));
        }
        let slen = ssid_len(&config.ssid.0);
        ops.push(MmioOp::Write8(CONFIG_BASE + 32, slen as u8));
        let ghost head = ops@;
        let plen = config.password_len as usize;
        let mut j: usize = 0;
        while j < plen
            invariant
                j <= plen,
                plen <= 64,
                plen == config.password_len,
                ops@ == head + Seq::new(j as nat, |k: int| MmioOp::Write8((CONFIG_BASE + 33 + k) as usize, config.password@[k])),
            decreases plen - j,
        {
            ops.push(MmioOp::Write8(CONFIG_BASE + 33 + j, config.password[j]));
            j = j + 1;
            assert(ops@ =~= head + Seq::new(j as nat, |k: int| MmioOp::Write8((CONFIG_BASE + 33 + k) as usize, config.password@[k])));
        }
        ops.push(MmioOp::Write8(CONFIG_BASE + 33 + plen, config.password_len));
        ops.push(MmioOp::Write8(CONFIG_BASE + 100, config.security.code()));
        ops.push(MmioOp::Write32(0x18, 0x01));
        assert(ops@ =~= connect_ops(*config));
        ops
    }

    /// What the association status word says: `Some(true)` associated,
    /// `Some(false)` refused, `None` still going.
    pub fn connect_status(sts: u32) -> (r: Option<bool>)
        ensures
            sts & 0x01 != 0 ==> r == Some(true),
            sts & 0x01 == 0 && sts & 0x02 != 0 ==> r == Some(false),
            sts & 0x01 == 0 && sts & 0x02 == 0 ==> r is None,
    {
        if sts & 0x01 != 0 {
            Some(true)
        } else if sts & 0x02 != 0 {
            Some(false)
        } else {
            None
        }
    }

    /// Records the association with `bssid` on `channel`.
    pub fn associate(&mut self, bssid: [u8; 6], channel: u8) -> (r: WifiResult<()>)
        ensures
            r is Ok,
            final(self).spec_associated(),
            final(self).spec_bssid() == bssid@,
            final(self).spec_channel() == channel,
            final(self).spec_initialized() == old(self).spec_initialized(),
    {
        self.current_bssid = bssid;
        self.channel = channel;
        self.associated = true;
        Ok(())
    }

    /// A connection attempt that was refused or timed out.
    /// One poll of a connection attempt: `sts` is the connection status
    /// register, read after `polls_done` earlier polls found it pending.
    /// `Some(true)`: associated, the network's address and channel are to
    /// be read; `Some(false)`: refused, or `CONNECT_POLLS` polls have found
    /// it pending, and the attempt has failed; `None`: poll again.
    pub fn connect_poll(polls_done: u32, sts: u32) -> (r: Option<bool>)
        requires
            polls_done < CONNECT_POLLS,
        ensures
            sts & 0x01 != 0 ==> r == Some(true),
            sts & 0x01 == 0 && sts & 0x02 != 0 ==> r == Some(false),
            sts & 0x01 == 0 && sts & 0x02 == 0 ==> r == if polls_done + 1 >= CONNECT_POLLS {
                Some(false)
            } else {
                None
            },
    {
        match Self::connect_status(sts) {
            Some(ok) => Some(ok),
            None => if polls_done + 1 >= CONNECT_POLLS { Some(false) } else { None },
        }
    }

    pub fn connect_failed() -> (r: WifiResult<()>)
        ensures
            r == Err::<(), WifiError>(WifiError::AuthFailed),
    {
        Err(WifiError::AuthFailed)
    }

    pub fn disconnect(&mut self) -> (r: MmioOp)
        ensures
            r == MmioOp::Write32(0x20, 0x01),
            !final(self).spec_associated(),
            final(self).spec_initialized() == old(self).spec_initialized(),
            final(self).spec_bssid() == old(self).spec_bssid(),
            final(self).spec_channel() == old(self).spec_channel(),
    {
        self.associated = false;
        MmioOp::Write32(0x20, 0x01)
    }

    /// The writes that send the first 1500 bytes of `data`;
    /// `Disconnected` while not associated.
    pub fn send_frame(&self, data: &[u8]) -> (r: WifiResult<Vec<MmioOp>>)
        ensures
            !self.spec_associated() ==> (r matches Err(e) && e == WifiError::Disconnected),
            self.spec_associated() ==> (r matches Ok(ops) && ({
                let n = if data@.len() < MAX_FRAME { data@.len() as int } else { MAX_FRAME as int };
                ops@ == Seq::new(n as nat, |i: int| MmioOp::Write8((TX_BASE + i) as usize, data@[i]))
                    + seq![MmioOp::Write16((TX_BASE + MAX_FRAME) as usize, n as u16), MmioOp::Write32(0x24, 0x01)]
            })),
    {
        if !self.associated {
            return Err(WifiError::Disconnected);
        }
        let len = if data.len() < MAX_FRAME { data.len() } else { MAX_FRAME };
        let mut ops: Vec<MmioOp> = Vec::new();
        let mut i: usize = 0;
        while i < len
            invariant
                i <= len,
                len <= MAX_FRAME,
                len <= data@.len(),
                ops@ == Seq::new(i as nat, |k: int| MmioOp::Write8((TX_BASE + k) as usize, data@[k])),
            decreases len - i,
        {
            ops.push(MmioOp::Write8(TX_BASE + i, data[i]));
            i = i + 1;
            assert(ops@ =~= Seq::new(i as nat, |k: int| MmioOp::Write8((TX_BASE + k) as usize, data@[k])));
        }
        ops.push(MmioOp::Write16(TX_BASE + MAX_FRAME, len as u16));
        ops.push(MmioOp::Write32(0x24, 0x01));
        Ok(ops)
    }

    /// A frame is waiting.
    pub fn frame_ready(sts: u32) -> (r: bool)
        ensures
            r == (sts & 0x01 != 0),
    {
        sts & 0x01 != 0
    }

    /// Copies a received frame of `len` bytes into `buf`, as much as fits;
    /// `frame` holds the bytes read from the receive window.
    pub fn receive_frame(&self, len: u16, frame: &[u8], buf: &mut [u8]) -> (r: u16)
        requires
            frame@.len() >= (if (len as int) < old(buf)@.len() { len as int } else { old(buf)@.len() as int }),
        ensures
            ({
                let n = if (len as int) < old(buf)@.len() { len as int } else { old(buf)@.len() as int };
                &&& r == n
                &&& final(buf)@ == frame@.subrange(0, n) + old(buf)@.subrange(n, old(buf)@.len() as int)
            }),
    {
        let copy_len = if (len as usize) < buf.len() { len as usize } else { buf.len() };
        let mut i: usize = 0;
        while i < copy_len
            invariant
                i <= copy_len,
                copy_len <= buf@.len(),
                copy_len <= frame@.len(),
                copy_len <= len,
                buf@.len() == old(buf)@.len(),
                forall|k: int| 0 <= k < i ==> buf@[k] == frame@[k],
                forall|k: int| i <= k < buf@.len() ==> buf@[k] == old(buf)@[k],
            decreases copy_len - i,
        {
            buf[i] = frame[i];
            i = i + 1;
        }
        assert(buf@ =~= frame@.subrange(0, copy_len as int) + old(buf)@.subrange(copy_len as int, old(buf)@.len() as int));
        copy_len as u16
    }
}

/// `ap` is the access point described by record bytes `rec`.
pub open spec fn ap_is(ap: WifiAccessPoint, rec: Seq<u8>) -> bool {
    &&& ap.ssid.0@ == rec.subrange(0, 32)
    &&& ap.bssid@ == rec.subrange(32, 38)
    &&& ap.channel == rec[38]
    &&& ap.rssi == rec[39] as i8
    &&& ap.security == WifiSecurity::spec_from_code(rec[40])
    &&& ap.max_rate_mbps == le16(rec, 42)
}

/// The access point of the scan record at `off` in `b`.
pub fn parse_access_point(b: &[u8], off: usize) -> (r: WifiAccessPoint)
    requires
        off + AP_RECORD_LEN <= b@.len(),
    ensures
        ap_is(r, b@.subrange(off as int, off + AP_RECORD_LEN)),
{
    let n = b.len();
    let mut ssid = [0u8; 32];
    let mut j: usize = 0;
    while j < 32
        invariant
            j <= 32,
            off + AP_RECORD_LEN <= b@.len(),
            b@.len() == n,
            forall|k: int| 0 <= k < j ==> ssid@[k] == b@[off + k],
        decreases 32 - j,
    {
        ssid[j] = b[off + j];
        j = j + 1;
    }
    let bssid = crate::bytes::read_array6(b, off + 32);
    let ap = WifiAccessPoint {
        ssid: Ssid(ssid),
        bssid,
        channel: b[off + 38],
        rssi: #[verifier::truncate] (b[off + 39] as i8),
        security: WifiSecurity::from_code(b[off + 40]),
        max_rate_mbps: crate::bytes::read_le16(b, off + 42),
    };
    proof {
        let rec = b@.subrange(off as int, off + AP_RECORD_LEN);
        assert(ap.ssid.0@ =~= rec.subrange(0, 32));
        assert(ap.bssid@ =~= rec.subrange(32, 38));
        assert(le16(rec, 42) == le16(b@, off + 42));
    }
    ap
}

fn ssid_len(s: &[u8; 32]) -> (r: usize)
    ensures
        r == ssid_len_spec(s@),
        r <= 32,
{
    let mut i: usize = 0;
    assert(s@.subrange(0, 32) =~= s@);
    while i < 32
        invariant
            i <= 32,
            forall|k: int| 0 <= k < i ==> s@[k] != 0,
            ssid_len_spec(s@) == i + ssid_len_spec(s@.subrange(i as int, 32)),
        decreases 32 - i,
    {
        if s[i] == 0 {
            return i;
        }
        assert(s@.subrange(i as int, 32).drop_first() =~= s@.subrange(i + 1, 32));
        i = i + 1;
    }
    32
}

} // verus!
