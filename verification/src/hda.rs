use vstd::prelude::*;
use crate::mmio::MmioOp;

verus! {

pub type HdaResult<T> = Result<T, HdaError>;

#[derive(Debug, Clone, Copy, PartialEq, Eq, Structural)]
pub enum HdaError {
    NotFound,
    NoCodecsFound,
    InitFailed,
    StreamInUse,
    InvalidFormat,
    DmaError,
    Timeout,
    CorbFull,
    RirbEmpty,
}

#[derive(Debug, Clone, Copy, PartialEq, Eq, Structural)]
pub struct HdaStreamFormat {
    pub channels: u8,
    pub bits: u8,
    pub rate: u32,
}

/// Base-rate, multiplier and divisor bits of a sample rate; unknown rates
/// are sent as 48 kHz.
pub open spec fn rate_code(rate: u32) -> u16 {
    if rate == 8000 { 0x00 }
    else if rate == 11025 { 0x10 }
    else if rate == 16000 { 0x20 }
    else if rate == 22050 { 0x30 }
    else if rate == 32000 { 0x40 }
    else if rate == 44100 { 0x50 }
    else if rate == 48000 { 0x60 }
    else if rate == 88200 { 0x70 }
    else if rate == 96000 { 0x80 }
    else if rate == 192000 { 0x90 }
    else { 0x60 }
}

/// Sample-size bits; unknown sizes are sent as 16 bits.
pub open spec fn bits_code(bits: u8) -> u16 {
    if bits == 8 { 0x00 }
    else if bits == 16 { 0x10 }
    else if bits == 20 { 0x20 }
    else if bits == 24 { 0x30 }
    else if bits == 32 { 0x40 }
    else { 0x10 }
}

/// Channel-count bits: channels minus one, in three bits.
pub open spec fn channels_code(channels: u8) -> u16 {
    if channels == 0 { 0 } else { ((channels - 1) as u8 & 0x07u8) as u16 }
}

/// The stream format word.
pub open spec fn format_tag(f: HdaStreamFormat) -> u16 {
    ((0x4000u16 | rate_code(f.rate)) | bits_code(f.bits)) | channels_code(f.channels)
}

/// The sample rates that have a code of their own, slowest first.
pub open spec fn coded_rates() -> Seq<u32> {
    seq![8000u32, 11025, 16000, 22050, 32000, 44100, 48000, 88200, 96000, 192000]
}

/// The sample rates with a code of their own are numbered from the
/// slowest, the `i`-th getting rate code `i` in bits 4 to 7; so 48 kHz
/// gets 6, the ten rates get ten distinct codes, and any other rate is
/// sent as 48 kHz.
pub proof fn lemma_rate_codes()
    ensures
        forall|i: int| 0 <= i < 10 ==> #[trigger] rate_code(coded_rates()[i]) == 0x10 * i,
        forall|i: int, j: int| 0 <= i < 10 && 0 <= j < 10 && i != j ==>
            rate_code(#[trigger] coded_rates()[i]) != rate_code(#[trigger] coded_rates()[j]),
        forall|rate: u32| !coded_rates().contains(rate) ==> #[trigger] rate_code(rate) == rate_code(48000),
        rate_code(48000) == 0x60,
{
    let r = coded_rates();
    assert(r[0] == 8000 && r[1] == 11025 && r[2] == 16000 && r[3] == 22050 && r[4] == 32000);
    assert(r[5] == 44100 && r[6] == 48000 && r[7] == 88200 && r[8] == 96000 && r[9] == 192000);
    assert forall|rate: u32| !r.contains(rate) implies #[trigger] rate_code(rate) == rate_code(48000) by {
        if rate == 8000 { assert(r[0] == rate); }
        if rate == 11025 { assert(r[1] == rate); }
        if rate == 16000 { assert(r[2] == rate); }
        if rate == 22050 { assert(r[3] == rate); }
        if rate == 32000 { assert(r[4] == rate); }
        if rate == 44100 { assert(r[5] == rate); }
        if rate == 48000 { assert(r[6] == rate); }
        if rate == 88200 { assert(r[7] == rate); }
        if rate == 96000 { assert(r[8] == rate); }
        if rate == 192000 { assert(r[9] == rate); }
    }
}

/// The sample sizes that have a code of their own, smallest first.
pub open spec fn coded_sizes() -> Seq<u8> {
    seq![8u8, 16, 20, 24, 32]
}

/// The sample sizes with a code of their own are numbered from the
/// smallest, the `i`-th getting size code `i` in bits 4 to 6, and any other
/// size is sent as 16 bits; the channel field holds the channel count less
/// one, modulo eight, and zero for no channels.
pub proof fn lemma_size_and_channel_codes(channels: u8)
    ensures
        forall|i: int| 0 <= i < 5 ==> #[trigger] bits_code(coded_sizes()[i]) == 0x10 * i,
        forall|bits: u8| !coded_sizes().contains(bits) ==> #[trigger] bits_code(bits) == bits_code(16),
        channels >= 1 ==> channels_code(channels) == (channels - 1) % 8,
        channels == 0 ==> channels_code(channels) == 0,
{
    let z = coded_sizes();
    assert(z[0] == 8 && z[1] == 16 && z[2] == 20 && z[3] == 24 && z[4] == 32);
    assert forall|bits: u8| !z.contains(bits) implies #[trigger] bits_code(bits) == bits_code(16) by {
        if bits == 8 { assert(z[0] == bits); }
        if bits == 16 { assert(z[1] == bits); }
        if bits == 20 { assert(z[2] == bits); }
        if bits == 24 { assert(z[3] == bits); }
        if bits == 32 { assert(z[4] == bits); }
    }
    if channels >= 1 {
        let c = (channels - 1) as u8;
        assert(c & 0x07u8 == c % 8) by (bit_vector);
    }
}

/// For 8-bit samples and one to eight channels, the format word is the
/// stream-type bit, the rate's index among the coded rates in bits 4 to 7
/// and the channel count less one in bits 0 to 2.
pub proof fn lemma_format_tag_fields(f: HdaStreamFormat, i: int)
    requires
        0 <= i < 10,
        f.rate == coded_rates()[i],
        f.bits == 8,
        1 <= f.channels <= 8,
    ensures
        format_tag(f) as int == 0x4000 + 0x10 * i + (f.channels - 1),
{
    lemma_rate_codes();
    let c = (f.channels - 1) as u8;
    let ch = channels_code(f.channels);
    assert(ch == c as u16) by {
        assert(c & 0x07u8 == c) by (bit_vector) requires c < 8u8;
    }
    let rc = rate_code(f.rate);
    let k = i as u16;
    assert(rc == 0x10 * i);
    assert(((0x4000u16 | rc) | 0u16) | ch == 0x4000u16 + rc + ch) by (bit_vector)
        requires
            k < 10u16,
            rc == 0x10u16 * k,
            ch < 8u16,
    ;
}

impl HdaStreamFormat {
    pub fn to_hda_tag(&self) -> (r: u16)
        ensures
            r == format_tag(*self),
    {
        let rate_val: u16 = match self.rate {
            8000 => 0x00,
            11025 => 0x10,
            16000 => 0x20,
            22050 => 0x30,
            32000 => 0x40,
            44100 => 0x50,
            48000 => 0x60,
            88200 => 0x70,
            96000 => 0x80,
            192000 => 0x90,
            _ => 0x60,
        };
        let bits_val: u16 = match self.bits {
            8 => 0x00,
            16 => 0x10,
            20 => 0x20,
            24 => 0x30,
            32 => 0x40,
            _ => 0x10,
        };
        let channels_val: u16 = if self.channels == 0 { 0 } else { ((self.channels - 1) & 0x07) as u16 };
        ((0x4000u16 | rate_val) | bits_val) | channels_val
    }
}

#[derive(Debug, Clone, Copy, PartialEq, Eq, Structural)]
pub struct HdaCodec {
    pub cad: u8,
    pub vendor_id: u32,
    pub revision: u32,
    pub nodes: u8,
}

#[derive(Debug, Clone, Copy, PartialEq, Eq, Structural)]
pub enum StreamDir {
    Output,
    Input,
    Bidirectional,
}

#[derive(Debug, Clone, Copy, PartialEq, Eq, Structural)]
pub struct HdaBdlEntry {
    pub address: u64,
    pub length: u32,
    pub ioc: u32,
}

pub const HDA_GCTL: usize = 0x0068;
pub const HDA_GSTS: usize = 0x0069;
pub const HDA_WAKEEN: usize = 0x006C;
pub const HDA_STATESTS: usize = 0x006E;
pub const HDA_INTCTL: usize = 0x0070;
pub const HDA_INTSTS: usize = 0x0074;

pub const HDA_CORB_BASE: usize = 0x0040;
pub const HDA_CORB_WP: usize = 0x0048;
pub const HDA_CORB_RP: usize = 0x004A;
pub const HDA_CORB_SIZE: usize = 0x004C;
pub const HDA_CORB_CTRL: usize = 0x004E;

pub const HDA_RIRB_BASE: usize = 0x0050;
pub const HDA_RIRB_WP: usize = 0x0058;
pub const HDA_RIRB_INTR: usize = 0x005A;
pub const HDA_RIRB_SIZE: usize = 0x005C;
pub const HDA_RIRB_CTRL: usize = 0x005E;

pub const SDS_CTRL: usize = 0x00;
pub const SDS_STS: usize = 0x02;
pub const SDS_LPIB: usize = 0x04;
pub const SDS_CBL: usize = 0x08;
pub const SDS_LVI: usize = 0x0C;
pub const SDS_BDPL: usize = 0x18;
pub const SDS_BDPU: usize = 0x1C;

pub const CORB_ENTRIES: usize = 256;
pub const RIRB_ENTRIES: usize = 256;

pub const SD_OFFSET: usize = 0x0080;
pub const SD_STRIDE: usize = 0x0020;

/// Number of stream descriptors that `allocate_stream` looks at.
pub const STREAM_SLOTS: u8 = 32;
/// Number of codec addresses scanned at start-up.
pub const CODEC_ADDRESSES: u8 = 15;
/// Polls of a response before a verb times out.
pub const VERB_POLLS: u32 = 10000;

pub const VERB_GET_VENDOR: u32 = 0x0F00;
pub const VERB_GET_REVISION: u32 = 0x0F04;
pub const VERB_GET_NODES: u32 = 0x0F02;

/// A CORB entry: codec address in bits 28..31, node in bits 20..27, then
/// verb and payload.
pub open spec fn corb_entry_spec(cad: u8, node: u8, verb: u32, payload: u32) -> u32 {
    ((verb | ((node as u32) << 20u32)) | ((cad as u32) << 28u32)) | payload
}

pub fn corb_entry(cad: u8, node: u8, verb: u32, payload: u32) -> (r: u32)
    ensures
        r == corb_entry_spec(cad, node, verb, payload),
{
    ((verb | ((node as u32) << 20u32)) | ((cad as u32) << 28u32)) | payload
}

/// Sum of the buffer lengths of a descriptor list.
pub open spec fn total_length(bdl: Seq<HdaBdlEntry>) -> int
    decreases bdl.len(),
{
    if bdl.len() == 0 {
        0
    } else {
        total_length(bdl.drop_last()) + bdl.last().length
    }
}

/// What a verb request asks the caller to do: write `entry` into CORB slot
/// `slot` and then `next_wp` to the write-pointer register.
#[derive(Debug, Clone, Copy, PartialEq, Eq, Structural)]
pub struct VerbRequest {
    pub slot: usize,
    pub entry: u32,
    pub next_wp: u16,
}

/// A response that arrived: read the RIRB entry at `slot`, then acknowledge
/// by writing `ack` to the RIRB write-pointer register.
#[derive(Debug, Clone, Copy, PartialEq, Eq, Structural)]
pub struct VerbResponse {
    pub slot: usize,
    pub ack: u16,
}

/// Where the controller bring-up stands.
#[derive(Debug, Clone, Copy, PartialEq, Eq, Structural)]
pub enum HdaInit {
    Start,
    GctlRead,
    PollRun { n: u32 },
    CheckRun,
    Wake,
    PollWake { n: u32 },
    Mask,
    NextCodec { from: u8 },
    Vendor { cad: u8 },
    Revision { cad: u8, vendor: u32 },
    Nodes { cad: u8, vendor: u32, revision: u32 },
}

/// Next thing the bring-up asks for.
#[derive(Debug)]
pub enum HdaAction {
    /// Perform these accesses; the value of the last read is the next input.
    Mmio(Vec<MmioOp>),
    /// Send a verb to a codec; its response (or error) is the next input.
    Verb { cad: u8, node: u8, verb: u32, payload: u32 },
    Done(HdaResult<()>),
}

/// The smallest codec address `cad` with `from <= cad < 15` whose bit is
/// set in `mask`.
pub open spec fn next_codec_spec(mask: u16, from: int) -> Option<u8>
    decreases CODEC_ADDRESSES - from,
{
    if from >= CODEC_ADDRESSES || from < 0 {
        None
    } else if mask & (1u16 << (from as u16)) != 0 {
        Some(from as u8)
    } else {
        next_codec_spec(mask, from + 1)
    }
}

pub open spec fn codec_record(cad: u8, vendor: u32, revision: u32, node_count: u32) -> HdaCodec {
    HdaCodec { cad, vendor_id: vendor, revision, nodes: (node_count >> 20u32) as u8 }
}

/// The writes that point the controller at its command and response rings
/// and enable them, followed by the read of the wake status.
pub open spec fn ring_setup_ops(corb_addr: u32, rirb_addr: u32) -> Seq<MmioOp> {
    seq![
        MmioOp::Write32(HDA_CORB_BASE, corb_addr),
        MmioOp::Write32((HDA_CORB_BASE + 4) as usize, 0),
        MmioOp::Write16(HDA_CORB_SIZE, 0),
        MmioOp::Write16(HDA_CORB_CTRL, 0x0002),
        MmioOp::Write16(HDA_CORB_CTRL, 0x0003),
        MmioOp::Write32(HDA_RIRB_BASE, rirb_addr),
        MmioOp::Write32((HDA_RIRB_BASE + 4) as usize, 0),
        MmioOp::Write16(HDA_RIRB_SIZE, 0),
        MmioOp::Write16(HDA_RIRB_CTRL, 0x0002),
        MmioOp::Write16(HDA_RIRB_CTRL, 0x0003),
        MmioOp::Write16(HDA_RIRB_INTR, 0x0001),
        MmioOp::Read16(HDA_STATESTS),
    ]
}

/// What the bring-up asks for after the codec scan resumes at `from`.
pub open spec fn scan_action(mask: u16, from: int) -> (HdaInit, Option<(u8, u32)>) {
    match next_codec_spec(mask, from) {
        Some(cad) => (HdaInit::Vendor { cad }, Some((cad, VERB_GET_VENDOR))),
        None => (HdaInit::NextCodec { from: CODEC_ADDRESSES }, None),
    }
}

/// The first stream, from `i` on among the first `STREAM_SLOTS`, whose
/// control register has the run bit clear.
pub open spec fn first_idle_from(ctls: Seq<u32>, i: int) -> Option<u8>
    decreases STREAM_SLOTS - i,
{
    if i < 0 || i >= STREAM_SLOTS {
        None
    } else if ctls[i] & 0x01 == 0 {
        Some(i as u8)
    } else {
        first_idle_from(ctls, i + 1)
    }
}

/// Where a controller reset stands.
#[derive(Debug, Clone, Copy, PartialEq, Eq, Structural)]
pub enum HdaReset {
    Start,
    GctlRead,
    /// Waiting for the controller to stop; `n` status reads were checked
    /// before this one, and `gctl` is the control value read at the start.
    PollStopped { n: u32, gctl: u32 },
    /// Waiting for the controller to run again.
    PollRunning { n: u32 },
}

/// Poll counters of a reset state stay below the limit.
pub open spec fn reset_state_ok(st: HdaReset) -> bool {
    match st {
        HdaReset::PollStopped { n, .. } => n < crate::mmio::POLLS_SHORT,
        HdaReset::PollRunning { n } => n < crate::mmio::POLLS_SHORT,
        _ => true,
    }
}

/// One transition of a reset: the next state, the accesses to make, or the
/// result.
pub open spec fn hda_reset_spec(st: HdaReset, input: u32) -> (HdaReset, Option<Seq<MmioOp>>, Option<HdaResult<()>>) {
    match st {
        HdaReset::Start => (HdaReset::GctlRead, Some(seq![MmioOp::Read32(HDA_GCTL)]), None),
        HdaReset::GctlRead => (HdaReset::PollStopped { n: 0, gctl: input },
            Some(seq![MmioOp::Write32(HDA_GCTL, input & !0x0001u32), MmioOp::Read8(HDA_GSTS)]), None),
        HdaReset::PollStopped { n, gctl } => if input & 0x01 == 0 || n + 1 >= crate::mmio::POLLS_SHORT {
            (HdaReset::PollRunning { n: 0 },
                Some(seq![MmioOp::Write32(HDA_GCTL, gctl | 0x0001u32), MmioOp::Read8(HDA_GSTS)]), None)
        } else {
            (HdaReset::PollStopped { n: (n + 1) as u32, gctl }, Some(seq![MmioOp::Read8(HDA_GSTS)]), None)
        },
        HdaReset::PollRunning { n } => if input & 0x01 != 0 {
            (st, None, Some(Ok(())))
        } else if n + 1 >= crate::mmio::POLLS_SHORT {
            (st, None, Some(Err(HdaError::Timeout)))
        } else {
            (HdaReset::PollRunning { n: (n + 1) as u32 }, Some(seq![MmioOp::Read8(HDA_GSTS)]), None)
        },
    }
}

/// The codec address the scan looks at next.
pub open spec fn codec_frontier(st: HdaInit) -> int {
    match st {
        HdaInit::NextCodec { from } => from as int,
        HdaInit::Vendor { cad } => cad as int,
        HdaInit::Revision { cad, .. } => cad as int,
        HdaInit::Nodes { cad, .. } => cad as int,
        _ => 0,
    }
}

/// Codec address `c` reports in `mask`.
pub open spec fn reported(mask: u16, c: int) -> bool {
    0 <= c < CODEC_ADDRESSES && mask & (1u16 << (c as u16)) != 0
}

/// The recorded codecs are the reporting ones below the scan frontier; a
/// codec being asked about reports.
pub open spec fn codecs_match(codecs: Seq<Option<HdaCodec>>, mask: u16, st: HdaInit) -> bool {
    &&& codecs.len() == 16
    &&& codec_frontier(st) <= CODEC_ADDRESSES
    &&& forall|c: int| 0 <= c < 16 ==> (#[trigger] codecs[c] is Some <==> (c < codec_frontier(st) && reported(mask, c)))
    &&& (st is Vendor || st is Revision || st is Nodes) ==> reported(mask, codec_frontier(st))
}

proof fn lemma_next_codec_found(mask: u16, from: int)
    requires
        0 <= from,
    ensures
        next_codec_spec(mask, from) matches Some(cad) ==> from <= cad && reported(mask, cad as int)
            && forall|c: int| from <= c < cad ==> !#[trigger] reported(mask, c),
        next_codec_spec(mask, from) is None ==> forall|c: int| from <= c < CODEC_ADDRESSES ==> !#[trigger] reported(mask, c),
    decreases CODEC_ADDRESSES - from,
{
    if from < CODEC_ADDRESSES {
        lemma_next_codec_found(mask, from + 1);
    }
}

proof fn lemma_scan_keeps_codecs_matched(codecs: Seq<Option<HdaCodec>>, mask: u16, from: int, next: HdaInit)
    requires
        codecs.len() == 16,
        0 <= from <= CODEC_ADDRESSES,
        forall|c: int| 0 <= c < 16 ==> (#[trigger] codecs[c] is Some <==> (c < from && reported(mask, c))),
        next == scan_action(mask, from).0,
    ensures
        codecs_match(codecs, mask, next),
{
    lemma_next_codec_found(mask, from);
}

proof fn lemma_step_keeps_codecs_matched(
    before: HdaController,
    after: HdaController,
    st: HdaInit,
    next: HdaInit,
    input: HdaResult<u32>,
    corb_addr: u32,
    rirb_addr: u32,
    r: HdaAction,
)
    requires
        hda_init_ensures(before, after, st, next, input, corb_addr, rirb_addr, r),
        before.wf(),
        after.wf(),
    ensures
        codecs_match(before.spec_codecs(), before.spec_mask(), st)
            ==> codecs_match(after.spec_codecs(), after.spec_mask(), next),
{
    if codecs_match(before.spec_codecs(), before.spec_mask(), st) {
        let codecs = before.spec_codecs();
        let mask = before.spec_mask();
        match st {
            HdaInit::NextCodec { from } => {
                lemma_scan_keeps_codecs_matched(codecs, mask, from as int, next);
            },
            HdaInit::Nodes { cad, vendor, revision } => {
                match input {
                    Ok(node_count) => {
                        let updated = codecs.update(cad as int, Some(codec_record(cad, vendor, revision, node_count)));
                        assert forall|c: int| 0 <= c < 16 implies (#[trigger] updated[c] is Some
                            <==> (c < cad + 1 && reported(mask, c))) by {
                            if c != cad {
                                assert(updated[c] == codecs[c]);
                            }
                        }
                        lemma_scan_keeps_codecs_matched(updated, mask, cad + 1, next);
                    },
                    Err(_) => {},
                }
            },
            HdaInit::Mask => {
                assert forall|c: int| 0 <= c < 16 implies !(#[trigger] after.spec_codecs()[c] is Some) by {
                    assert(!(c < codec_frontier(st)));
                }
            },
            _ => {},
        }
    }
}

pub struct HdaController {
    mmio_base: usize,
    corb_ready: bool,
    corb_wp: u8,
    rirb_rp: u8,
    codec_mask: u16,
    codecs: Vec<Option<HdaCodec>>,
    initialized: bool,
}

impl HdaController {
    pub closed spec fn wf(&self) -> bool {
        &&& self.codecs.len() == 16
        &&& self.codecs@[CODEC_ADDRESSES as int] is None
    }

    pub closed spec fn spec_base(&self) -> usize {
        self.mmio_base
    }

    pub closed spec fn spec_codecs(&self) -> Seq<Option<HdaCodec>> {
        self.codecs@
    }

    pub closed spec fn spec_rings_ready(&self) -> bool {
        self.corb_ready
    }

    pub closed spec fn spec_rirb_rp(&self) -> u8 {
        self.rirb_rp
    }

    pub closed spec fn spec_mask(&self) -> u16 {
        self.codec_mask
    }

    pub closed spec fn spec_initialized(&self) -> bool {
        self.initialized
    }

    pub fn new(mmio_base: usize) -> (r: Self)
        ensures
            r.wf(),
            r.spec_base() == mmio_base,
            r.spec_codecs() == Seq::new(16, |i: int| None::<HdaCodec>),
            count_some(r.spec_codecs()) == 0,
            !r.spec_rings_ready(),
            r.spec_rirb_rp() == 0,
            !r.spec_initialized(),
            codecs_match(r.spec_codecs(), r.spec_mask(), HdaInit::Start),
    {
        let mut codecs: Vec<Option<HdaCodec>> = Vec::new();
        let mut i: usize = 0;
        while i < 16
            invariant
                i <= 16,
                codecs@ == Seq::new(i as nat, |k: int| None::<HdaCodec>),
            decreases 16 - i,
        {
            codecs.push(None);
            i = i + 1;
            assert(codecs@ =~= Seq::new(i as nat, |k: int| None::<HdaCodec>));
        }
        proof {
            lemma_count_some_bounds(codecs@);
        }
        Self {
            mmio_base,
            corb_ready: false,
            corb_wp: 0,
            rirb_rp: 0,
            codec_mask: 0,
            codecs,
            initialized: false,
        }
    }

    pub fn base(&self) -> (r: usize)
        ensures
            r == self.spec_base(),
    {
        self.mmio_base
    }

    /// One step of the controller bring-up. `input` is the value of the last
    /// read, or the response to the last verb. The bring-up takes the
    /// controller out of reset and waits for it, points it at the command
    /// and response rings at `corb_addr` and `rirb_addr`, wakes the codecs if
    /// none reported, then asks each reporting codec (addresses 0 to 14) for
    /// its vendor id, revision and node count and records it. A controller
    /// that stays in reset ends it with `InitFailed`; a failed verb ends it
    /// with that verb's error.
    /// A bring-up started on a fresh controller records exactly the
    /// reporting codecs it has reached, so that once it ends successfully a
    /// codec is recorded at an address if and only if the address is below
    /// 15 and its bit is set in the wake status mask.
    pub fn init(&mut self, st: &mut HdaInit, input: HdaResult<u32>, corb_addr: u32, rirb_addr: u32) -> (r: HdaAction)
        requires
            old(self).wf(),
        ensures
            final(self).wf(),
            final(self).spec_base() == old(self).spec_base(),
            final(self).spec_rirb_rp() == old(self).spec_rirb_rp(),
            hda_init_ensures(*old(self), *final(self), *old(st), *final(st), input, corb_addr, rirb_addr, r),
            codecs_match(old(self).spec_codecs(), old(self).spec_mask(), *old(st))
                ==> codecs_match(final(self).spec_codecs(), final(self).spec_mask(), *final(st)),
    {
        let ghost before = *self;
        let ghost st0 = *st;
        let r = self.step(st, input, corb_addr, rirb_addr);
        proof {
            lemma_step_keeps_codecs_matched(before, *self, st0, *st, input, corb_addr, rirb_addr, r);
        }
        r
    }

    fn step(&mut self, st: &mut HdaInit, input: HdaResult<u32>, corb_addr: u32, rirb_addr: u32) -> (r: HdaAction)
        requires
            old(self).wf(),
        ensures
            final(self).wf(),
            final(self).spec_base() == old(self).spec_base(),
            final(self).spec_rirb_rp() == old(self).spec_rirb_rp(),
            hda_init_ensures(*old(self), *final(self), *old(st), *final(st), input, corb_addr, rirb_addr, r),
    {
        let v: u32 = match input {
            Ok(v) => v,
            Err(_) => 0,
        };
        let mut ops: Vec<MmioOp> = Vec::new();
        match *st {
            HdaInit::Start => {
                ops.push(MmioOp::Read32(HDA_GCTL));
                *st = HdaInit::GctlRead;
            },
            HdaInit::GctlRead => {
                ops.push(MmioOp::Write32(HDA_GCTL, v | 0x0001));
                ops.push(MmioOp::Read8(HDA_GSTS));
                *st = HdaInit::PollRun { n: 0 };
            },
            HdaInit::PollRun { n } => {
                ops.push(MmioOp::Read8(HDA_GSTS));
                if v & 0x01 != 0 || n >= crate::mmio::POLLS_SHORT - 1 {
                    *st = HdaInit::CheckRun;
                } else {
                    *st = HdaInit::PollRun { n: n + 1 };
                }
            },
            HdaInit::CheckRun => {
                if v & 0x01 == 0 {
                    return HdaAction::Done(Err(HdaError::InitFailed));
                }
                self.corb_ready = true;
                ops.push(MmioOp::Write32(HDA_CORB_BASE, corb_addr));
                ops.push(MmioOp::Write32(HDA_CORB_BASE + 4, 0));
                ops.push(MmioOp::Write16(HDA_CORB_SIZE, 0));
                ops.push(MmioOp::Write16(HDA_CORB_CTRL, 0x0002));
                ops.push(MmioOp::Write16(HDA_CORB_CTRL, 0x0003));
                ops.push(MmioOp::Write32(HDA_RIRB_BASE, rirb_addr));
                ops.push(MmioOp::Write32(HDA_RIRB_BASE + 4, 0));
                ops.push(MmioOp::Write16(HDA_RIRB_SIZE, 0));
                ops.push(MmioOp::Write16(HDA_RIRB_CTRL, 0x0002));
                ops.push(MmioOp::Write16(HDA_RIRB_CTRL, 0x0003));
                ops.push(MmioOp::Write16(HDA_RIRB_INTR, 0x0001));
                ops.push(MmioOp::Read16(HDA_STATESTS));
                *st = HdaInit::Wake;
            },
            HdaInit::Wake => {
                if v & 0xFFFF == 0 {
                    ops.push(MmioOp::Write16(HDA_WAKEEN, 0x7FFF));
                    ops.push(MmioOp::Read16(HDA_STATESTS));
                    *st = HdaInit::PollWake { n: 0 };
                } else {
                    ops.push(MmioOp::Read16(HDA_STATESTS));
                    *st = HdaInit::Mask;
                }
            },
            HdaInit::PollWake { n } => {
                ops.push(MmioOp::Read16(HDA_STATESTS));
                if v & 0xFFFF != 0 || n >= crate::mmio::POLLS_SHORT - 1 {
                    *st = HdaInit::Mask;
                } else {
                    *st = HdaInit::PollWake { n: n + 1 };
                }
            },
            HdaInit::Mask => {
                let mask = #[verifier::truncate] ((v & 0xFFFF) as u16);
                self.codec_mask = mask;
                ops.push(MmioOp::Write16(HDA_STATESTS, mask));
                *st = HdaInit::NextCodec { from: 0 };
            },
            HdaInit::NextCodec { from } => {
                return self.scan(st, from);
            },
            HdaInit::Vendor { cad } => {
                match input {
                    Err(e) => {
                        return HdaAction::Done(Err(e));
                    },
                    Ok(vendor) => {
                        *st = HdaInit::Revision { cad, vendor };
                        return HdaAction::Verb { cad, node: 0, verb: VERB_GET_REVISION, payload: 0 };
                    },
                }
            },
            HdaInit::Revision { cad, vendor } => {
                match input {
                    Err(e) => {
                        return HdaAction::Done(Err(e));
                    },
                    Ok(revision) => {
                        *st = HdaInit::Nodes { cad, vendor, revision };
                        return HdaAction::Verb { cad, node: 0, verb: VERB_GET_NODES, payload: 0 };
                    },
                }
            },
            HdaInit::Nodes { cad, vendor, revision } => {
                match input {
                    Err(e) => {
                        return HdaAction::Done(Err(e));
                    },
                    Ok(node_count) => {
                        if cad < CODEC_ADDRESSES {
                            self.codecs.set(cad as usize, Some(HdaCodec {
                                cad,
                                vendor_id: vendor,
                                revision,
                                nodes: #[verifier::truncate] ((node_count >> 20u32) as u8),
                            }));
                        }
                        let from: u8 = if cad < 255 { cad + 1 } else { 255 };
                        return self.scan(st, from);
                    },
                }
            },
        }
        proof {
            let sops = init_mmio_spec(*old(st), v, corb_addr, rirb_addr);
            assert(ops@ =~= sops);
        }
        HdaAction::Mmio(ops)
    }

    fn scan(&mut self, st: &mut HdaInit, from: u8) -> (r: HdaAction)
        requires
            old(self).wf(),
        ensures
            final(self).wf(),
            final(self).spec_base() == old(self).spec_base(),
            final(self).spec_rirb_rp() == old(self).spec_rirb_rp(),
            final(self).spec_codecs() == old(self).spec_codecs(),
            final(self).spec_mask() == old(self).spec_mask(),
            final(self).spec_rings_ready() == old(self).spec_rings_ready(),
            *final(st) == scan_action(old(self).spec_mask(), from as int).0,
            match scan_action(old(self).spec_mask(), from as int).1 {
                Some((cad, verb)) => r == HdaAction::Verb { cad, node: 0, verb, payload: 0 }
                    && final(self).spec_initialized() == old(self).spec_initialized(),
                None => r == HdaAction::Done(Ok(())) && final(self).spec_initialized(),
            },
    {
        match next_codec(self.codec_mask, from) {
            Some(cad) => {
                *st = HdaInit::Vendor { cad };
                HdaAction::Verb { cad, node: 0, verb: VERB_GET_VENDOR, payload: 0 }
            },
            None => {
                *st = HdaInit::NextCodec { from: CODEC_ADDRESSES };
                self.initialized = true;
                HdaAction::Done(Ok(()))
            },
        }
    }

    /// Starts a verb: `None` before the rings are set up (the verb fails
    /// with `InitFailed`); otherwise the CORB entry, the slot `wp` (the
    /// current write pointer) it goes to, and the next write pointer.
    pub fn verb_request(&self, cad: u8, node: u8, verb: u32, payload: u32, wp: u16) -> (r: HdaResult<VerbRequest>)
        ensures
            !self.spec_rings_ready() ==> r == Err::<VerbRequest, HdaError>(HdaError::InitFailed),
            self.spec_rings_ready() ==> r == Ok::<VerbRequest, HdaError>(VerbRequest {
                slot: wp as usize,
                entry: corb_entry_spec(cad, node, verb, payload),
                next_wp: ((wp + 1) % (CORB_ENTRIES as int)) as u16,
            }),
    {
        if !self.corb_ready {
            return Err(HdaError::InitFailed);
        }
        let entry = corb_entry(cad, node, verb, payload);
        let w = wp as usize;
        let next_wp = ((w + 1) % CORB_ENTRIES) as u16;
        Ok(VerbRequest { slot: w, entry, next_wp })
    }

    /// Checks the RIRB write pointer `rp` for a new response; when there is
    /// one, it is consumed and the slot to read and the acknowledgement are
    /// returned.
    pub fn verb_response(&mut self, rp: u16) -> (r: Option<VerbResponse>)
        ensures
            final(self).spec_codecs() == old(self).spec_codecs(),
            final(self).spec_rings_ready() == old(self).spec_rings_ready(),
            final(self).spec_mask() == old(self).spec_mask(),
            final(self).spec_initialized() == old(self).spec_initialized(),
            final(self).spec_base() == old(self).spec_base(),
            rp as int == old(self).spec_rirb_rp() as int ==> r is None && final(self).spec_rirb_rp() == old(self).spec_rirb_rp(),
            rp as int != old(self).spec_rirb_rp() as int ==> r == Some(VerbResponse { slot: (rp * 2) as usize, ack: 0x4000u16 | rp })
                && final(self).spec_rirb_rp() == rp as u8,
    {
        if rp as usize == self.rirb_rp as usize {
            return None;
        }
        self.rirb_rp = rp as u8;
        Some(VerbResponse { slot: (rp as usize) * 2, ack: 0x4000u16 | rp })
    }

    /// One poll of the RIRB write pointer while waiting for the response
    /// to a verb, after `polls_done` earlier polls found nothing: a new
    /// response is consumed as `verb_response` does; otherwise the wait
    /// goes on (`None`) until `VERB_POLLS` polls have found nothing, which
    /// ends it with `Timeout`.
    pub fn verb_poll(&mut self, polls_done: u32, rp: u16) -> (r: Option<HdaResult<VerbResponse>>)
        requires
            polls_done < VERB_POLLS,
        ensures
            final(self).spec_codecs() == old(self).spec_codecs(),
            final(self).spec_rings_ready() == old(self).spec_rings_ready(),
            final(self).spec_mask() == old(self).spec_mask(),
            final(self).spec_initialized() == old(self).spec_initialized(),
            final(self).spec_base() == old(self).spec_base(),
            rp as int == old(self).spec_rirb_rp() as int ==> final(self).spec_rirb_rp() == old(self).spec_rirb_rp()
                && r == if polls_done + 1 >= VERB_POLLS { Some(Err::<VerbResponse, HdaError>(HdaError::Timeout)) } else { None },
            rp as int != old(self).spec_rirb_rp() as int ==> r == Some(Ok::<VerbResponse, HdaError>(
                VerbResponse { slot: (rp * 2) as usize, ack: 0x4000u16 | rp })) && final(self).spec_rirb_rp() == rp as u8,
    {
        match self.verb_response(rp) {
            Some(resp) => Some(Ok(resp)),
            None => {
                if polls_done + 1 >= VERB_POLLS {
                    Some(Err(HdaError::Timeout))
                } else {
                    None
                }
            },
        }
    }

    /// The codec recorded at address `cad`.
    pub fn codec(&self, cad: u8) -> (r: Option<HdaCodec>)
        requires
            self.wf(),
        ensures
            cad < 16 ==> r == self.spec_codecs()[cad as int],
            cad >= 16 ==> r is None,
    {
        if (cad as usize) < self.codecs.len() {
            self.codecs[cad as usize]
        } else {
            None
        }
    }

    /// A well-formed controller records at most 15 codecs: only addresses
    /// below 15 are ever filled.
    pub proof fn lemma_codec_count(&self)
        requires
            self.wf(),
        ensures
            self.spec_codecs().len() == 16,
            !(self.spec_codecs()[CODEC_ADDRESSES as int] is Some),
            count_some(self.spec_codecs()) <= CODEC_ADDRESSES,
    {
        let codecs = self.spec_codecs();
        lemma_count_some_bounds(codecs.drop_last());
        assert(codecs.last() == codecs[15]);
    }

    /// Number of codecs recorded.
    pub fn codec_count(&self) -> (r: usize)
        requires
            self.wf(),
        ensures
            r == count_some(self.spec_codecs()),
            r <= CODEC_ADDRESSES,
    {
        let mut n: usize = 0;
        let mut i: usize = 0;
        while i < self.codecs.len()
            invariant
                i <= self.codecs@.len(),
                self.codecs@.len() == 16,
                n == count_some(self.codecs@.take(i as int)),
                n <= i,
            decreases self.codecs@.len() - i,
        {
            if self.codecs[i].is_some() {
                n = n + 1;
            }
            assert(self.codecs@.take(i + 1).drop_last() =~= self.codecs@.take(i as int));
            i = i + 1;
        }
        assert(self.codecs@.take(16) =~= self.codecs@);
        proof {
            self.lemma_codec_count();
        }
        n
    }

    /// Offset, as given to the register accessors, of the control register
    /// of stream `stream_id`; it includes the base address.
    pub fn stream_ctl_offset(&self, stream_id: u8) -> (r: usize)
        requires
            self.spec_base() + SD_OFFSET + stream_id * SD_STRIDE <= usize::MAX,
        ensures
            r == self.spec_base() + SD_OFFSET + stream_id * SD_STRIDE + SDS_CTRL,
    {
        self.mmio_base + SD_OFFSET + (stream_id as usize) * SD_STRIDE + SDS_CTRL
    }

    /// The first free stream descriptor among the first `STREAM_SLOTS`:
    /// `ctls[i]` is the control register of stream `i` (read at
    /// `stream_ctl_offset(i)`); `None` when every one is running.
    pub fn allocate_stream(&self, _direction: StreamDir, ctls: &[u32]) -> (r: Option<u8>)
        requires
            ctls@.len() >= STREAM_SLOTS,
        ensures
            r == first_idle_from(ctls@, 0),
            r matches Some(i) ==> i < STREAM_SLOTS && ctls@[i as int] & 0x01 == 0
                && forall|j: int| 0 <= j < i ==> #[trigger] ctls@[j] & 0x01 != 0,
            r is None ==> forall|j: int| 0 <= j < STREAM_SLOTS ==> #[trigger] ctls@[j] & 0x01 != 0,
    {
        let mut i: u8 = 0;
        while i < STREAM_SLOTS
            invariant
                i <= STREAM_SLOTS,
                ctls@.len() >= STREAM_SLOTS,
                first_idle_from(ctls@, 0) == first_idle_from(ctls@, i as int),
                forall|j: int| 0 <= j < i ==> #[trigger] ctls@[j] & 0x01 != 0,
            decreases STREAM_SLOTS - i,
        {
            if ctls[i as usize] & 0x01 == 0 {
                return Some(i);
            }
            i = i + 1;
        }
        None
    }

    /// One step of a controller reset: clear the run bit of the global
    /// control register and wait (at most `POLLS_SHORT` reads) for the
    /// status to show it stopped, then set the run bit again and wait as long
    /// for it to show running. `input` is the value of the last read. A
    /// controller that does not come back ends it with `Timeout`.
    pub fn reset(&self, st: &mut HdaReset, input: u32) -> (r: HdaAction)
        requires
            reset_state_ok(*old(st)),
        ensures
            reset_state_ok(*final(st)),
            ({
                let (next, ops, res) = hda_reset_spec(*old(st), input);
                &&& *final(st) == next
                &&& match r {
                    HdaAction::Mmio(v) => ops == Some(v@) && res is None,
                    HdaAction::Done(d) => ops is None && res == Some(d),
                    HdaAction::Verb { .. } => false,
                }
            }),
    {
        let mut ops: Vec<MmioOp> = Vec::new();
        match *st {
            HdaReset::Start => {
                ops.push(MmioOp::Read32(HDA_GCTL));
                *st = HdaReset::GctlRead;
            },
            HdaReset::GctlRead => {
                ops.push(MmioOp::Write32(HDA_GCTL, input & !0x0001u32));
                ops.push(MmioOp::Read8(HDA_GSTS));
                *st = HdaReset::PollStopped { n: 0, gctl: input };
            },
            HdaReset::PollStopped { n, gctl } => {
                if input & 0x01 == 0 || n + 1 >= crate::mmio::POLLS_SHORT {
                    ops.push(MmioOp::Write32(HDA_GCTL, gctl | 0x0001));
                    ops.push(MmioOp::Read8(HDA_GSTS));
                    *st = HdaReset::PollRunning { n: 0 };
                } else {
                    ops.push(MmioOp::Read8(HDA_GSTS));
                    *st = HdaReset::PollStopped { n: n + 1, gctl };
                }
            },
            HdaReset::PollRunning { n } => {
                if input & 0x01 != 0 {
                    return HdaAction::Done(Ok(()));
                }
                if n + 1 >= crate::mmio::POLLS_SHORT {
                    return HdaAction::Done(Err(HdaError::Timeout));
                }
                ops.push(MmioOp::Read8(HDA_GSTS));
                *st = HdaReset::PollRunning { n: n + 1 };
            },
        }
        proof {
            let (next, sops, res) = hda_reset_spec(*old(st), input);
            assert(ops@ =~= sops.unwrap());
        }
        HdaAction::Mmio(ops)
    }

    /// A stream descriptor whose run bit is clear is free.
    pub fn stream_idle(ctl: u32) -> (r: bool)
        ensures
            r == (ctl & 0x01 == 0),
    {
        ctl & 0x01 == 0
    }

    /// The write that sets the run bit of stream `stream_id`, whose control
    /// register reads `ctl`.
    pub fn start_stream(&self, stream_id: u8, ctl: u32) -> (r: MmioOp)
        requires
            self.spec_base() + SD_OFFSET + stream_id * SD_STRIDE <= usize::MAX,
        ensures
            r == MmioOp::Write32((self.spec_base() + SD_OFFSET + stream_id * SD_STRIDE) as usize, ctl | 0x0001),
    {
        let s_base = self.mmio_base + SD_OFFSET + (stream_id as usize) * SD_STRIDE;
        MmioOp::Write32(s_base + SDS_CTRL, ctl | 0x0001)
    }

    /// The write that clears the run bit of stream `stream_id`.
    pub fn stop_stream(&self, stream_id: u8, ctl: u32) -> (r: MmioOp)
        requires
            self.spec_base() + SD_OFFSET + stream_id * SD_STRIDE <= usize::MAX,
        ensures
            r == MmioOp::Write32((self.spec_base() + SD_OFFSET + stream_id * SD_STRIDE) as usize, ctl & !0x0001u32),
    {
        let s_base = self.mmio_base + SD_OFFSET + (stream_id as usize) * SD_STRIDE;
        MmioOp::Write32(s_base + SDS_CTRL, ctl & !0x0001u32)
    }

    /// The writes that hand buffer descriptor list `bdl`, found at address
    /// `bdl_addr`, to stream `stream_id`: its address, last valid index and
    /// total buffer length.
    pub fn setup_stream_bdl(&self, stream_id: u8, bdl: &[HdaBdlEntry], bdl_count: u32, bdl_addr: u64) -> (r: Vec<MmioOp>)
        requires
            self.spec_base() + SD_OFFSET + stream_id * SD_STRIDE + SDS_BDPU <= usize::MAX,
            total_length(bdl@) <= u32::MAX,
        ensures
            ({
                let s = (self.spec_base() + SD_OFFSET + stream_id * SD_STRIDE) as int;
                r@ == seq![
                    MmioOp::Write32((s + SDS_BDPL) as usize, bdl_addr as u32),
                    MmioOp::Write32((s + SDS_BDPU) as usize, (bdl_addr >> 32u64) as u32),
                    MmioOp::Write16((s + SDS_LVI) as usize, if bdl_count > 0 { (bdl_count - 1) as u16 } else { 0u16 }),
                    MmioOp::Write32((s + SDS_CBL) as usize, total_length(bdl@) as u32),
                ]
            }),
    {
        let s_base = self.mmio_base + SD_OFFSET + (stream_id as usize) * SD_STRIDE;
        let lvi: u16 = if bdl_count > 0 { #[verifier::truncate] ((bdl_count - 1) as u16) } else { 0 };
        let cbl = sum_lengths(bdl);
        let mut ops: Vec<MmioOp> = Vec::new();
        ops.push(MmioOp::Write32(s_base + SDS_BDPL, #[verifier::truncate] (bdl_addr as u32)));
        ops.push(MmioOp::Write32(s_base + SDS_BDPU, #[verifier::truncate] ((bdl_addr >> 32u64) as u32)));
        ops.push(MmioOp::Write16(s_base + SDS_LVI, lvi));
        ops.push(MmioOp::Write32(s_base + SDS_CBL, cbl));
        let ghost s = (self.spec_base() + SD_OFFSET + stream_id * SD_STRIDE) as int;
        assert(ops@ =~= seq![
            MmioOp::Write32((s + SDS_BDPL) as usize, bdl_addr as u32),
            MmioOp::Write32((s + SDS_BDPU) as usize, (bdl_addr >> 32u64) as u32),
            MmioOp::Write16((s + SDS_LVI) as usize, if bdl_count > 0 { (bdl_count - 1) as u16 } else { 0u16 }),
            MmioOp::Write32((s + SDS_CBL) as usize, total_length(bdl@) as u32),
        ]);
        ops
    }
}

/// What one bring-up step does.
pub open spec fn hda_init_ensures(
    before: HdaController,
    after: HdaController,
    st: HdaInit,
    next: HdaInit,
    input: HdaResult<u32>,
    corb_addr: u32,
    rirb_addr: u32,
    r: HdaAction,
) -> bool {
    let v: u32 = match input {
        Ok(v) => v,
        Err(_) => 0,
    };
    match st {
        HdaInit::CheckRun => if v & 0x01 == 0 {
            r == HdaAction::Done(Err(HdaError::InitFailed)) && after == before && next == st
        } else {
            is_mmio(r, init_mmio_spec(st, v, corb_addr, rirb_addr))
                && next == HdaInit::Wake && after.spec_rings_ready()
                && after.spec_codecs() == before.spec_codecs()
                && after.spec_mask() == before.spec_mask()
                && after.spec_initialized() == before.spec_initialized()
        },
        HdaInit::Mask => is_mmio(r, init_mmio_spec(st, v, corb_addr, rirb_addr))
            && next == (HdaInit::NextCodec { from: 0 })
            && after.spec_mask() == (v & 0xFFFF) as u16
            && after.spec_codecs() == before.spec_codecs()
            && after.spec_rings_ready() == before.spec_rings_ready()
            && after.spec_initialized() == before.spec_initialized(),
        HdaInit::NextCodec { from } => scan_ensures(before, after, from as int, next, r)
            && after.spec_codecs() == before.spec_codecs(),
        HdaInit::Vendor { cad } => match input {
            Err(e) => r == HdaAction::Done(Err(e)) && after == before && next == st,
            Ok(vendor) => r == (HdaAction::Verb { cad, node: 0, verb: VERB_GET_REVISION, payload: 0 })
                && next == (HdaInit::Revision { cad, vendor }) && after == before,
        },
        HdaInit::Revision { cad, vendor } => match input {
            Err(e) => r == HdaAction::Done(Err(e)) && after == before && next == st,
            Ok(revision) => r == (HdaAction::Verb { cad, node: 0, verb: VERB_GET_NODES, payload: 0 })
                && next == (HdaInit::Nodes { cad, vendor, revision }) && after == before,
        },
        HdaInit::Nodes { cad, vendor, revision } => match input {
            Err(e) => r == HdaAction::Done(Err(e)) && after == before && next == st,
            Ok(node_count) => {
                &&& after.spec_codecs() == if cad < CODEC_ADDRESSES {
                    before.spec_codecs().update(cad as int, Some(codec_record(cad, vendor, revision, node_count)))
                } else {
                    before.spec_codecs()
                }
                &&& scan_ensures(before, after, if cad < 255 { cad + 1 } else { 255 }, next, r)
            },
        },
        _ => is_mmio(r, init_mmio_spec(st, v, corb_addr, rirb_addr))
            && next == init_next_spec(st, v)
            && after.spec_codecs() == before.spec_codecs()
            && after.spec_mask() == before.spec_mask()
            && after.spec_rings_ready() == before.spec_rings_ready()
            && after.spec_initialized() == before.spec_initialized(),
    }
}

/// A codec scan step: the next reporting codec gets asked for its vendor
/// id, or, with none left, the bring-up ends successfully.
pub open spec fn scan_ensures(before: HdaController, after: HdaController, from: int, next: HdaInit, r: HdaAction) -> bool {
    &&& next == scan_action(before.spec_mask(), from).0
    &&& after.spec_mask() == before.spec_mask()
    &&& after.spec_rings_ready() == before.spec_rings_ready()
    &&& match scan_action(before.spec_mask(), from).1 {
        Some((cad, verb)) => r == (HdaAction::Verb { cad, node: 0, verb, payload: 0 })
            && after.spec_initialized() == before.spec_initialized(),
        None => r == HdaAction::Done(Ok(())) && after.spec_initialized(),
    }
}

/// `r` asks for exactly the accesses `ops`.
pub open spec fn is_mmio(r: HdaAction, ops: Seq<MmioOp>) -> bool {
    match r {
        HdaAction::Mmio(v) => v@ == ops,
        _ => false,
    }
}

/// Register accesses of the bring-up steps that only touch registers.
pub open spec fn init_mmio_spec(st: HdaInit, v: u32, corb_addr: u32, rirb_addr: u32) -> Seq<MmioOp> {
    match st {
        HdaInit::Start => seq![MmioOp::Read32(HDA_GCTL)],
        HdaInit::GctlRead => seq![MmioOp::Write32(HDA_GCTL, v | 0x0001), MmioOp::Read8(HDA_GSTS)],
        HdaInit::PollRun { n } => seq![MmioOp::Read8(HDA_GSTS)],
        HdaInit::CheckRun => ring_setup_ops(corb_addr, rirb_addr),
        HdaInit::Wake => if v & 0xFFFF == 0 {
            seq![MmioOp::Write16(HDA_WAKEEN, 0x7FFF), MmioOp::Read16(HDA_STATESTS)]
        } else {
            seq![MmioOp::Read16(HDA_STATESTS)]
        },
        HdaInit::PollWake { n } => seq![MmioOp::Read16(HDA_STATESTS)],
        HdaInit::Mask => seq![MmioOp::Write16(HDA_STATESTS, (v & 0xFFFF) as u16)],
        _ => Seq::empty(),
    }
}

/// The state after a register-only bring-up step.
pub open spec fn init_next_spec(st: HdaInit, v: u32) -> HdaInit {
    match st {
        HdaInit::Start => HdaInit::GctlRead,
        HdaInit::GctlRead => HdaInit::PollRun { n: 0 },
        HdaInit::PollRun { n } => if v & 0x01 != 0 || n >= crate::mmio::POLLS_SHORT - 1 {
            HdaInit::CheckRun
        } else {
            HdaInit::PollRun { n: (n + 1) as u32 }
        },
        HdaInit::Wake => if v & 0xFFFF == 0 { HdaInit::PollWake { n: 0 } } else { HdaInit::Mask },
        HdaInit::PollWake { n } => if v & 0xFFFF != 0 || n >= crate::mmio::POLLS_SHORT - 1 {
            HdaInit::Mask
        } else {
            HdaInit::PollWake { n: (n + 1) as u32 }
        },
        _ => st,
    }
}

pub open spec fn count_some(s: Seq<Option<HdaCodec>>) -> nat
    decreases s.len(),
{
    if s.len() == 0 {
        0
    } else {
        count_some(s.drop_last()) + if s.last() is Some { 1nat } else { 0nat }
    }
}

proof fn lemma_count_some_bounds(s: Seq<Option<HdaCodec>>)
    ensures
        count_some(s) <= s.len(),
        (forall|i: int| 0 <= i < s.len() ==> !(#[trigger] s[i] is Some)) ==> count_some(s) == 0,
    decreases s.len(),
{
    if s.len() > 0 {
        lemma_count_some_bounds(s.drop_last());
        assert forall|i: int| 0 <= i < s.drop_last().len() implies #[trigger] s.drop_last()[i] == s[i] by {}
    }
}

/// A controller whose recorded codecs match its bring-up holds at most 15
/// of them, since only addresses below 15 are scanned, and none before the
/// scan has reached any codec.
pub proof fn lemma_codec_count_bound(codecs: Seq<Option<HdaCodec>>, mask: u16, st: HdaInit)
    requires
        codecs_match(codecs, mask, st),
    ensures
        count_some(codecs) <= CODEC_ADDRESSES,
        codec_frontier(st) == 0 ==> count_some(codecs) == 0,
{
    assert(!(codecs[15] is Some));
    lemma_count_some_bounds(codecs.drop_last());
    lemma_count_some_bounds(codecs);
    if codec_frontier(st) == 0 {
        assert forall|i: int| 0 <= i < codecs.len() implies !(#[trigger] codecs[i] is Some) by {}
    }
}

fn next_codec(mask: u16, from: u8) -> (r: Option<u8>)
    ensures
        r == next_codec_spec(mask, from as int),
{
    let mut cad: u8 = from;
    while cad < CODEC_ADDRESSES
        invariant
            from <= cad,
            next_codec_spec(mask, from as int) == next_codec_spec(mask, cad as int),
        decreases CODEC_ADDRESSES - cad,
    {
        if mask & (1u16 << (cad as u16)) != 0 {
            return Some(cad);
        }
        cad = cad + 1;
    }
    None
}

fn sum_lengths(bdl: &[HdaBdlEntry]) -> (r: u32)
    requires
        total_length(bdl@) <= u32::MAX,
    ensures
        r == total_length(bdl@),
{
    let mut total: u32 = 0;
    let mut i: usize = 0;
    while i < bdl.len()
        invariant
            i <= bdl@.len(),
            total == total_length(bdl@.take(i as int)),
            total_length(bdl@) <= u32::MAX,
        decreases bdl@.len() - i,
    {
        proof {
            lemma_total_prefix(bdl@, i as int + 1);
            assert(bdl@.take(i + 1).drop_last() =~= bdl@.take(i as int));
        }
        total = total + bdl[i].length;
        i = i + 1;
    }
    assert(bdl@.take(i as int) =~= bdl@);
    total
}

proof fn lemma_total_prefix(s: Seq<HdaBdlEntry>, k: int)
    requires
        0 <= k <= s.len(),
    ensures
        total_length(s.take(k)) <= total_length(s),
    decreases s.len(),
{
    if k < s.len() {
        assert(s.drop_last().take(k) =~= s.take(k));
        lemma_total_prefix(s.drop_last(), k);
    } else {
        assert(s.take(k) =~= s);
    }
}

/// Probes for a controller whose version register reads `ver`.
pub fn probe(mmio_base: usize, ver: u16) -> (r: HdaResult<HdaController>)
    ensures
        (ver == 0xFFFF || ver == 0) <==> r is Err,
        r is Err ==> r == Err::<HdaController, HdaError>(HdaError::NotFound),
        r matches Ok(c) ==> c.wf() && c.spec_base() == mmio_base && !c.spec_rings_ready()
            && !c.spec_initialized() && c.spec_codecs() == Seq::new(16, |i: int| None::<HdaCodec>),
{
    let ctrl = HdaController::new(mmio_base);
    if ver == 0xFFFF || ver == 0 {
        return Err(HdaError::NotFound);
    }
    Ok(ctrl)
}

} // verus!
