use vstd::prelude::*;
use crate::mmio::MmioOp;

verus! {

pub type Ac97Result<T> = Result<T, Ac97Error>;

#[derive(Debug, Clone, Copy, PartialEq, Eq, Structural)]
pub enum Ac97Error {
    NotFound,
    CodecNotReady,
    ResetFailed,
    InvalidRate,
    DmaError,
}

#[derive(Debug, Clone, Copy, PartialEq, Eq, Structural)]
pub enum SampleRate {
    Rate8000,
    Rate11025,
    Rate16000,
    Rate22050,
    Rate32000,
    Rate44100,
    Rate48000,
}

impl SampleRate {
    /// Samples per second.
    pub open spec fn spec_hz(self) -> u16 {
        match self {
            SampleRate::Rate8000 => 8000,
            SampleRate::Rate11025 => 11025,
            SampleRate::Rate16000 => 16000,
            SampleRate::Rate22050 => 22050,
            SampleRate::Rate32000 => 32000,
            SampleRate::Rate44100 => 44100,
            SampleRate::Rate48000 => 48000,
        }
    }

    pub fn hz(self) -> (r: u16)
        ensures
            r == self.spec_hz(),
    {
        match self {
            SampleRate::Rate8000 => 8000,
            SampleRate::Rate11025 => 11025,
            SampleRate::Rate16000 => 16000,
            SampleRate::Rate22050 => 22050,
            SampleRate::Rate32000 => 32000,
            SampleRate::Rate44100 => 44100,
            SampleRate::Rate48000 => 48000,
        }
    }
}

#[derive(Debug, Clone, Copy, PartialEq, Eq, Structural)]
pub enum SampleFormat {
    S16Le,
    S20Le,
    S24Le,
}

pub const AC97_RESET: u8 = 0x00;
pub const AC97_MASTER_VOL: u8 = 0x02;
pub const AC97_PCM_OUT_VOL: u8 = 0x18;
pub const AC97_PCM_IN_VOL: u8 = 0x1A;
pub const AC97_EXT_AUDIO_ID: u8 = 0x28;
pub const AC97_EXT_AUDIO_CTRL: u8 = 0x2A;
pub const AC97_PCM_FRONT_DAC_RATE: u8 = 0x2C;
pub const AC97_PCM_LR_ADC_RATE: u8 = 0x32;
pub const AC97_VENDOR_ID1: u8 = 0x7C;
pub const AC97_VENDOR_ID2: u8 = 0x7E;
pub const AC97_POWER_DOWN: u8 = 0x26;

pub const AC97_INDEX: u16 = 0x3F0;
pub const AC97_DATA: u16 = 0x3F2;

/// Codec slots of the controller.
pub const CODEC_SLOTS: usize = 4;
/// Polls of the codec status after a reset.
pub const RESET_POLLS: u32 = 1000;

#[derive(Debug, Clone, Copy, PartialEq, Eq, Structural)]
pub struct Ac97Codec {
    pub id: u8,
    pub vendor_id: u32,
    pub extended_audio: u16,
}

impl Ac97Codec {
    /// Variable-rate audio: bit 0 of the extended audio id.
    pub fn supports_audiorate(&self, rate: SampleRate) -> (r: bool)
        ensures
            r == (self.extended_audio & 0x0001 != 0),
    {
        self.extended_audio & 0x0001 != 0
    }
}

/// A vendor id register that reads all ones or zero has no codec behind it.
pub open spec fn id_present(id1: u16) -> bool {
    id1 != 0xFFFF && id1 != 0
}

/// Vendor id: the two id registers, first one high.
pub open spec fn vendor_of(id1: u16, id2: u16) -> u32 {
    ((id1 as u32) << 16u32) | (id2 as u32)
}

/// Volume register value: 6-bit right attenuation in the low byte, 6-bit
/// left attenuation in the high byte.
pub open spec fn volume_spec(left: u8, right: u8) -> u16 {
    ((right as u16) & 0x3F) | (((left as u16) & 0x3F) << 8u16)
}

/// The codecs found by a probe that read `ids[i]` (vendor id 1, vendor id
/// 2, extended audio id) for slot `i`.
pub open spec fn probed(ids: Seq<(u16, u16, u16)>) -> Seq<Option<Ac97Codec>> {
    Seq::new(ids.len(), |i: int| if id_present(ids[i].0) {
        Some(Ac97Codec { id: i as u8, vendor_id: vendor_of(ids[i].0, ids[i].1), extended_audio: ids[i].2 })
    } else {
        None
    })
}

pub open spec fn count_found(ids: Seq<(u16, u16, u16)>) -> nat
    decreases ids.len(),
{
    if ids.len() == 0 {
        0
    } else {
        count_found(ids.drop_last()) + if id_present(ids.last().0) { 1nat } else { 0nat }
    }
}

pub struct Ac97Controller {
    codecs: Vec<Option<Ac97Codec>>,
    initialized: bool,
}

impl Ac97Controller {
    pub closed spec fn wf(&self) -> bool {
        self.codecs.len() == CODEC_SLOTS
    }

    pub closed spec fn spec_codecs(&self) -> Seq<Option<Ac97Codec>> {
        self.codecs@
    }

    pub closed spec fn spec_initialized(&self) -> bool {
        self.initialized
    }

    pub fn new() -> (r: Self)
        ensures
            r.wf(),
            r.spec_codecs() == seq![None::<Ac97Codec>, None, None, None],
            !r.spec_initialized(),
    {
        let mut codecs: Vec<Option<Ac97Codec>> = Vec::new();
        codecs.push(None);
        codecs.push(None);
        codecs.push(None);
        codecs.push(None);
        assert(codecs@ =~= seq![None::<Ac97Codec>, None, None, None]);
        Self { codecs, initialized: false }
    }

    /// The codec answers when its power-down register does not float high.
    pub fn codec_ready(status: u16) -> (r: bool)
        ensures
            r == (status != 0xFFFF),
    {
        status != 0xFFFF
    }

    /// A codec answers at a slot whose vendor id 1 register reads `id1`;
    /// only then is the extended audio id read.
    pub fn codec_present(id1: u16) -> (r: bool)
        ensures
            r == id_present(id1),
    {
        id1 != 0xFFFF && id1 != 0
    }

    /// Records the codecs of a probe. `ids[i]` holds what slot `i` read:
    /// vendor id 1, vendor id 2 and, for a present codec, the extended
    /// audio id. Fails with `NotFound` when no codec answered.
    pub fn probe(&mut self, ids: &[(u16, u16, u16)]) -> (r: Ac97Result<usize>)
        requires
            old(self).wf(),
            ids@.len() == CODEC_SLOTS,
        ensures
            final(self).wf(),
            forall|i: int| 0 <= i < 4 ==> (#[trigger] probed(ids@)[i] is Some ==> final(self).spec_codecs()[i] == probed(ids@)[i]),
            forall|i: int| 0 <= i < 4 ==> (#[trigger] probed(ids@)[i] is None ==> final(self).spec_codecs()[i] == old(self).spec_codecs()[i]),
            final(self).spec_initialized() == (count_found(ids@) > 0),
            count_found(ids@) == 0 ==> r == Err::<usize, Ac97Error>(Ac97Error::NotFound),
            count_found(ids@) > 0 ==> r == Ok::<usize, Ac97Error>(count_found(ids@) as usize),
    {
        let mut found: usize = 0;
        let mut codec_id: usize = 0;
        while codec_id < CODEC_SLOTS
            invariant
                codec_id <= 4,
                ids@.len() == 4,
                self.codecs@.len() == 4,
                found == count_found(ids@.take(codec_id as int)),
                found <= codec_id,
                forall|i: int| 0 <= i < codec_id ==> (#[trigger] probed(ids@)[i] is Some ==> self.codecs@[i] == probed(ids@)[i]),
                forall|i: int| 0 <= i < codec_id ==> (#[trigger] probed(ids@)[i] is None ==> self.codecs@[i] == old(self).codecs@[i]),
                forall|i: int| codec_id <= i < 4 ==> self.codecs@[i] == old(self).codecs@[i],
            decreases 4 - codec_id,
        {
            let (id1, id2, ext) = ids[codec_id];
            if id1 != 0xFFFF && id1 != 0 {
                let vendor_id = ((id1 as u32) << 16u32) | (id2 as u32);
                self.codecs.set(codec_id, Some(Ac97Codec { id: codec_id as u8, vendor_id, extended_audio: ext }));
                found = found + 1;
            }
            assert(ids@.take(codec_id + 1).drop_last() =~= ids@.take(codec_id as int));
            codec_id = codec_id + 1;
        }
        assert(ids@.take(4) =~= ids@);
        self.initialized = found > 0;
        if found == 0 {
            Err(Ac97Error::NotFound)
        } else {
            Ok(found)
        }
    }

    pub fn codec(&self, index: usize) -> (r: Option<Ac97Codec>)
        requires
            self.wf(),
        ensures
            index < 4 ==> r == self.spec_codecs()[index as int],
            index >= 4 ==> r is None,
    {
        if index < self.codecs.len() {
            self.codecs[index]
        } else {
            None
        }
    }

    /// The register write that starts a warm reset; the codec is then
    /// polled with `codec_ready`.
    pub fn reset(&self) -> (r: MmioOp)
        ensures
            r == MmioOp::Write16(AC97_RESET as usize, 0x0000),
    {
        MmioOp::Write16(AC97_RESET as usize, 0x0000)
    }

    /// The register write that powers the codec down for a cold reset.
    pub fn cold_reset(&self) -> (r: MmioOp)
        ensures
            r == MmioOp::Write16(AC97_POWER_DOWN as usize, 0x000F),
    {
        MmioOp::Write16(AC97_POWER_DOWN as usize, 0x000F)
    }

    /// Outcome of a reset after polling: `ResetFailed` unless the codec
    /// answered.
    pub fn reset_outcome(ready: bool) -> (r: Ac97Result<()>)
        ensures
            ready <==> r is Ok,
            !ready ==> r == Err::<(), Ac97Error>(Ac97Error::ResetFailed),
    {
        if ready { Ok(()) } else { Err(Ac97Error::ResetFailed) }
    }

    /// One poll of the codec after a reset: `status` is its power-down
    /// register, read after `polls_done` earlier polls found it silent. An
    /// answer ends the wait with `Ok`; otherwise it goes on (`None`) until
    /// `RESET_POLLS` polls have found nothing, which ends it with
    /// `ResetFailed`.
    pub fn reset_poll(polls_done: u32, status: u16) -> (r: Option<Ac97Result<()>>)
        requires
            polls_done < RESET_POLLS,
        ensures
            status != 0xFFFF ==> r == Some(Ok::<(), Ac97Error>(())),
            status == 0xFFFF ==> r == if polls_done + 1 >= RESET_POLLS {
                Some(Err::<(), Ac97Error>(Ac97Error::ResetFailed))
            } else {
                None
            },
    {
        if Self::codec_ready(status) {
            Some(Ok(()))
        } else if polls_done + 1 >= RESET_POLLS {
            Some(Err(Ac97Error::ResetFailed))
        } else {
            None
        }
    }

    /// The write that sets the DAC rate, for a codec whose power-down
    /// register reads `status`; `CodecNotReady` when it does not answer.
    pub fn set_pcm_out_rate(&self, rate: SampleRate, status: u16) -> (r: Ac97Result<MmioOp>)
        ensures
            status == 0xFFFF ==> r == Err::<MmioOp, Ac97Error>(Ac97Error::CodecNotReady),
            status != 0xFFFF ==> r == Ok::<MmioOp, Ac97Error>(MmioOp::Write16(AC97_PCM_FRONT_DAC_RATE as usize, rate.spec_hz())),
    {
        if !Self::codec_ready(status) {
            return Err(Ac97Error::CodecNotReady);
        }
        Ok(MmioOp::Write16(AC97_PCM_FRONT_DAC_RATE as usize, rate.hz()))
    }

    /// The write that sets the ADC rate; as `set_pcm_out_rate`.
    pub fn set_pcm_in_rate(&self, rate: SampleRate, status: u16) -> (r: Ac97Result<MmioOp>)
        ensures
            status == 0xFFFF ==> r == Err::<MmioOp, Ac97Error>(Ac97Error::CodecNotReady),
            status != 0xFFFF ==> r == Ok::<MmioOp, Ac97Error>(MmioOp::Write16(AC97_PCM_LR_ADC_RATE as usize, rate.spec_hz())),
    {
        if !Self::codec_ready(status) {
            return Err(Ac97Error::CodecNotReady);
        }
        Ok(MmioOp::Write16(AC97_PCM_LR_ADC_RATE as usize, rate.hz()))
    }

    /// A rate register that does not read back the rate written means the
    /// codec does not support it.
    pub fn check_rate(rate: SampleRate, readback: u16) -> (r: Ac97Result<()>)
        ensures
            readback == rate.spec_hz() <==> r is Ok,
            readback != rate.spec_hz() ==> r == Err::<(), Ac97Error>(Ac97Error::InvalidRate),
    {
        if readback != rate.hz() {
            return Err(Ac97Error::InvalidRate);
        }
        Ok(())
    }

    pub fn set_master_volume(&self, left: u8, right: u8) -> (r: MmioOp)
        ensures
            r == MmioOp::Write16(AC97_MASTER_VOL as usize, volume_spec(left, right)),
    {
        MmioOp::Write16(AC97_MASTER_VOL as usize, volume_word(left, right))
    }

    pub fn set_pcm_out_volume(&self, left: u8, right: u8) -> (r: MmioOp)
        ensures
            r == MmioOp::Write16(AC97_PCM_OUT_VOL as usize, volume_spec(left, right)),
    {
        MmioOp::Write16(AC97_PCM_OUT_VOL as usize, volume_word(left, right))
    }

    pub fn set_pcm_in_volume(&self, left: u8, right: u8) -> (r: MmioOp)
        ensures
            r == MmioOp::Write16(AC97_PCM_IN_VOL as usize, volume_spec(left, right)),
    {
        MmioOp::Write16(AC97_PCM_IN_VOL as usize, volume_word(left, right))
    }

    /// Left and right master volume from the register value `val`.
    pub fn master_volume(&self, val: u16) -> (r: (u8, u8))
        ensures
            r == (((val >> 8u16) as u8) & 0x3Fu8, (val as u8) & 0x3Fu8),
    {
        (#[verifier::truncate] ((val >> 8u16) as u8) & 0x3F, #[verifier::truncate] (val as u8) & 0x3F)
    }

    /// Vendor id of the codec in slot 0.
    pub fn vendor_id(&self) -> (r: Option<u32>)
        requires
            self.wf(),
        ensures
            r == match self.spec_codecs()[0] {
                Some(c) => Some(c.vendor_id),
                None => None,
            },
    {
        match self.codec(0) {
            Some(c) => Some(c.vendor_id),
            None => None,
        }
    }
}

pub fn volume_word(left: u8, right: u8) -> (r: u16)
    ensures
        r == volume_spec(left, right),
{
    ((right as u16) & 0x3F) | (((left as u16) & 0x3F) << 8u16)
}

/// Reading back a volume written with `volume_word` gives both channels
/// masked to six bits.
pub proof fn lemma_volume_roundtrip(left: u8, right: u8)
    ensures
        ((volume_spec(left, right) >> 8u16) as u8) & 0x3Fu8 == left & 0x3Fu8,
        (volume_spec(left, right) as u8) & 0x3Fu8 == right & 0x3Fu8,
{
    assert(((((((right as u16) & 0x3F) | (((left as u16) & 0x3F) << 8u16)) >> 8u16) as u8) & 0x3Fu8) == left & 0x3Fu8
        && (((((right as u16) & 0x3F) | (((left as u16) & 0x3F) << 8u16)) as u8) & 0x3Fu8) == right & 0x3Fu8)
        by (bit_vector);
}

/// Sample buffer of the PCM output channel: interleaved left and right.
pub struct Ac97PcmOut {
    dma_buffer: Option<Vec<u16>>,
    buffer_size: usize,
}

impl Ac97PcmOut {
    pub closed spec fn samples(&self) -> Option<Seq<u16>> {
        match self.dma_buffer {
            Some(b) => Some(b@),
            None => None,
        }
    }

    pub closed spec fn spec_size(&self) -> usize {
        self.buffer_size
    }

    pub fn new() -> (r: Self)
        ensures
            r.samples() is None,
            r.spec_size() == 0,
    {
        Self { dma_buffer: None, buffer_size: 0 }
    }

    pub fn prepare(&mut self, buffer: Vec<u16>)
        ensures
            final(self).samples() == Some(buffer@),
            final(self).spec_size() == buffer@.len(),
    {
        self.buffer_size = buffer.len();
        self.dma_buffer = Some(buffer);
    }

    /// Stores stereo sample `position`; positions past the buffer are ignored.
    pub fn write_sample(&mut self, left: i16, right: i16, position: usize)
        requires
            old(self).samples() is Some ==> position * 2 + 1 <= usize::MAX,
        ensures
            final(self).spec_size() == old(self).spec_size(),
            old(self).samples() is None ==> final(self).samples() is None,
            old(self).samples() matches Some(b) ==> final(self).samples() == Some(
                if position * 2 + 1 < b.len() {
                    b.update(position * 2, left as u16).update(position * 2 + 1, right as u16)
                } else {
                    b
                },
            ),
    {
        if self.dma_buffer.is_some() {
            let mut buf = self.dma_buffer.take().unwrap();
            if position * 2 + 1 < buf.len() {
                buf.set(position * 2, left as u16);
                buf.set(position * 2 + 1, right as u16);
            }
            self.dma_buffer = Some(buf);
        }
    }

    /// Sample word at `i`, for handing the buffer to the controller.
    pub fn sample_at(&self, i: usize) -> (r: Option<u16>)
        ensures
            r == match self.samples() {
                Some(b) => if i < b.len() { Some(b[i as int]) } else { None },
                None => None,
            },
    {
        match &self.dma_buffer {
            Some(b) => if i < b.len() { Some(b[i]) } else { None },
            None => None,
        }
    }
}

} // verus!
