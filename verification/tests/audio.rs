use lib::ac97::{
    volume_word, Ac97Codec, Ac97Controller, Ac97Error, Ac97PcmOut, SampleRate,
};
use lib::hda::{
    corb_entry, probe, HdaAction, HdaBdlEntry, HdaCodec, HdaController, HdaError, HdaInit,
    HdaReset, HdaStreamFormat, StreamDir, VerbRequest, VerbResponse, VERB_POLLS,
};
use lib::mmio::MmioOp;

#[test]
fn hda_format_tags() {
    let f = HdaStreamFormat { channels: 2, bits: 16, rate: 44100 };
    assert_eq!(f.to_hda_tag(), 0x4051);
    let f = HdaStreamFormat { channels: 8, bits: 24, rate: 192000 };
    assert_eq!(f.to_hda_tag(), 0x40B7);
    // unknown rates and sizes fall back to 48 kHz and 16 bits
    let f = HdaStreamFormat { channels: 0, bits: 12, rate: 12345 };
    assert_eq!(f.to_hda_tag(), 0x4070);
}

#[test]
fn hda_corb_entries() {
    assert_eq!(corb_entry(2, 0x1F, 0xF00, 0x04), 0x21F0_0F04);
    let c = HdaController::new(0);
    assert_eq!(c.verb_request(0, 0, 0xF00, 0, 0), Err(HdaError::InitFailed));
}

#[test]
fn hda_probe() {
    assert!(matches!(probe(0xFEB0_0000, 0xFFFF), Err(HdaError::NotFound)));
    assert!(matches!(probe(0xFEB0_0000, 0), Err(HdaError::NotFound)));
    let c = probe(0xFEB0_0000, 0x0100).ok().unwrap();
    assert_eq!(c.base(), 0xFEB0_0000);
    assert_eq!(c.codec_count(), 0);
    assert_eq!(c.codec(0), None);
}

/// A controller that runs at once and reports codecs 0 and 2.
fn run_init(c: &mut HdaController, statests: u16, fail_verb: bool) -> Result<(), HdaError> {
    let mut st = HdaInit::Start;
    let mut input: Result<u32, HdaError> = Ok(0);
    for _ in 0..5000 {
        match c.init(&mut st, input, 0x1000, 0x2000) {
            HdaAction::Mmio(ops) => {
                let mut last = 0u32;
                for op in ops {
                    match op {
                        MmioOp::Read8(0x69) => last = 1,
                        MmioOp::Read16(0x6E) => last = statests as u32,
                        MmioOp::Read32(_) => last = 0,
                        _ => {}
                    }
                }
                input = Ok(last);
            }
            HdaAction::Verb { cad, node: _, verb, payload: _ } => {
                input = if fail_verb {
                    Err(HdaError::Timeout)
                } else {
                    match verb {
                        0x0F00 => Ok(0x10EC_0269 + cad as u32),
                        0x0F04 => Ok(0x0010_0100),
                        _ => Ok(0x0023_0000),
                    }
                };
            }
            HdaAction::Done(r) => return r,
        }
    }
    panic!("bring-up did not end");
}

#[test]
fn hda_init_records_reporting_codecs() {
    let mut c = HdaController::new(0);
    assert_eq!(run_init(&mut c, 0b101, false), Ok(()));
    assert_eq!(c.codec_count(), 2);
    assert_eq!(c.codec(0), Some(HdaCodec { cad: 0, vendor_id: 0x10EC_0269, revision: 0x0010_0100, nodes: 0x02 }));
    assert_eq!(c.codec(1), None);
    assert_eq!(c.codec(2), Some(HdaCodec { cad: 2, vendor_id: 0x10EC_026B, revision: 0x0010_0100, nodes: 0x02 }));
    assert_eq!(c.codec(16), None);
    let req = c.verb_request(2, 0x1F, 0xF00, 0x04, 255).unwrap();
    assert_eq!(req, VerbRequest { slot: 255, entry: 0x21F0_0F04, next_wp: 0 });
    assert_eq!(c.verb_response(0), None);
    assert_eq!(c.verb_response(3), Some(VerbResponse { slot: 6, ack: 0x4003 }));
    assert_eq!(c.verb_response(3), None);
}

#[test]
fn hda_init_propagates_verb_errors() {
    let mut c = HdaController::new(0);
    assert_eq!(run_init(&mut c, 0b1, true), Err(HdaError::Timeout));
    let mut c = HdaController::new(0);
    assert_eq!(run_init(&mut c, 0, false), Ok(()));
    assert_eq!(c.codec_count(), 0);
}

#[test]
fn hda_reset_machine() {
    let c = HdaController::new(0);
    let mut st = HdaReset::Start;
    match c.reset(&mut st, 0) {
        HdaAction::Mmio(ops) => assert_eq!(ops, vec![MmioOp::Read32(0x68)]),
        _ => panic!(),
    }
    match c.reset(&mut st, 0x0000_0101) {
        HdaAction::Mmio(ops) => assert_eq!(ops, vec![MmioOp::Write32(0x68, 0x0000_0100), MmioOp::Read8(0x69)]),
        _ => panic!(),
    }
    match c.reset(&mut st, 0) {
        HdaAction::Mmio(ops) => assert_eq!(ops, vec![MmioOp::Write32(0x68, 0x0000_0101), MmioOp::Read8(0x69)]),
        _ => panic!(),
    }
    assert!(matches!(c.reset(&mut st, 1), HdaAction::Done(Ok(()))));

    let mut st = HdaReset::PollRunning { n: 0 };
    let mut polls = 0;
    loop {
        match c.reset(&mut st, 0) {
            HdaAction::Mmio(_) => polls += 1,
            HdaAction::Done(r) => {
                assert_eq!(r, Err(HdaError::Timeout));
                break;
            }
            _ => panic!(),
        }
    }
    assert_eq!(polls, 999);
}

#[test]
fn hda_streams() {
    let c = HdaController::new(0x1000);
    assert_eq!(c.stream_ctl_offset(3), 0x1000 + 0x80 + 3 * 0x20);
    let mut ctls = vec![1u32; 32];
    assert_eq!(c.allocate_stream(StreamDir::Output, &ctls), None);
    ctls[5] = 0x10;
    ctls[9] = 0;
    assert_eq!(c.allocate_stream(StreamDir::Output, &ctls), Some(5));
    assert!(HdaController::stream_idle(0x10));
    assert!(!HdaController::stream_idle(0x11));
    assert_eq!(c.start_stream(1, 0x10), MmioOp::Write32(0x10A0, 0x11));
    assert_eq!(c.stop_stream(1, 0x11), MmioOp::Write32(0x10A0, 0x10));
    let bdl = [
        HdaBdlEntry { address: 0x1_0000_2000, length: 0x1000, ioc: 0 },
        HdaBdlEntry { address: 0x3000, length: 0x800, ioc: 1 },
    ];
    let ops = c.setup_stream_bdl(0, &bdl, 2, 0x1_2345_6780);
    assert_eq!(
        ops,
        vec![
            MmioOp::Write32(0x1098, 0x2345_6780),
            MmioOp::Write32(0x109C, 0x1),
            MmioOp::Write16(0x108C, 1),
            MmioOp::Write32(0x1088, 0x1800),
        ]
    );
    assert_eq!(c.setup_stream_bdl(0, &[], 0, 0)[2], MmioOp::Write16(0x108C, 0));
}

#[test]
fn ac97_probe_counts_codecs() {
    let mut c = Ac97Controller::new();
    let none = (0xFFFFu16, 0u16, 0u16);
    assert_eq!(c.probe(&[none, none, (0, 0, 0), none]), Err(Ac97Error::NotFound));
    assert_eq!(c.vendor_id(), None);
    let found = c.probe(&[(0x8384, 0x7609, 0x0001), none, (0x4144, 0x5370, 0x0000), none]);
    assert_eq!(found, Ok(2));
    assert_eq!(c.codec(0), Some(Ac97Codec { id: 0, vendor_id: 0x8384_7609, extended_audio: 1 }));
    assert_eq!(c.codec(1), None);
    assert_eq!(c.codec(2).unwrap().vendor_id, 0x4144_5370);
    assert_eq!(c.codec(4), None);
    assert_eq!(c.vendor_id(), Some(0x8384_7609));
    assert!(c.codec(0).unwrap().supports_audiorate(SampleRate::Rate44100));
    assert!(!c.codec(2).unwrap().supports_audiorate(SampleRate::Rate44100));
}

#[test]
fn ac97_registers() {
    let c = Ac97Controller::new();
    assert_eq!(c.reset(), MmioOp::Write16(0x00, 0));
    assert_eq!(c.cold_reset(), MmioOp::Write16(0x26, 0x000F));
    assert_eq!(Ac97Controller::reset_outcome(true), Ok(()));
    assert_eq!(Ac97Controller::reset_outcome(false), Err(Ac97Error::ResetFailed));
    assert!(Ac97Controller::codec_ready(0x0000));
    assert!(!Ac97Controller::codec_ready(0xFFFF));
    assert!(Ac97Controller::codec_present(0x8384));
    assert!(!Ac97Controller::codec_present(0));
    assert_eq!(c.set_pcm_out_rate(SampleRate::Rate44100, 0), Ok(MmioOp::Write16(0x2C, 44100)));
    assert_eq!(c.set_pcm_in_rate(SampleRate::Rate8000, 0), Ok(MmioOp::Write16(0x32, 8000)));
    assert_eq!(c.set_pcm_out_rate(SampleRate::Rate48000, 0xFFFF), Err(Ac97Error::CodecNotReady));
    assert_eq!(Ac97Controller::check_rate(SampleRate::Rate22050, 22050), Ok(()));
    assert_eq!(Ac97Controller::check_rate(SampleRate::Rate22050, 48000), Err(Ac97Error::InvalidRate));
    assert_eq!(SampleRate::Rate11025.hz(), 11025);
}

#[test]
fn ac97_volumes_round_trip() {
    let c = Ac97Controller::new();
    assert_eq!(volume_word(0x12, 0x34), 0x1234);
    assert_eq!(volume_word(0xFF, 0x40), 0x3F00);
    assert_eq!(c.set_master_volume(0x12, 0x34), MmioOp::Write16(0x02, 0x1234));
    assert_eq!(c.set_pcm_out_volume(1, 2), MmioOp::Write16(0x18, 0x0102));
    assert_eq!(c.set_pcm_in_volume(3, 4), MmioOp::Write16(0x1A, 0x0304));
    for (l, r) in [(0u8, 0u8), (0x3F, 0x01), (0xC5, 0x7A)] {
        // law: what a volume write stores reads back as the 6-bit levels
        assert_eq!(c.master_volume(volume_word(l, r)), (l & 0x3F, r & 0x3F));
    }
}

#[test]
fn ac97_pcm_buffer() {
    let mut pcm = Ac97PcmOut::new();
    pcm.write_sample(1, 2, 0);
    assert_eq!(pcm.sample_at(0), None);
    pcm.prepare(vec![0u16; 4]);
    pcm.write_sample(-1, 7, 1);
    assert_eq!(pcm.sample_at(2), Some(0xFFFF));
    assert_eq!(pcm.sample_at(3), Some(7));
    assert_eq!(pcm.sample_at(0), Some(0));
    pcm.write_sample(5, 5, 2);
    assert_eq!(pcm.sample_at(4), None);
    assert_eq!(pcm.sample_at(1), Some(0));
}

#[test]
fn hda_verb_polling_times_out() {
    let mut c = HdaController::new(0);
    assert_eq!(c.verb_poll(0, 0), None);
    assert_eq!(c.verb_poll(VERB_POLLS - 1, 0), Some(Err(HdaError::Timeout)));
    assert_eq!(c.verb_poll(VERB_POLLS - 1, 4), Some(Ok(VerbResponse { slot: 8, ack: 0x4004 })));
    assert_eq!(c.verb_poll(0, 4), None);
}

#[test]
fn ac97_reset_polls() {
    assert_eq!(Ac97Controller::reset_poll(0, 0xFFFF), None);
    assert_eq!(Ac97Controller::reset_poll(0, 0x000F), Some(Ok(())));
    assert_eq!(Ac97Controller::reset_poll(999, 0xFFFF), Some(Err(Ac97Error::ResetFailed)));
}

#[test]
fn hda_codec_count_never_exceeds_fifteen() {
    let mut c = HdaController::new(0);
    assert_eq!(c.codec_count(), 0);
    assert_eq!(run_init(&mut c, 0xFFFF, false), Ok(()));
    assert_eq!(c.codec_count(), 15);
    assert_eq!(c.codec(14).map(|k| k.cad), Some(14));
    assert_eq!(c.codec(15), None);
}
