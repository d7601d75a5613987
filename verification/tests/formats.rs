use system_recorder::error::WasapiError;
use system_recorder::format::{
    carries_sub_format, inspect_format, pcm_format, wav_spec, write_frames, FormatInfo, PcmKind,
    SampleFormat, Samples, WavSpec, WaveFormat, KSDATAFORMAT_SUBTYPE_IEEE_FLOAT,
    KSDATAFORMAT_SUBTYPE_PCM,
};

fn plain(tag: u16, bits: u16) -> WaveFormat {
    WaveFormat {
        format_tag: tag,
        channels: 2,
        samples_per_sec: 44_100,
        avg_bytes_per_sec: 0,
        block_align: 0,
        bits_per_sample: bits,
        cb_size: 0,
        sub_format: 0,
    }
}

fn extended(sub: u128, bits: u16) -> WaveFormat {
    WaveFormat {
        cb_size: 22,
        sub_format: sub,
        ..plain(0xFFFE, bits)
    }
}

fn refusal(f: &WaveFormat) -> String {
    match inspect_format(f) {
        Err(WasapiError::UnsupportedFormat(text)) => text,
        other => panic!("not refused: {:?}", other),
    }
}

#[test]
fn float_and_int_tags_are_recorded() {
    assert_eq!(
        inspect_format(&plain(0x0003, 32)),
        Ok(FormatInfo { kind: PcmKind::Float32, channels: 2, sample_rate: 44_100 })
    );
    assert_eq!(
        inspect_format(&plain(0x0001, 16)),
        Ok(FormatInfo { kind: PcmKind::Int16, channels: 2, sample_rate: 44_100 })
    );
}

#[test]
fn extensible_formats_go_by_their_sub_format() {
    assert_eq!(
        inspect_format(&extended(KSDATAFORMAT_SUBTYPE_IEEE_FLOAT, 32)).unwrap().kind,
        PcmKind::Float32
    );
    assert_eq!(
        inspect_format(&extended(KSDATAFORMAT_SUBTYPE_PCM, 16)).unwrap().kind,
        PcmKind::Int16
    );
    assert!(carries_sub_format(0xFFFE, 22));
    assert!(!carries_sub_format(0xFFFE, 21));
    assert!(!carries_sub_format(0x0001, 22));
}

#[test]
fn other_tags_are_refused_by_tag() {
    assert_eq!(refusal(&plain(0x0001, 24)), "tag=0x0001 bits=24");
    assert_eq!(refusal(&plain(0x0003, 64)), "tag=0x0003 bits=64");
    assert_eq!(refusal(&plain(0x0055, 16)), "tag=0x0055 bits=16");
    let mut short = extended(KSDATAFORMAT_SUBTYPE_PCM, 16);
    short.cb_size = 21;
    assert_eq!(refusal(&short), "tag=0xfffe bits=16");
}

#[test]
fn other_sub_formats_are_refused_by_guid() {
    assert_eq!(
        refusal(&extended(KSDATAFORMAT_SUBTYPE_PCM, 24)),
        "EXTENSIBLE sub=00000001-0000-0010-8000-00AA00389B71 bits=24"
    );
    assert_eq!(
        refusal(&extended(KSDATAFORMAT_SUBTYPE_IEEE_FLOAT, 16)),
        "EXTENSIBLE sub=00000003-0000-0010-8000-00AA00389B71 bits=16"
    );
    assert_eq!(
        refusal(&extended(0x0123_4567_89ab_cdef_fedc_ba98_7654_3210, 16)),
        "EXTENSIBLE sub=01234567-89AB-CDEF-FEDC-BA9876543210 bits=16"
    );
}

#[test]
fn plain_pcm_format_has_its_derived_fields() {
    let f = pcm_format(48_000, 2, 16);
    assert_eq!(f.format_tag, 1);
    assert_eq!(f.channels, 2);
    assert_eq!(f.samples_per_sec, 48_000);
    assert_eq!(f.bits_per_sample, 16);
    assert_eq!(f.block_align, 4);
    assert_eq!(f.avg_bytes_per_sec, 192_000);
    assert_eq!(f.cb_size, 0);
}

#[test]
fn plain_pcm_is_recordable() {
    for rate in [8_000u32, 44_100, 48_000, 192_000] {
        for channels in [1u16, 2, 6, 8] {
            assert_eq!(
                inspect_format(&pcm_format(rate, channels, 16)),
                Ok(FormatInfo { kind: PcmKind::Int16, channels, sample_rate: rate })
            );
        }
    }
}

#[test]
fn wav_header_follows_the_format() {
    let float = FormatInfo { kind: PcmKind::Float32, channels: 6, sample_rate: 96_000 };
    assert_eq!(
        wav_spec(&float),
        WavSpec {
            channels: 6,
            sample_rate: 96_000,
            bits_per_sample: 32,
            sample_format: SampleFormat::Float,
        }
    );
    let int = FormatInfo { kind: PcmKind::Int16, channels: 1, sample_rate: 8_000 };
    assert_eq!(
        wav_spec(&int),
        WavSpec {
            channels: 1,
            sample_rate: 8_000,
            bits_per_sample: 16,
            sample_format: SampleFormat::Int,
        }
    );
}

#[test]
fn int_packets_are_little_endian() {
    let fmt = FormatInfo { kind: PcmKind::Int16, channels: 2, sample_rate: 48_000 };
    let bytes = [0x01, 0x00, 0xff, 0xff, 0x00, 0x80, 0xff, 0x7f, 0xaa];
    assert_eq!(
        write_frames(&fmt, &bytes, 2, false),
        Samples::Int16(vec![1, -1, i16::MIN, i16::MAX])
    );
}

#[test]
fn float_packets_keep_their_bits() {
    let fmt = FormatInfo { kind: PcmKind::Float32, channels: 1, sample_rate: 48_000 };
    let mut bytes: Vec<u8> = Vec::new();
    let values: [f32; 4] = [0.25, -1.5, f32::INFINITY, -0.0];
    for v in values {
        bytes.extend_from_slice(&v.to_le_bytes());
    }
    let expected: Vec<u32> = values.iter().map(|v| v.to_bits()).collect();
    assert_eq!(write_frames(&fmt, &bytes, 4, false), Samples::Float32(expected));
}

#[test]
fn silent_packets_are_zeros() {
    let int = FormatInfo { kind: PcmKind::Int16, channels: 2, sample_rate: 48_000 };
    assert_eq!(write_frames(&int, &[], 3, true), Samples::Int16(vec![0; 6]));
    let float = FormatInfo { kind: PcmKind::Float32, channels: 2, sample_rate: 48_000 };
    assert_eq!(write_frames(&float, &[1, 2, 3], 1, true), Samples::Float32(vec![0, 0]));
}

#[test]
fn packets_reach_the_file_byte_for_byte() {
    let bytes: Vec<u8> = (0..240u32).map(|i| (i * 37 % 256) as u8).collect();
    let int = FormatInfo { kind: PcmKind::Int16, channels: 2, sample_rate: 48_000 };
    match write_frames(&int, &bytes, 60, false) {
        Samples::Int16(v) => {
            let stored: Vec<u8> = v.iter().flat_map(|s| s.to_le_bytes()).collect();
            assert_eq!(stored, bytes);
        }
        other => panic!("{:?}", other),
    }
    let float = FormatInfo { kind: PcmKind::Float32, channels: 3, sample_rate: 48_000 };
    match write_frames(&float, &bytes, 20, false) {
        Samples::Float32(v) => {
            let stored: Vec<u8> = v.iter().flat_map(|s| s.to_le_bytes()).collect();
            assert_eq!(stored, bytes);
        }
        other => panic!("{:?}", other),
    }
}
