use murmur::gate::{duration_millis, should_dispatch};
use murmur::wav::{create_wav_memory, parse_wav_header, WavError, WavHeader};

#[test]
fn header_layout_is_byte_exact() {
    let wav = create_wav_memory(&[1, -2], 1, 44100).unwrap();
    assert_eq!(wav.len(), 48);
    assert_eq!(&wav[0..4], b"RIFF");
    assert_eq!(&wav[4..8], &40u32.to_le_bytes());
    assert_eq!(&wav[8..12], b"WAVE");
    assert_eq!(&wav[12..16], b"fmt ");
    assert_eq!(&wav[16..20], &16u32.to_le_bytes());
    assert_eq!(&wav[20..22], &1u16.to_le_bytes());
    assert_eq!(&wav[22..24], &1u16.to_le_bytes());
    assert_eq!(&wav[24..28], &44100u32.to_le_bytes());
    assert_eq!(&wav[28..32], &88200u32.to_le_bytes());
    assert_eq!(&wav[32..34], &2u16.to_le_bytes());
    assert_eq!(&wav[34..36], &16u16.to_le_bytes());
    assert_eq!(&wav[36..40], b"data");
    assert_eq!(&wav[40..44], &4u32.to_le_bytes());
    assert_eq!(&wav[44..], &[0x01, 0x00, 0xfe, 0xff]);
}

#[test]
fn round_trip_recovers_rate_channels_and_length() {
    let pcm: Vec<i16> = (0..1000).map(|i| (i * 37 % 2000 - 1000) as i16).collect();
    let wav = create_wav_memory(&pcm, 2, 48000).unwrap();
    let h = parse_wav_header(&wav).unwrap();
    assert_eq!(
        h,
        WavHeader {
            riff_size: 36 + 2000,
            format_tag: 1,
            channels: 2,
            sample_rate: 48000,
            byte_rate: 192000,
            block_align: 4,
            bits_per_sample: 16,
            data_size: 2000,
        }
    );
    assert_eq!(wav.len(), 44 + 2 * pcm.len());
}

#[test]
fn empty_pcm_gives_header_only() {
    let wav = create_wav_memory(&[], 1, 44100).unwrap();
    assert_eq!(wav.len(), 44);
    assert_eq!(parse_wav_header(&wav).unwrap().data_size, 0);
    assert_eq!(parse_wav_header(&wav).unwrap().riff_size, 36);
}

#[test]
fn too_many_channels_rejected() {
    assert_eq!(create_wav_memory(&[0], 40000, 8000), Err(WavError::TooManyChannels));
}

#[test]
fn byte_rate_overflow_rejected() {
    assert_eq!(create_wav_memory(&[0], 2, u32::MAX), Err(WavError::ByteRateOverflow));
}

#[test]
fn short_or_mislabelled_bytes_do_not_parse() {
    let wav = create_wav_memory(&[5], 1, 16000).unwrap();
    assert_eq!(parse_wav_header(&wav[..43]), None);
    let mut bad = wav.clone();
    bad[8] = b'X';
    assert_eq!(parse_wav_header(&bad), None);
    let mut bad_fmt = wav.clone();
    bad_fmt[16] = 18;
    assert_eq!(parse_wav_header(&bad_fmt), None);
}

#[test]
fn exactly_one_second_is_discarded() {
    assert!(!should_dispatch(88200, 44100, 1));
    assert!(should_dispatch(88202, 44100, 1));
    assert!(!should_dispatch(176400, 44100, 2));
    assert!(should_dispatch(176404, 44100, 2));
}

#[test]
fn degenerate_format_never_dispatches() {
    assert!(!should_dispatch(1_000_000, 0, 1));
    assert!(!should_dispatch(1_000_000, 44100, 0));
    assert_eq!(duration_millis(1_000_000, 0, 1), 0);
}

#[test]
fn duration_in_milliseconds() {
    assert_eq!(duration_millis(220500, 44100, 1), 2500);
    assert_eq!(duration_millis(88200, 44100, 1), 1000);
    assert_eq!(duration_millis(1000, 16000, 2), 15);
}
