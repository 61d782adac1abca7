use vad_recorder::wav::{
    convert, parse_header, wav_header, ConvertError, WavInfo, BITS_PER_SAMPLE, BLOCK_ALIGN,
    BYTE_RATE, CHANNELS, HEADER_LEN, MAX_DATA_LEN, SAMPLE_RATE,
};

fn reference_header(data_len: u32) -> Vec<u8> {
    let mut h = Vec::new();
    h.extend_from_slice(b"RIFF");
    h.extend_from_slice(&(36 + data_len).to_le_bytes());
    h.extend_from_slice(b"WAVE");
    h.extend_from_slice(b"fmt ");
    h.extend_from_slice(&16u32.to_le_bytes());
    h.extend_from_slice(&1u16.to_le_bytes());
    h.extend_from_slice(&2u16.to_le_bytes());
    h.extend_from_slice(&48000u32.to_le_bytes());
    h.extend_from_slice(&192000u32.to_le_bytes());
    h.extend_from_slice(&4u16.to_le_bytes());
    h.extend_from_slice(&16u16.to_le_bytes());
    h.extend_from_slice(b"data");
    h.extend_from_slice(&data_len.to_le_bytes());
    h
}

#[test]
fn header_of_four_bytes_is_exact() {
    let h = wav_header(4).unwrap();
    let expected: Vec<u8> = vec![
        0x52, 0x49, 0x46, 0x46, 40, 0, 0, 0, 0x57, 0x41, 0x56, 0x45, 0x66, 0x6d, 0x74, 0x20, 16,
        0, 0, 0, 1, 0, 2, 0, 0x80, 0xBB, 0, 0, 0x00, 0xEE, 0x02, 0, 4, 0, 16, 0, 0x64, 0x61,
        0x74, 0x61, 4, 0, 0, 0,
    ];
    assert_eq!(h, expected);
    assert_eq!(h.len(), HEADER_LEN);
}

#[test]
fn header_matches_reference_for_many_sizes() {
    for len in [1usize, 2, 255, 256, 65535, 65536, 1_000_000, 16_777_216, 305_419_896] {
        assert_eq!(wav_header(len).unwrap(), reference_header(len as u32));
    }
}

#[test]
fn header_of_largest_payload() {
    let h = wav_header(MAX_DATA_LEN).unwrap();
    assert_eq!(&h[4..8], &[0xFF, 0xFF, 0xFF, 0xFF]);
    assert_eq!(&h[40..44], &[0xDB, 0xFF, 0xFF, 0xFF]);
}

#[test]
fn header_refuses_empty_payload() {
    assert_eq!(wav_header(0), Err(ConvertError::Empty));
}

#[test]
fn header_refuses_oversized_payload() {
    assert_eq!(wav_header(MAX_DATA_LEN + 1), Err(ConvertError::TooLarge));
    assert_eq!(wav_header(usize::MAX), Err(ConvertError::TooLarge));
}

#[test]
fn convert_empty_stream_produces_nothing() {
    assert_eq!(convert(&[]), Err(ConvertError::Empty));
}

#[test]
fn convert_prepends_header_and_keeps_samples() {
    let pcm: Vec<u8> = (0..1000u32).map(|i| (i * 7 % 251) as u8).collect();
    let out = convert(&pcm).unwrap();
    assert_eq!(out.len(), pcm.len() + 44);
    assert_eq!(&out[..44], reference_header(1000).as_slice());
    assert_eq!(&out[44..], pcm.as_slice());
}

#[test]
fn container_round_trip() {
    for size in [1usize, 4, 44, 4096, 70_000] {
        let pcm: Vec<u8> = (0..size).map(|i| (i % 256) as u8).collect();
        let out = convert(&pcm).unwrap();
        assert_eq!(out.len(), size + 44);
        let info = parse_header(&out).unwrap();
        assert_eq!(
            info,
            WavInfo {
                riff_len: size as u32 + 36,
                channels: 2,
                sample_rate: 48000,
                byte_rate: 192000,
                block_align: 4,
                bits_per_sample: 16,
                data_len: size as u32,
            }
        );
        assert_eq!(info.channels, CHANNELS);
        assert_eq!(info.sample_rate, SAMPLE_RATE);
        assert_eq!(info.bits_per_sample, BITS_PER_SAMPLE);
        assert_eq!(info.byte_rate, BYTE_RATE);
        assert_eq!(info.block_align, BLOCK_ALIGN);
    }
}

#[test]
fn derived_constants_follow_the_formulas() {
    assert_eq!(BLOCK_ALIGN, CHANNELS * (BITS_PER_SAMPLE / 8));
    assert_eq!(BYTE_RATE, SAMPLE_RATE * CHANNELS as u32 * (BITS_PER_SAMPLE / 8) as u32);
}

#[test]
fn parse_rejects_short_input() {
    let h = wav_header(10).unwrap();
    assert_eq!(parse_header(&h[..43]), None);
    assert_eq!(parse_header(&[]), None);
    assert!(parse_header(&h).is_some());
}

#[test]
fn parse_rejects_wrong_tags_and_formats() {
    let good = wav_header(10).unwrap();
    for at in [0usize, 3, 8, 11, 12, 15, 36, 39] {
        let mut bad = good.clone();
        bad[at] ^= 0x01;
        assert_eq!(parse_header(&bad), None, "tag byte {}", at);
    }
    for at in [16usize, 17, 18, 19, 20, 21] {
        let mut bad = good.clone();
        bad[at] = bad[at].wrapping_add(1);
        assert_eq!(parse_header(&bad), None, "format byte {}", at);
    }
}

#[test]
fn parse_reads_foreign_fields() {
    let mut h = wav_header(10).unwrap();
    h[22] = 1;
    h[24..28].copy_from_slice(&44100u32.to_le_bytes());
    h[28..32].copy_from_slice(&88200u32.to_le_bytes());
    h[32] = 2;
    h[40..44].copy_from_slice(&0xDEADBEEFu32.to_le_bytes());
    let info = parse_header(&h).unwrap();
    assert_eq!(info.channels, 1);
    assert_eq!(info.sample_rate, 44100);
    assert_eq!(info.byte_rate, 88200);
    assert_eq!(info.block_align, 2);
    assert_eq!(info.data_len, 0xDEADBEEF);
    assert_eq!(info.riff_len, 46);
}
