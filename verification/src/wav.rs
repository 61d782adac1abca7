//! The uncompressed audio container that a raw capture is converted into:
//! a 44-byte header in front of the unmodified sample bytes.

use vstd::prelude::*;

verus! {

/// Samples per second and channel of every capture.
pub const SAMPLE_RATE: u32 = 48000;

/// Interleaved channels of every capture.
pub const CHANNELS: u16 = 2;

/// Width of one sample in bits.
pub const BITS_PER_SAMPLE: u16 = 16;

/// The format tag of linear PCM.
pub const AUDIO_FORMAT_PCM: u16 = 1;

/// Bytes of one frame, that is of one sample for each channel.
pub const BLOCK_ALIGN: u16 = 4;

/// Bytes of one second of audio.
pub const BYTE_RATE: u32 = 192000;

/// Length of the `fmt ` chunk's payload.
pub const FMT_CHUNK_LEN: u32 = 16;

/// Length of the header in bytes.
pub const HEADER_LEN: usize = 44;

/// The largest payload whose RIFF chunk size, 36 more than it, still fits
/// the header's 32-bit field.
pub const MAX_DATA_LEN: usize = 4294967259;

/// Why a raw stream was not converted.
#[derive(Clone, Copy, Debug, PartialEq, Eq, Structural)]
pub enum ConvertError {
    /// The raw stream holds no byte.
    Empty,
    /// The raw stream is longer than `MAX_DATA_LEN`.
    TooLarge,
}

/// The fields that a header carries.
#[derive(Clone, Copy, Debug, PartialEq, Eq, Structural)]
pub struct WavInfo {
    /// The RIFF chunk size: the bytes that follow the first eight.
    pub riff_len: u32,
    /// Number of channels.
    pub channels: u16,
    /// Samples per second.
    pub sample_rate: u32,
    /// Bytes per second.
    pub byte_rate: u32,
    /// Bytes per frame.
    pub block_align: u16,
    /// Bits per sample.
    pub bits_per_sample: u16,
    /// Bytes of sample data announced by the `data` chunk.
    pub data_len: u32,
}

/// The two bytes of `x`, least significant first.
pub open spec fn le16(x: u16) -> Seq<u8> {
    seq![(x % 256) as u8, (x / 256) as u8]
}

/// The four bytes of `x`, least significant first.
pub open spec fn le32(x: u32) -> Seq<u8> {
    seq![
        (x % 256) as u8,
        (x / 256 % 256) as u8,
        (x / 65536 % 256) as u8,
        (x / 16777216) as u8,
    ]
}

/// The number that two bytes at `at` spell, least significant first.
pub open spec fn read_le16(bytes: Seq<u8>, at: int) -> int {
    bytes[at] + 256 * bytes[at + 1]
}

/// The number that four bytes at `at` spell, least significant first.
pub open spec fn read_le32(bytes: Seq<u8>, at: int) -> int {
    bytes[at] + 256 * bytes[at + 1] + 65536 * bytes[at + 2] + 16777216 * bytes[at + 3]
}

/// The ASCII tag `RIFF`.
pub open spec fn tag_riff() -> Seq<u8> {
    seq![0x52u8, 0x49u8, 0x46u8, 0x46u8]
}

/// The ASCII tag `WAVE`.
pub open spec fn tag_wave() -> Seq<u8> {
    seq![0x57u8, 0x41u8, 0x56u8, 0x45u8]
}

/// The ASCII tag `fmt `, with its trailing blank.
pub open spec fn tag_fmt() -> Seq<u8> {
    seq![0x66u8, 0x6du8, 0x74u8, 0x20u8]
}

/// The ASCII tag `data`.
pub open spec fn tag_data() -> Seq<u8> {
    seq![0x64u8, 0x61u8, 0x74u8, 0x61u8]
}

/// The header that announces `data_len` bytes of samples.
pub open spec fn spec_header(data_len: u32) -> Seq<u8> {
    tag_riff() + le32((36 + data_len) as u32) + tag_wave() + tag_fmt() + le32(FMT_CHUNK_LEN)
        + le16(AUDIO_FORMAT_PCM) + le16(CHANNELS) + le32(SAMPLE_RATE) + le32(BYTE_RATE) + le16(
        BLOCK_ALIGN,
    ) + le16(BITS_PER_SAMPLE) + tag_data() + le32(data_len)
}

/// The container of a raw stream: its header, then the stream unmodified.
pub open spec fn spec_container(pcm: Seq<u8>) -> Seq<u8> {
    spec_header(pcm.len() as u32) + pcm
}

/// Whether a raw stream of `len` bytes can be converted.
pub open spec fn convertible(len: nat) -> bool {
    0 < len <= MAX_DATA_LEN
}

/// The error that a raw stream of `len` bytes is refused with, if any.
pub open spec fn spec_convert_error(len: nat) -> Option<ConvertError> {
    if len == 0 {
        Some(ConvertError::Empty)
    } else if len > MAX_DATA_LEN {
        Some(ConvertError::TooLarge)
    } else {
        None
    }
}

/// Whether `bytes` begin with a header of linear PCM in the canonical
/// 44-byte layout.
pub open spec fn has_pcm_header(bytes: Seq<u8>) -> bool {
    &&& bytes.len() >= HEADER_LEN
    &&& bytes.subrange(0, 4) == tag_riff()
    &&& bytes.subrange(8, 12) == tag_wave()
    &&& bytes.subrange(12, 16) == tag_fmt()
    &&& read_le32(bytes, 16) == FMT_CHUNK_LEN
    &&& read_le16(bytes, 20) == AUDIO_FORMAT_PCM
    &&& bytes.subrange(36, 40) == tag_data()
}

/// The fields of the header that `bytes` begin with, if they begin with one.
pub open spec fn spec_parse_header(bytes: Seq<u8>) -> Option<WavInfo> {
    if has_pcm_header(bytes) {
        Some(
            WavInfo {
                riff_len: read_le32(bytes, 4) as u32,
                channels: read_le16(bytes, 22) as u16,
                sample_rate: read_le32(bytes, 24) as u32,
                byte_rate: read_le32(bytes, 28) as u32,
                block_align: read_le16(bytes, 32) as u16,
                bits_per_sample: read_le16(bytes, 34) as u16,
                data_len: read_le32(bytes, 40) as u32,
            },
        )
    } else {
        None
    }
}

/// The fields that the header of a converted stream of `data_len` bytes
/// carries.
pub open spec fn expected_info(data_len: u32) -> WavInfo {
    WavInfo {
        riff_len: (36 + data_len) as u32,
        channels: CHANNELS,
        sample_rate: SAMPLE_RATE,
        byte_rate: BYTE_RATE,
        block_align: BLOCK_ALIGN,
        bits_per_sample: BITS_PER_SAMPLE,
        data_len,
    }
}

fn push_le16(out: &mut Vec<u8>, x: u16)
    ensures
        final(out)@ == old(out)@ + le16(x),
{
    out.push((x % 256) as u8);
    out.push((x / 256) as u8);
}

fn push_le32(out: &mut Vec<u8>, x: u32)
    ensures
        final(out)@ == old(out)@ + le32(x),
{
    out.push((x % 256) as u8);
    out.push((x / 256 % 256) as u8);
    out.push((x / 65536 % 256) as u8);
    out.push((x / 16777216) as u8);
}

fn push_tag(out: &mut Vec<u8>, a: u8, b: u8, c: u8, d: u8)
    ensures
        final(out)@ == old(out)@ + seq![a, b, c, d],
{
    out.push(a);
    out.push(b);
    out.push(c);
    out.push(d);
}

fn get_le16(bytes: &[u8], at: usize) -> (x: u16)
    requires
        at + 2 <= bytes.len(),
    ensures
        x == read_le16(bytes@, at as int),
{
    let lo: u16 = bytes[at] as u16;
    let hi: u16 = bytes[at + 1] as u16;
    lo + 256 * hi
}

fn get_le32(bytes: &[u8], at: usize) -> (x: u32)
    requires
        at + 4 <= bytes.len(),
    ensures
        x == read_le32(bytes@, at as int),
{
    let b0: u32 = bytes[at] as u32;
    let b1: u32 = bytes[at + 1] as u32;
    let b2: u32 = bytes[at + 2] as u32;
    let b3: u32 = bytes[at + 3] as u32;
    b0 + 256 * b1 + 65536 * b2 + 16777216 * b3
}

fn has_tag(bytes: &[u8], at: usize, a: u8, b: u8, c: u8, d: u8) -> (found: bool)
    requires
        at + 4 <= bytes.len(),
    ensures
        found == (bytes@.subrange(at as int, at + 4) == seq![a, b, c, d]),
{
    let found = bytes[at] == a && bytes[at + 1] == b && bytes[at + 2] == c && bytes[at + 3] == d;
    proof {
        let got = bytes@.subrange(at as int, at + 4);
        let want = seq![a, b, c, d];
        if found {
            assert(got =~= want);
        } else {
            assert(got[0] == bytes@[at as int]);
            assert(got[1] == bytes@[at + 1]);
            assert(got[2] == bytes@[at + 2]);
            assert(got[3] == bytes@[at + 3]);
        }
    }
    found
}

/// Builds the header for `data_len` bytes of samples. A payload of no byte,
/// or of more than `MAX_DATA_LEN`, gets none.
pub fn wav_header(data_len: usize) -> (header: Result<Vec<u8>, ConvertError>)
    ensures
        match header {
            Ok(h) => convertible(data_len as nat) && h@ == spec_header(data_len as u32),
            Err(e) => spec_convert_error(data_len as nat) == Some(e),
        },
{
    if data_len == 0 {
        return Err(ConvertError::Empty);
    }
    if data_len > MAX_DATA_LEN {
        return Err(ConvertError::TooLarge);
    }
    let size: u32 = data_len as u32;
    let mut h: Vec<u8> = Vec::new();
    push_tag(&mut h, 0x52, 0x49, 0x46, 0x46);
    push_le32(&mut h, 36 + size);
    push_tag(&mut h, 0x57, 0x41, 0x56, 0x45);
    push_tag(&mut h, 0x66, 0x6d, 0x74, 0x20);
    push_le32(&mut h, FMT_CHUNK_LEN);
    push_le16(&mut h, AUDIO_FORMAT_PCM);
    push_le16(&mut h, CHANNELS);
    push_le32(&mut h, SAMPLE_RATE);
    push_le32(&mut h, BYTE_RATE);
    push_le16(&mut h, BLOCK_ALIGN);
    push_le16(&mut h, BITS_PER_SAMPLE);
    push_tag(&mut h, 0x64, 0x61, 0x74, 0x61);
    push_le32(&mut h, size);
    Ok(h)
}

/// Converts a raw stream into its container: the header for its length,
/// then the stream itself. An empty stream, or one too long for the header's
/// size fields, is refused and nothing is produced.
pub fn convert(pcm: &[u8]) -> (out: Result<Vec<u8>, ConvertError>)
    ensures
        match out {
            Ok(bytes) => convertible(pcm@.len()) && bytes@ == spec_container(pcm@),
            Err(e) => spec_convert_error(pcm@.len()) == Some(e),
        },
{
    match wav_header(pcm.len()) {
        Err(e) => Err(e),
        Ok(mut bytes) => {
            let ghost header = bytes@;
            let mut i: usize = 0;
            while i < pcm.len()
                invariant
                    i <= pcm.len(),
                    bytes@ == header + pcm@.take(i as int),
                decreases pcm.len() - i,
            {
                bytes.push(pcm[i]);
                i = i + 1;
                assert(pcm@.take(i as int) == pcm@.take(i - 1).push(pcm@[i - 1]));
            }
            assert(pcm@.take(i as int) == pcm@);
            Ok(bytes)
        },
    }
}

/// Reads the fields of the header that `bytes` begin with. Fewer than 44
/// bytes, a wrong tag, a `fmt ` chunk of another length or a format other
/// than linear PCM give `None`.
pub fn parse_header(bytes: &[u8]) -> (info: Option<WavInfo>)
    ensures
        info == spec_parse_header(bytes@),
{
    if bytes.len() < HEADER_LEN {
        return None;
    }
    if !has_tag(bytes, 0, 0x52, 0x49, 0x46, 0x46) {
        return None;
    }
    if !has_tag(bytes, 8, 0x57, 0x41, 0x56, 0x45) {
        return None;
    }
    if !has_tag(bytes, 12, 0x66, 0x6d, 0x74, 0x20) {
        return None;
    }
    if get_le32(bytes, 16) != FMT_CHUNK_LEN {
        return None;
    }
    if get_le16(bytes, 20) != AUDIO_FORMAT_PCM {
        return None;
    }
    if !has_tag(bytes, 36, 0x64, 0x61, 0x74, 0x61) {
        return None;
    }
    Some(
        WavInfo {
            riff_len: get_le32(bytes, 4),
            channels: get_le16(bytes, 22),
            sample_rate: get_le32(bytes, 24),
            byte_rate: get_le32(bytes, 28),
            block_align: get_le16(bytes, 32),
            bits_per_sample: get_le16(bytes, 34),
            data_len: get_le32(bytes, 40),
        },
    )
}

/// The two derived header fields follow from the three that describe the
/// samples: a frame is one sample for each channel, and a second of audio is
/// `SAMPLE_RATE` frames.
pub proof fn lemma_derived_fields()
    ensures
        BLOCK_ALIGN == CHANNELS * (BITS_PER_SAMPLE / 8),
        BYTE_RATE == SAMPLE_RATE * CHANNELS * (BITS_PER_SAMPLE / 8),
{
    assert(BITS_PER_SAMPLE / 8 == 2);
    assert(SAMPLE_RATE * CHANNELS == 96000);
    assert(96000 * 2 == 192000);
}

/// Reading back what `le16` wrote gives the number written.
pub proof fn lemma_le16_round_trip(bytes: Seq<u8>, at: int, x: u16)
    requires
        0 <= at,
        at + 2 <= bytes.len(),
        bytes.subrange(at, at + 2) == le16(x),
    ensures
        read_le16(bytes, at) == x,
{
    let part = bytes.subrange(at, at + 2);
    assert(part[0] == bytes[at]);
    assert(part[1] == bytes[at + 1]);
}

/// Reading back what `le32` wrote gives the number written.
pub proof fn lemma_le32_round_trip(bytes: Seq<u8>, at: int, x: u32)
    requires
        0 <= at,
        at + 4 <= bytes.len(),
        bytes.subrange(at, at + 4) == le32(x),
    ensures
        read_le32(bytes, at) == x,
{
    let part = bytes.subrange(at, at + 4);
    assert(part[0] == bytes[at]);
    assert(part[1] == bytes[at + 1]);
    assert(part[2] == bytes[at + 2]);
    assert(part[3] == bytes[at + 3]);
}

/// Appending a piece leaves every range of what was there as it was, and
/// the piece is what stands behind it.
proof fn lemma_appended(prefix: Seq<u8>, piece: Seq<u8>)
    ensures
        (prefix + piece).len() == prefix.len() + piece.len(),
        (prefix + piece).subrange(prefix.len() as int, (prefix.len() + piece.len()) as int) == piece,
        forall|a: int, b: int|
            0 <= a <= b <= prefix.len() ==> #[trigger] (prefix + piece).subrange(a, b)
                == prefix.subrange(a, b),
{
    let whole = prefix + piece;
    assert(whole.subrange(prefix.len() as int, (prefix.len() + piece.len()) as int) =~= piece);
    assert forall|a: int, b: int| 0 <= a <= b <= prefix.len() implies #[trigger] whole.subrange(
        a,
        b,
    ) == prefix.subrange(a, b) by {
        assert(whole.subrange(a, b) =~= prefix.subrange(a, b));
    }
}

/// Where each field stands in a header.
proof fn lemma_header_layout(data_len: u32)
    ensures
        spec_header(data_len).len() == 44,
        spec_header(data_len).subrange(0, 4) == tag_riff(),
        spec_header(data_len).subrange(4, 8) == le32((36 + data_len) as u32),
        spec_header(data_len).subrange(8, 12) == tag_wave(),
        spec_header(data_len).subrange(12, 16) == tag_fmt(),
        spec_header(data_len).subrange(16, 20) == le32(FMT_CHUNK_LEN),
        spec_header(data_len).subrange(20, 22) == le16(AUDIO_FORMAT_PCM),
        spec_header(data_len).subrange(22, 24) == le16(CHANNELS),
        spec_header(data_len).subrange(24, 28) == le32(SAMPLE_RATE),
        spec_header(data_len).subrange(28, 32) == le32(BYTE_RATE),
        spec_header(data_len).subrange(32, 34) == le16(BLOCK_ALIGN),
        spec_header(data_len).subrange(34, 36) == le16(BITS_PER_SAMPLE),
        spec_header(data_len).subrange(36, 40) == tag_data(),
        spec_header(data_len).subrange(40, 44) == le32(data_len),
{
    let h0 = tag_riff();
    assert(h0.subrange(0, 4) =~= tag_riff());
    let h1 = h0 + le32((36 + data_len) as u32);
    lemma_appended(h0, le32((36 + data_len) as u32));
    let h2 = h1 + tag_wave();
    lemma_appended(h1, tag_wave());
    let h3 = h2 + tag_fmt();
    lemma_appended(h2, tag_fmt());
    let h4 = h3 + le32(FMT_CHUNK_LEN);
    lemma_appended(h3, le32(FMT_CHUNK_LEN));
    let h5 = h4 + le16(AUDIO_FORMAT_PCM);
    lemma_appended(h4, le16(AUDIO_FORMAT_PCM));
    let h6 = h5 + le16(CHANNELS);
    lemma_appended(h5, le16(CHANNELS));
    let h7 = h6 + le32(SAMPLE_RATE);
    lemma_appended(h6, le32(SAMPLE_RATE));
    let h8 = h7 + le32(BYTE_RATE);
    lemma_appended(h7, le32(BYTE_RATE));
    let h9 = h8 + le16(BLOCK_ALIGN);
    lemma_appended(h8, le16(BLOCK_ALIGN));
    let h10 = h9 + le16(BITS_PER_SAMPLE);
    lemma_appended(h9, le16(BITS_PER_SAMPLE));
    let h11 = h10 + tag_data();
    lemma_appended(h10, tag_data());
    let h12 = h11 + le32(data_len);
    lemma_appended(h11, le32(data_len));
    assert(h12 == spec_header(data_len));
}

/// A header is 44 bytes long and decodes to the fields it was built from.
pub proof fn lemma_header_round_trip(data_len: u32)
    requires
        data_len <= MAX_DATA_LEN,
    ensures
        spec_header(data_len).len() == HEADER_LEN,
        spec_parse_header(spec_header(data_len)) == Some(expected_info(data_len)),
{
    let h = spec_header(data_len);
    lemma_header_layout(data_len);
    lemma_le32_round_trip(h, 4, (36 + data_len) as u32);
    lemma_le32_round_trip(h, 16, FMT_CHUNK_LEN);
    lemma_le16_round_trip(h, 20, AUDIO_FORMAT_PCM);
    lemma_le16_round_trip(h, 22, CHANNELS);
    lemma_le32_round_trip(h, 24, SAMPLE_RATE);
    lemma_le32_round_trip(h, 28, BYTE_RATE);
    lemma_le16_round_trip(h, 32, BLOCK_ALIGN);
    lemma_le16_round_trip(h, 34, BITS_PER_SAMPLE);
    lemma_le32_round_trip(h, 40, data_len);
}

/// The container of a convertible raw stream is 44 bytes longer than the
/// stream, its header decodes to the capture's sample rate, channel count
/// and bit depth and to the stream's length, and the bytes after the header
/// are the stream itself.
pub proof fn lemma_container_round_trip(pcm: Seq<u8>)
    requires
        convertible(pcm.len()),
    ensures
        spec_container(pcm).len() == pcm.len() + HEADER_LEN,
        spec_parse_header(spec_container(pcm)) == Some(expected_info(pcm.len() as u32)),
        expected_info(pcm.len() as u32).data_len == pcm.len(),
        expected_info(pcm.len() as u32).riff_len == pcm.len() + 36,
        spec_container(pcm).skip(HEADER_LEN as int) == pcm,
{
    let n = pcm.len() as u32;
    let h = spec_header(n);
    let c = spec_container(pcm);
    lemma_header_round_trip(n);
    lemma_header_layout(n);
    lemma_appended(h, pcm);
    assert(h.subrange(0, 44) =~= h);
    assert(c.subrange(0, 44) == h);
    assert forall|i: int| 0 <= i < 44 implies c[i] == h[i] by {
        assert(c.subrange(0, 44)[i] == c[i]);
    }
    assert(c.skip(44) =~= pcm);
}

} // verus!
