//! The in-memory WAV container: a 44-byte RIFF header describing 16-bit PCM,
//! followed by the little-endian sample bytes.
use vstd::bytes::{
    lemma_auto_spec_u16_to_from_le_bytes, lemma_auto_spec_u32_to_from_le_bytes,
    spec_u16_from_le_bytes, spec_u16_to_le_bytes, spec_u32_from_le_bytes, spec_u32_to_le_bytes,
    u16_from_le_bytes, u16_to_le_bytes, u32_from_le_bytes, u32_to_le_bytes,
};
use vstd::prelude::*;
use vstd::slice::slice_subrange;

verus! {

/// Length of the header that precedes the sample bytes.
pub const WAV_HEADER_LEN: usize = 44;

/// Bits stored per sample.
pub const BITS_PER_SAMPLE: u16 = 16;

/// Bytes stored per sample.
pub const BYTES_PER_SAMPLE: u16 = 2;

/// Size of the `fmt ` sub-chunk body for plain PCM.
pub const FMT_CHUNK_LEN: u32 = 16;

/// Format tag of uncompressed PCM.
pub const PCM_FORMAT_TAG: u16 = 1;

/// Bytes of the RIFF chunk that follow its size field, besides the sample data.
pub const RIFF_OVERHEAD: u32 = 36;

/// Why a block of samples cannot be described by a WAV header.
#[derive(Clone, Copy, Debug, PartialEq, Eq, Structural)]
pub enum WavError {
    /// `channels * 2` does not fit the 16-bit block-align field.
    TooManyChannels,
    /// `sample_rate * block_align` does not fit the 32-bit byte-rate field.
    ByteRateOverflow,
    /// The sample bytes plus the header do not fit the 32-bit RIFF size field.
    DataTooLarge,
}

/// The fields of a WAV header.
#[derive(Clone, Copy, Debug, PartialEq, Eq, Structural)]
pub struct WavHeader {
    pub riff_size: u32,
    pub format_tag: u16,
    pub channels: u16,
    pub sample_rate: u32,
    pub byte_rate: u32,
    pub block_align: u16,
    pub bits_per_sample: u16,
    pub data_size: u32,
}

pub open spec fn riff_tag() -> Seq<u8> {
    seq![0x52u8, 0x49u8, 0x46u8, 0x46u8]
}

pub open spec fn wave_tag() -> Seq<u8> {
    seq![0x57u8, 0x41u8, 0x56u8, 0x45u8]
}

pub open spec fn fmt_tag() -> Seq<u8> {
    seq![0x66u8, 0x6du8, 0x74u8, 0x20u8]
}

pub open spec fn data_tag() -> Seq<u8> {
    seq![0x64u8, 0x61u8, 0x74u8, 0x61u8]
}

/// Bytes in one frame: one sample of every channel.
pub open spec fn block_align_of(channels: int) -> int {
    channels * BYTES_PER_SAMPLE
}

/// Bytes per second of audio.
pub open spec fn byte_rate_of(sample_rate: int, channels: int) -> int {
    sample_rate * block_align_of(channels)
}

/// Bytes that `n` samples occupy.
pub open spec fn data_size_of(n: int) -> int {
    n * BYTES_PER_SAMPLE
}

/// The error that encoding `n` samples with this format gives, if any.
pub open spec fn encode_error(n: int, channels: u16, sample_rate: u32) -> Option<WavError> {
    if block_align_of(channels as int) > u16::MAX {
        Some(WavError::TooManyChannels)
    } else if byte_rate_of(sample_rate as int, channels as int) > u32::MAX {
        Some(WavError::ByteRateOverflow)
    } else if data_size_of(n) + RIFF_OVERHEAD > u32::MAX {
        Some(WavError::DataTooLarge)
    } else {
        None
    }
}

/// The little-endian bytes of a sequence of signed 16-bit samples.
pub open spec fn pcm_bytes(pcm: Seq<i16>) -> Seq<u8> {
    Seq::new(
        (2 * pcm.len()) as nat,
        |i: int|
            if i % 2 == 0 {
                ((pcm[i / 2] as u16) & 0xff) as u8
            } else {
                ((pcm[i / 2] as u16) >> 8) as u8
            },
    )
}

/// The 44 header bytes for `data_size` bytes of samples.
pub open spec fn wav_header_bytes(channels: u16, sample_rate: u32, data_size: u32) -> Seq<u8> {
    riff_tag() + spec_u32_to_le_bytes((data_size + RIFF_OVERHEAD) as u32) + wave_tag() + fmt_tag()
        + spec_u32_to_le_bytes(FMT_CHUNK_LEN) + spec_u16_to_le_bytes(PCM_FORMAT_TAG)
        + spec_u16_to_le_bytes(channels) + spec_u32_to_le_bytes(sample_rate)
        + spec_u32_to_le_bytes(byte_rate_of(sample_rate as int, channels as int) as u32)
        + spec_u16_to_le_bytes(block_align_of(channels as int) as u16) + spec_u16_to_le_bytes(
        BITS_PER_SAMPLE,
    ) + data_tag() + spec_u32_to_le_bytes(data_size)
}

/// The whole container for `pcm`.
pub open spec fn wav_bytes(pcm: Seq<i16>, channels: u16, sample_rate: u32) -> Seq<u8> {
    wav_header_bytes(channels, sample_rate, data_size_of(pcm.len() as int) as u32) + pcm_bytes(pcm)
}

pub open spec fn u16_at(b: Seq<u8>, at: int) -> u16 {
    spec_u16_from_le_bytes(b.subrange(at, at + 2))
}

pub open spec fn u32_at(b: Seq<u8>, at: int) -> u32 {
    spec_u32_from_le_bytes(b.subrange(at, at + 4))
}

/// Whether `b` starts with a PCM WAV header whose four tags are in place.
pub open spec fn is_wav_header(b: Seq<u8>) -> bool {
    &&& b.len() >= WAV_HEADER_LEN
    &&& b.subrange(0, 4) == riff_tag()
    &&& b.subrange(8, 12) == wave_tag()
    &&& b.subrange(12, 16) == fmt_tag()
    &&& u32_at(b, 16) == FMT_CHUNK_LEN
    &&& b.subrange(36, 40) == data_tag()
}

/// The header that `b` starts with, read field by field.
pub open spec fn header_of(b: Seq<u8>) -> Option<WavHeader> {
    if is_wav_header(b) {
        Some(
            WavHeader {
                riff_size: u32_at(b, 4),
                format_tag: u16_at(b, 20),
                channels: u16_at(b, 22),
                sample_rate: u32_at(b, 24),
                byte_rate: u32_at(b, 28),
                block_align: u16_at(b, 32),
                bits_per_sample: u16_at(b, 34),
                data_size: u32_at(b, 40),
            },
        )
    } else {
        None
    }
}

/// Encoding then parsing: the header read back from an encoded container gives
/// the channel count and sample rate it was built with and a data length of two
/// bytes per sample, with every derived field consistent with them.
pub proof fn lemma_wav_round_trip(pcm: Seq<i16>, channels: u16, sample_rate: u32)
    requires
        encode_error(pcm.len() as int, channels, sample_rate) is None,
    ensures
        wav_bytes(pcm, channels, sample_rate).len() == WAV_HEADER_LEN + data_size_of(
            pcm.len() as int,
        ),
        header_of(wav_bytes(pcm, channels, sample_rate)) == Some(
            WavHeader {
                riff_size: (data_size_of(pcm.len() as int) + RIFF_OVERHEAD) as u32,
                format_tag: PCM_FORMAT_TAG,
                channels: channels,
                sample_rate: sample_rate,
                byte_rate: byte_rate_of(sample_rate as int, channels as int) as u32,
                block_align: block_align_of(channels as int) as u16,
                bits_per_sample: BITS_PER_SAMPLE,
                data_size: data_size_of(pcm.len() as int) as u32,
            },
        ),
{
    lemma_auto_spec_u16_to_from_le_bytes();
    lemma_auto_spec_u32_to_from_le_bytes();
    let ds = data_size_of(pcm.len() as int) as u32;
    let b = wav_bytes(pcm, channels, sample_rate);
    assert(b.subrange(0, 4) =~= riff_tag());
    assert(b.subrange(4, 8) =~= spec_u32_to_le_bytes((ds + RIFF_OVERHEAD) as u32));
    assert(b.subrange(8, 12) =~= wave_tag());
    assert(b.subrange(12, 16) =~= fmt_tag());
    assert(b.subrange(16, 20) =~= spec_u32_to_le_bytes(FMT_CHUNK_LEN));
    assert(b.subrange(20, 22) =~= spec_u16_to_le_bytes(PCM_FORMAT_TAG));
    assert(b.subrange(22, 24) =~= spec_u16_to_le_bytes(channels));
    assert(b.subrange(24, 28) =~= spec_u32_to_le_bytes(sample_rate));
    assert(b.subrange(28, 32) =~= spec_u32_to_le_bytes(
        byte_rate_of(sample_rate as int, channels as int) as u32,
    ));
    assert(b.subrange(32, 34) =~= spec_u16_to_le_bytes(block_align_of(channels as int) as u16));
    assert(b.subrange(34, 36) =~= spec_u16_to_le_bytes(BITS_PER_SAMPLE));
    assert(b.subrange(36, 40) =~= data_tag());
    assert(b.subrange(40, 44) =~= spec_u32_to_le_bytes(ds));
}

fn push_tag(out: &mut Vec<u8>, a: u8, b: u8, c: u8, d: u8)
    ensures
        final(out)@ == old(out)@ + seq![a, b, c, d],
{
    out.push(a);
    out.push(b);
    out.push(c);
    out.push(d);
    assert(final(out)@ =~= old(out)@ + seq![a, b, c, d]);
}

fn push_u16(out: &mut Vec<u8>, x: u16)
    ensures
        final(out)@ == old(out)@ + spec_u16_to_le_bytes(x),
{
    let mut bytes = u16_to_le_bytes(x);
    out.append(&mut bytes);
}

fn push_u32(out: &mut Vec<u8>, x: u32)
    ensures
        final(out)@ == old(out)@ + spec_u32_to_le_bytes(x),
{
    let mut bytes = u32_to_le_bytes(x);
    out.append(&mut bytes);
}

/// Encodes interleaved 16-bit samples as a complete WAV file held in memory.
/// Empty input gives a valid header announcing no data.
pub fn create_wav_memory(pcm_data: &[i16], channels: u16, sample_rate: u32) -> (r: Result<
    Vec<u8>,
    WavError,
>)
    ensures
        match encode_error(pcm_data@.len() as int, channels, sample_rate) {
            Some(e) => r == Err::<Vec<u8>, WavError>(e),
            None => r matches Ok(bytes) && bytes@ == wav_bytes(pcm_data@, channels, sample_rate),
        },
{
    if channels > 32767 {
        return Err(WavError::TooManyChannels);
    }
    let block_align: u16 = channels * BYTES_PER_SAMPLE;
    assert(sample_rate as u64 * block_align as u64 <= u32::MAX as u64 * u16::MAX as u64)
        by (nonlinear_arith)
        requires
            block_align <= u16::MAX,
    ;
    if sample_rate as u64 * block_align as u64 > u32::MAX as u64 {
        return Err(WavError::ByteRateOverflow);
    }
    let byte_rate: u32 = sample_rate * block_align as u32;
    let n: usize = pcm_data.len();
    if n as u64 > ((u32::MAX - RIFF_OVERHEAD) / 2) as u64 {
        return Err(WavError::DataTooLarge);
    }
    let data_size: u32 = (n * 2) as u32;

    let mut out: Vec<u8> = Vec::new();
    push_tag(&mut out, 0x52, 0x49, 0x46, 0x46);
    push_u32(&mut out, data_size + RIFF_OVERHEAD);
    push_tag(&mut out, 0x57, 0x41, 0x56, 0x45);
    push_tag(&mut out, 0x66, 0x6d, 0x74, 0x20);
    push_u32(&mut out, FMT_CHUNK_LEN);
    push_u16(&mut out, PCM_FORMAT_TAG);
    push_u16(&mut out, channels);
    push_u32(&mut out, sample_rate);
    push_u32(&mut out, byte_rate);
    push_u16(&mut out, block_align);
    push_u16(&mut out, BITS_PER_SAMPLE);
    push_tag(&mut out, 0x64, 0x61, 0x74, 0x61);
    push_u32(&mut out, data_size);
    let ghost header = out@;
    assert(header == wav_header_bytes(channels, sample_rate, data_size));

    let mut i: usize = 0;
    while i < n
        invariant
            n == pcm_data@.len(),
            i <= n,
            out@ == header + pcm_bytes(pcm_data@.subrange(0, i as int)),
        decreases n - i,
    {
        let u: u16 = #[verifier::truncate] (pcm_data[i] as u16);
        out.push(#[verifier::truncate] ((u & 0xff) as u8));
        out.push((u >> 8) as u8);
        i = i + 1;
        assert(pcm_bytes(pcm_data@.subrange(0, i as int)) =~= pcm_bytes(
            pcm_data@.subrange(0, i - 1),
        ) + seq![((u & 0xff) as u8), ((u >> 8) as u8)]);
    }
    assert(pcm_data@.subrange(0, n as int) =~= pcm_data@);
    Ok(out)
}

fn tag_at(b: &[u8], at: usize, t0: u8, t1: u8, t2: u8, t3: u8) -> (r: bool)
    requires
        at + 4 <= b@.len(),
    ensures
        r == (b@.subrange(at as int, at + 4) == seq![t0, t1, t2, t3]),
{
    let r = b[at] == t0 && b[at + 1] == t1 && b[at + 2] == t2 && b[at + 3] == t3;
    if r {
        assert(b@.subrange(at as int, at + 4) =~= seq![t0, t1, t2, t3]);
    } else {
        let ghost s = b@.subrange(at as int, at + 4);
        assert(s[0] == b@[at as int] && s[1] == b@[at + 1] && s[2] == b@[at + 2] && s[3] == b@[at
            + 3]);
        assert(s != seq![t0, t1, t2, t3]);
    }
    r
}

fn read_u16(b: &[u8], at: usize) -> (r: u16)
    requires
        at + 2 <= b@.len(),
        at <= WAV_HEADER_LEN,
    ensures
        r == u16_at(b@, at as int),
{
    u16_from_le_bytes(slice_subrange(b, at, at + 2))
}

fn read_u32(b: &[u8], at: usize) -> (r: u32)
    requires
        at + 4 <= b@.len(),
        at <= WAV_HEADER_LEN,
    ensures
        r == u32_at(b@, at as int),
{
    u32_from_le_bytes(slice_subrange(b, at, at + 4))
}

/// Reads the header of a PCM WAV file: `None` unless the bytes start with the
/// RIFF, WAVE, `fmt ` and data tags at their places and a 16-byte format chunk.
pub fn parse_wav_header(bytes: &[u8]) -> (r: Option<WavHeader>)
    ensures
        r == header_of(bytes@),
{
    if bytes.len() < WAV_HEADER_LEN {
        return None;
    }
    if !tag_at(bytes, 0, 0x52, 0x49, 0x46, 0x46) || !tag_at(bytes, 8, 0x57, 0x41, 0x56, 0x45)
        || !tag_at(bytes, 12, 0x66, 0x6d, 0x74, 0x20) || !tag_at(bytes, 36, 0x64, 0x61, 0x74, 0x61)
        || read_u32(bytes, 16) != FMT_CHUNK_LEN {
        return None;
    }
    Some(
        WavHeader {
            riff_size: read_u32(bytes, 4),
            format_tag: read_u16(bytes, 20),
            channels: read_u16(bytes, 22),
            sample_rate: read_u32(bytes, 24),
            byte_rate: read_u32(bytes, 28),
            block_align: read_u16(bytes, 32),
            bits_per_sample: read_u16(bytes, 34),
            data_size: read_u32(bytes, 40),
        },
    )
}

} // verus!
