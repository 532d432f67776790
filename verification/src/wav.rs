//! Decoding and encoding of the bundled metronome click assets.
//!
//! The assets are little-endian RIFF/WAVE containers holding 32-bit IEEE
//! float samples; the container layout is a plain 44-byte header (a 16-byte
//! format chunk with tag 3, then the data chunk). Samples are carried here
//! as their raw 32-bit patterns, in container order, losslessly; turning a
//! pattern into a float value is the audio backend's concern.

use vstd::prelude::*;
use vstd::bytes::{
    lemma_auto_spec_u16_to_from_le_bytes, lemma_auto_spec_u32_to_from_le_bytes,
    spec_u16_from_le_bytes, spec_u16_to_le_bytes, spec_u32_from_le_bytes, spec_u32_to_le_bytes,
    u16_from_le_bytes, u16_to_le_bytes, u32_from_le_bytes, u32_to_le_bytes,
};
use vstd::slice::slice_subrange;

verus! {

/// "RIFF", as the little-endian 32-bit word at the container's start.
pub const RIFF_MAGIC: u32 = 0x46464952;

/// "WAVE", the RIFF form type.
pub const WAVE_MAGIC: u32 = 0x45564157;

/// "fmt ", the format chunk's identifier.
pub const FMT_MAGIC: u32 = 0x20746d66;

/// "data", the data chunk's identifier.
pub const DATA_MAGIC: u32 = 0x61746164;

/// The format tag for 32-bit IEEE float samples.
pub const FORMAT_IEEE_FLOAT: u16 = 3;

/// The fixed header: RIFF header, 16-byte format chunk, data chunk header.
pub const WAV_HEADER_LEN: usize = 44;

/// The little-endian 32-bit word at a byte offset.
pub open spec fn field_u32(b: Seq<u8>, off: int) -> u32 {
    spec_u32_from_le_bytes(b.subrange(off, off + 4))
}

/// The little-endian 16-bit word at a byte offset.
pub open spec fn field_u16(b: Seq<u8>, off: int) -> u16 {
    spec_u16_from_le_bytes(b.subrange(off, off + 2))
}

/// The channel count the container declares.
pub open spec fn spec_channels(b: Seq<u8>) -> u16 {
    field_u16(b, 22)
}

/// The sample rate the container declares.
pub open spec fn spec_sample_rate(b: Seq<u8>) -> u32 {
    field_u32(b, 24)
}

/// The byte length the data chunk declares.
pub open spec fn spec_declared_data_len(b: Seq<u8>) -> u32 {
    field_u32(b, 40)
}

/// How many whole 32-bit samples follow the header.
pub open spec fn spec_sample_count(b: Seq<u8>) -> nat {
    (((b.len() - 44)) / 4) as nat
}

/// The `i`-th sample's raw 32-bit pattern.
pub open spec fn spec_sample(b: Seq<u8>, i: int) -> u32 {
    field_u32(b, 44 + 4 * i)
}

/// Every sample, in container order.
pub open spec fn spec_samples(b: Seq<u8>) -> Seq<u32> {
    Seq::new(spec_sample_count(b), |i: int| spec_sample(b, i))
}

/// A well-formed container: correct magic words, a 16-byte IEEE-float
/// format chunk with consistent derived fields, and a data chunk whose
/// declared length is exactly the bytes that follow the header.
pub open spec fn spec_is_wav(b: Seq<u8>) -> bool {
    &&& 44 <= b.len()
    &&& b.len() - 8 <= u32::MAX
    &&& (b.len() - 44) % 4 == 0
    &&& field_u32(b, 0) == RIFF_MAGIC
    &&& field_u32(b, 4) == b.len() - 8
    &&& field_u32(b, 8) == WAVE_MAGIC
    &&& field_u32(b, 12) == FMT_MAGIC
    &&& field_u32(b, 16) == 16
    &&& field_u16(b, 20) == FORMAT_IEEE_FLOAT
    &&& 1 <= spec_channels(b)
    &&& 4 * spec_channels(b) <= u16::MAX
    &&& 1 <= spec_sample_rate(b)
    &&& 4 * (spec_channels(b) as int) * (spec_sample_rate(b) as int) <= u32::MAX
    &&& field_u32(b, 28) == 4 * (spec_channels(b) as int) * (spec_sample_rate(b) as int)
    &&& field_u16(b, 32) == 4 * spec_channels(b)
    &&& field_u16(b, 34) == 32
    &&& field_u32(b, 36) == DATA_MAGIC
    &&& field_u32(b, 40) == b.len() - 44
}

/// One decoded metronome asset: an immutable sample sequence and the format
/// it was authored in. No resampling, no reinterpretation.
pub struct WavBuffer {
    pub channels: u16,
    pub sample_rate: u32,
    /// Raw 32-bit IEEE-float sample patterns, in container order.
    pub samples: Vec<u32>,
}

/// Decode one bundled asset. Returns the samples exactly when the buffer is
/// a well-formed container, and extracts every declared field and sample
/// losslessly; any malformation yields `None`.
pub fn decode_wav(b: &[u8]) -> (r: Option<WavBuffer>)
    ensures
        r is Some <==> spec_is_wav(b@),
        r matches Some(w) ==> {
            &&& w.channels == spec_channels(b@)
            &&& w.sample_rate == spec_sample_rate(b@)
            &&& w.samples@ == spec_samples(b@)
        },
{
    let n = b.len();
    if n < 44 {
        return None;
    }
    if (n - 44) % 4 != 0 {
        return None;
    }
    if (n as u64) - 8 > (u32::MAX as u64) {
        return None;
    }
    let riff = u32_from_le_bytes(slice_subrange(b, 0, 4));
    if riff != RIFF_MAGIC {
        return None;
    }
    let riff_size = u32_from_le_bytes(slice_subrange(b, 4, 8));
    if (riff_size as u64) != (n as u64) - 8 {
        return None;
    }
    let wave = u32_from_le_bytes(slice_subrange(b, 8, 12));
    if wave != WAVE_MAGIC {
        return None;
    }
    let fmt = u32_from_le_bytes(slice_subrange(b, 12, 16));
    if fmt != FMT_MAGIC {
        return None;
    }
    let fmt_len = u32_from_le_bytes(slice_subrange(b, 16, 20));
    if fmt_len != 16 {
        return None;
    }
    let format_tag = u16_from_le_bytes(slice_subrange(b, 20, 22));
    if format_tag != FORMAT_IEEE_FLOAT {
        return None;
    }
    let channels = u16_from_le_bytes(slice_subrange(b, 22, 24));
    if channels < 1 || channels > u16::MAX / 4 {
        return None;
    }
    let sample_rate = u32_from_le_bytes(slice_subrange(b, 24, 28));
    if sample_rate < 1 {
        return None;
    }
    let byte_rate = u32_from_le_bytes(slice_subrange(b, 28, 32));
    proof {
        assert(4 * (channels as int) * (sample_rate as int) <= 4 * 16383 * 0xffff_ffff)
            by (nonlinear_arith)
            requires
                channels <= 16383,
                sample_rate <= 0xffff_ffffu32,
        ;
    }
    let expected_byte_rate: u64 = 4u64 * (channels as u64) * (sample_rate as u64);
    if (byte_rate as u64) != expected_byte_rate {
        return None;
    }
    let block_align = u16_from_le_bytes(slice_subrange(b, 32, 34));
    if block_align != 4 * channels {
        return None;
    }
    let bits = u16_from_le_bytes(slice_subrange(b, 34, 36));
    if bits != 32 {
        return None;
    }
    let data = u32_from_le_bytes(slice_subrange(b, 36, 40));
    if data != DATA_MAGIC {
        return None;
    }
    let data_len = u32_from_le_bytes(slice_subrange(b, 40, 44));
    if (data_len as u64) != (n as u64) - 44 {
        return None;
    }
    let count = (n - 44) / 4;
    let mut samples: Vec<u32> = Vec::new();
    let mut i: usize = 0;
    while i < count
        invariant
            b@.len() == n,
            44 <= n,
            (n - 44) % 4 == 0,
            count == (n - 44) / 4,
            i <= count,
            samples@.len() == i,
            forall|j: int| 0 <= j < i ==> samples@[j] == spec_sample(b@, j),
        decreases count - i,
    {
        assert(44 + 4 * (i + 1) <= n);
        let off = 44 + 4 * i;
        let s = u32_from_le_bytes(slice_subrange(b, off, off + 4));
        samples.push(s);
        i = i + 1;
    }
    assert(samples@ =~= spec_samples(b@));
    Some(WavBuffer { channels, sample_rate, samples })
}

/// The data chunk's bytes for a sample sequence: each sample's four bytes,
/// little endian, in order.
pub open spec fn spec_sample_bytes(s: Seq<u32>) -> Seq<u8>
    decreases s.len(),
{
    if s.len() == 0 {
        Seq::empty()
    } else {
        spec_u32_to_le_bytes(s[0]) + spec_sample_bytes(s.drop_first())
    }
}

/// The 44-byte header for a container with the given format and sample
/// count.
pub open spec fn spec_header(channels: u16, sample_rate: u32, count: int) -> Seq<u8> {
    spec_u32_to_le_bytes(RIFF_MAGIC) + spec_u32_to_le_bytes((36 + 4 * count) as u32)
        + spec_u32_to_le_bytes(WAVE_MAGIC) + spec_u32_to_le_bytes(FMT_MAGIC)
        + spec_u32_to_le_bytes(16) + spec_u16_to_le_bytes(FORMAT_IEEE_FLOAT)
        + spec_u16_to_le_bytes(channels) + spec_u32_to_le_bytes(sample_rate)
        + spec_u32_to_le_bytes((4 * (channels as int) * (sample_rate as int)) as u32)
        + spec_u16_to_le_bytes((4 * channels) as u16) + spec_u16_to_le_bytes(32)
        + spec_u32_to_le_bytes(DATA_MAGIC) + spec_u32_to_le_bytes((4 * count) as u32)
}

/// A whole container: header, then the data chunk's bytes.
pub open spec fn spec_encode(channels: u16, sample_rate: u32, samples: Seq<u32>) -> Seq<u8> {
    spec_header(channels, sample_rate, samples.len() as int) + spec_sample_bytes(samples)
}

pub proof fn lemma_sample_bytes_len(s: Seq<u32>)
    ensures
        spec_sample_bytes(s).len() == 4 * s.len(),
    decreases s.len(),
{
    lemma_auto_spec_u32_to_from_le_bytes();
    if s.len() > 0 {
        lemma_sample_bytes_len(s.drop_first());
    }
}

pub proof fn lemma_sample_bytes_push(s: Seq<u32>, x: u32)
    ensures
        spec_sample_bytes(s.push(x)) == spec_sample_bytes(s) + spec_u32_to_le_bytes(x),
    decreases s.len(),
{
    lemma_auto_spec_u32_to_from_le_bytes();
    if s.len() == 0 {
        assert(s.push(x).drop_first() =~= s);
        assert(spec_sample_bytes(s.push(x)) =~= spec_sample_bytes(s) + spec_u32_to_le_bytes(x));
    } else {
        assert(s.push(x).drop_first() =~= s.drop_first().push(x));
        lemma_sample_bytes_push(s.drop_first(), x);
        assert(spec_sample_bytes(s.push(x)) =~= spec_sample_bytes(s) + spec_u32_to_le_bytes(x));
    }
}

/// Within the data chunk's bytes, sample `i` sits at byte offset `4 * i`.
pub proof fn lemma_sample_bytes_index(s: Seq<u32>, i: int)
    requires
        0 <= i < s.len(),
    ensures
        spec_sample_bytes(s).subrange(4 * i, 4 * i + 4) == spec_u32_to_le_bytes(s[i]),
    decreases i,
{
    lemma_auto_spec_u32_to_from_le_bytes();
    lemma_sample_bytes_len(s.drop_first());
    if i == 0 {
        assert(spec_sample_bytes(s).subrange(0, 4) =~= spec_u32_to_le_bytes(s[0]));
    } else {
        lemma_sample_bytes_index(s.drop_first(), i - 1);
        assert(spec_sample_bytes(s).subrange(4 * i, 4 * i + 4) =~= spec_sample_bytes(
            s.drop_first(),
        ).subrange(4 * (i - 1), 4 * (i - 1) + 4));
    }
}

/// Append a 32-bit word, little endian.
fn push_u32_le(out: &mut Vec<u8>, x: u32)
    ensures
        final(out)@ == old(out)@ + spec_u32_to_le_bytes(x),
{
    let mut bytes = u32_to_le_bytes(x);
    out.append(&mut bytes);
}

/// Append a 16-bit word, little endian.
fn push_u16_le(out: &mut Vec<u8>, x: u16)
    ensures
        final(out)@ == old(out)@ + spec_u16_to_le_bytes(x),
{
    let mut bytes = u16_to_le_bytes(x);
    out.append(&mut bytes);
}

/// Encoding then decoding is lossless: the container built for a sample
/// sequence is well formed, and declares and yields back exactly the
/// format fields and the samples it was built from.
pub proof fn lemma_wav_round_trip(channels: u16, sample_rate: u32, samples: Seq<u32>)
    requires
        1 <= channels,
        4 * channels <= u16::MAX,
        1 <= sample_rate,
        4 * (channels as int) * (sample_rate as int) <= u32::MAX,
        36 + 4 * samples.len() <= u32::MAX,
    ensures
        spec_is_wav(spec_encode(channels, sample_rate, samples)),
        spec_encode(channels, sample_rate, samples).len() == 44 + 4 * samples.len(),
        spec_channels(spec_encode(channels, sample_rate, samples)) == channels,
        spec_sample_rate(spec_encode(channels, sample_rate, samples)) == sample_rate,
        spec_samples(spec_encode(channels, sample_rate, samples)) == samples,
{
    lemma_auto_spec_u16_to_from_le_bytes();
    lemma_auto_spec_u32_to_from_le_bytes();
    lemma_sample_bytes_len(samples);
    let h = spec_header(channels, sample_rate, samples.len() as int);
    let d = spec_sample_bytes(samples);
    let b = spec_encode(channels, sample_rate, samples);
    assert(h.len() == 44);
    assert(b.len() == 44 + 4 * samples.len());
    assert(b.subrange(0, 4) =~= spec_u32_to_le_bytes(RIFF_MAGIC));
    assert(b.subrange(4, 8) =~= spec_u32_to_le_bytes((36 + 4 * samples.len()) as u32));
    assert(b.subrange(8, 12) =~= spec_u32_to_le_bytes(WAVE_MAGIC));
    assert(b.subrange(12, 16) =~= spec_u32_to_le_bytes(FMT_MAGIC));
    assert(b.subrange(16, 20) =~= spec_u32_to_le_bytes(16));
    assert(b.subrange(20, 22) =~= spec_u16_to_le_bytes(FORMAT_IEEE_FLOAT));
    assert(b.subrange(22, 24) =~= spec_u16_to_le_bytes(channels));
    assert(b.subrange(24, 28) =~= spec_u32_to_le_bytes(sample_rate));
    assert(b.subrange(28, 32) =~= spec_u32_to_le_bytes(
        (4 * (channels as int) * (sample_rate as int)) as u32,
    ));
    assert(b.subrange(32, 34) =~= spec_u16_to_le_bytes((4 * channels) as u16));
    assert(b.subrange(34, 36) =~= spec_u16_to_le_bytes(32));
    assert(b.subrange(36, 40) =~= spec_u32_to_le_bytes(DATA_MAGIC));
    assert(b.subrange(40, 44) =~= spec_u32_to_le_bytes((4 * samples.len()) as u32));
    assert forall|i: int| 0 <= i < samples.len() implies spec_sample(b, i) == samples[i] by {
        lemma_sample_bytes_index(samples, i);
        assert(b.subrange(44 + 4 * i, 44 + 4 * i + 4) =~= d.subrange(4 * i, 4 * i + 4));
    }
    assert(spec_samples(b) =~= samples);
}

/// Encode a sample sequence as a container that `decode_wav` accepts and
/// inverts. This is the shape the bundled assets are authored in.
pub fn encode_wav(channels: u16, sample_rate: u32, samples: &Vec<u32>) -> (r: Vec<u8>)
    requires
        1 <= channels,
        4 * channels <= u16::MAX,
        1 <= sample_rate,
        4 * (channels as int) * (sample_rate as int) <= u32::MAX,
        36 + 4 * samples@.len() <= u32::MAX,
    ensures
        r@ == spec_encode(channels, sample_rate, samples@),
        spec_is_wav(r@),
        spec_channels(r@) == channels,
        spec_sample_rate(r@) == sample_rate,
        spec_samples(r@) == samples@,
{
    proof {
        lemma_auto_spec_u16_to_from_le_bytes();
        lemma_auto_spec_u32_to_from_le_bytes();
    }
    let count = samples.len();
    let mut out: Vec<u8> = Vec::new();
    push_u32_le(&mut out, RIFF_MAGIC);
    let riff_size: u32 = 36 + 4 * (count as u32);
    push_u32_le(&mut out, riff_size);
    push_u32_le(&mut out, WAVE_MAGIC);
    push_u32_le(&mut out, FMT_MAGIC);
    push_u32_le(&mut out, 16);
    push_u16_le(&mut out, FORMAT_IEEE_FLOAT);
    push_u16_le(&mut out, channels);
    push_u32_le(&mut out, sample_rate);
    let byte_rate: u32 = 4 * (channels as u32) * sample_rate;
    push_u32_le(&mut out, byte_rate);
    push_u16_le(&mut out, 4 * channels);
    push_u16_le(&mut out, 32);
    push_u32_le(&mut out, DATA_MAGIC);
    push_u32_le(&mut out, 4 * (count as u32));
    assert(out@ =~= spec_header(channels, sample_rate, samples@.len() as int));
    let ghost header = out@;
    let mut i: usize = 0;
    while i < count
        invariant
            count == samples@.len(),
            i <= count,
            out@ == header + spec_sample_bytes(samples@.take(i as int)),
        decreases count - i,
    {
        push_u32_le(&mut out, samples[i]);
        proof {
            assert(samples@.take(i as int).push(samples@[i as int]) =~= samples@.take(
                i as int + 1,
            ));
            lemma_sample_bytes_push(samples@.take(i as int), samples@[i as int]);
        }
        i = i + 1;
    }
    proof {
        assert(samples@.take(count as int) =~= samples@);
        lemma_wav_round_trip(channels, sample_rate, samples@);
    }
    out
}

/// A well-formed container's decoded length always equals its declared
/// data length: four bytes per sample, nothing dropped.
pub proof fn lemma_decoded_length_matches_declared(b: Seq<u8>)
    requires
        spec_is_wav(b),
    ensures
        4 * spec_samples(b).len() == spec_declared_data_len(b),
        spec_samples(b).len() == spec_sample_count(b),
{
}

} // verus!
