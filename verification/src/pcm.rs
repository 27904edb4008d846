//! 16-bit signed little-endian PCM, and the uncompressed container that
//! wraps a mono recording.

use vstd::prelude::*;

verus! {

/// The sample that two bytes hold, low byte first.
pub open spec fn sample_of(lo: u8, hi: u8) -> i16 {
    let v = lo as int + 256 * (hi as int);
    if v >= 32768 {
        (v - 65536) as i16
    } else {
        v as i16
    }
}

/// The low byte of a sample's two's-complement form.
pub open spec fn low_byte(s: i16) -> u8 {
    (((s as int) + 65536) % 256) as u8
}

/// The high byte of a sample's two's-complement form.
pub open spec fn high_byte(s: i16) -> u8 {
    ((((s as int) + 65536) / 256) % 256) as u8
}

/// The samples that a run of bytes holds; an odd last byte is left out.
pub open spec fn decode_s16le(bytes: Seq<u8>) -> Seq<i16> {
    Seq::new(bytes.len() / 2, |i: int| sample_of(bytes[2 * i], bytes[2 * i + 1]))
}

/// The bytes of a run of samples, two per sample, low byte first.
pub open spec fn encode_s16le(samples: Seq<i16>) -> Seq<u8> {
    Seq::new(
        2 * samples.len(),
        |i: int|
            if i % 2 == 0 {
                low_byte(samples[i / 2])
            } else {
                high_byte(samples[i / 2])
            },
    )
}

/// The four bytes of a 32-bit count, low byte first.
pub open spec fn le32(v: int) -> Seq<u8> {
    seq![(v % 256) as u8, ((v / 256) % 256) as u8, ((v / 65536) % 256) as u8, ((v / 16777216) % 256) as u8]
}

/// The two bytes of a 16-bit count, low byte first.
pub open spec fn le16(v: int) -> Seq<u8> {
    seq![(v % 256) as u8, ((v / 256) % 256) as u8]
}

/// The 44 bytes that open a mono 16-bit PCM recording of `count` samples:
/// the RIFF and WAVE marks, the format chunk, and the data chunk's header.
pub open spec fn wav_header(sample_rate: u32, count: nat) -> Seq<u8> {
    seq![0x52u8, 0x49, 0x46, 0x46] + le32(36 + 2 * (count as int)) + seq![0x57u8, 0x41, 0x56, 0x45]
        + seq![0x66u8, 0x6d, 0x74, 0x20] + le32(16) + le16(1) + le16(1) + le32(sample_rate as int)
        + le32(2 * (sample_rate as int)) + le16(2) + le16(16) + seq![0x64u8, 0x61, 0x74, 0x61]
        + le32(2 * (count as int))
}

/// A whole recording: the header, then the samples.
pub open spec fn wav_container(sample_rate: u32, samples: Seq<i16>) -> Seq<u8> {
    wav_header(sample_rate, samples.len()) + encode_s16le(samples)
}

/// The most samples one container can hold: its 32-bit size field counts
/// the sample bytes and 36 bytes of header.
pub const MAX_WAV_SAMPLES: usize = 0x7fff_ffed;

/// The highest sample rate whose byte rate still fits the header.
pub const MAX_WAV_RATE: u32 = 0x7fff_ffff;

/// Writes a recording with `hound::WavWriter` (`new` on a cursor over a
/// fresh vector, `write_sample` for each sample, `finalize`). For one
/// channel of 16-bit integer samples hound writes the 44-byte PCM header
/// and then each sample low byte first; the contract states those bytes.
/// It also states that the write succeeds: hound refuses only other bit
/// depths at the start and an unfinished frame of several channels at the
/// end, and passes on the errors of its writer, which here is a cursor over
/// a vector in memory that grows as it is written.
#[verifier::external_body]
fn hound_write(channels: u16, bits: u16, sample_rate: u32, samples: &[i16]) -> (out: Option<Vec<u8>>)
    requires
        channels == 1,
        bits == 16,
        0 < sample_rate <= MAX_WAV_RATE,
        samples@.len() <= MAX_WAV_SAMPLES,
    ensures
        out is Some,
        out matches Some(bytes) ==> bytes@ == wav_container(sample_rate, samples@),
{
    let mut bytes = Vec::new();
    let spec = hound::WavSpec { channels, sample_rate, bits_per_sample: bits, sample_format: hound::SampleFormat::Int };
    let mut writer = hound::WavWriter::new(std::io::Cursor::new(&mut bytes), spec).ok()?;
    for s in samples.iter() {
        writer.write_sample(*s).ok()?;
    }
    writer.finalize().ok()?;
    Some(bytes)
}

/// Decodes little-endian 16-bit PCM bytes into samples.
pub fn decode_samples(bytes: &[u8]) -> (samples: Vec<i16>)
    ensures
        samples@ == decode_s16le(bytes@),
{
    let len = bytes.len();
    let n = len / 2;
    let mut samples: Vec<i16> = Vec::new();
    let mut i: usize = 0;
    while i < n
        invariant
            len == bytes@.len(),
            n == len / 2,
            i <= n,
            samples@.len() == i,
            forall|k: int| 0 <= k < i ==> samples@[k] == sample_of(bytes@[2 * k], bytes@[2 * k + 1]),
        decreases n - i,
    {
        let lo: i32 = bytes[2 * i] as i32;
        let hi: i32 = bytes[2 * i + 1] as i32;
        let v: i32 = lo + 256 * hi;
        let s: i16 = if v >= 32768 {
            (v - 65536) as i16
        } else {
            v as i16
        };
        samples.push(s);
        i += 1;
    }
    assert(samples@ =~= decode_s16le(bytes@));
    samples
}

/// Encodes samples as little-endian 16-bit PCM bytes.
pub fn encode_samples(samples: &[i16]) -> (bytes: Vec<u8>)
    ensures
        bytes@ == encode_s16le(samples@),
{
    let mut bytes: Vec<u8> = Vec::new();
    let mut i: usize = 0;
    while i < samples.len()
        invariant
            i <= samples@.len(),
            bytes@.len() == 2 * i,
            forall|k: int| 0 <= k < 2 * i ==> bytes@[k] == encode_s16le(samples@)[k],
        decreases samples.len() - i,
    {
        let v: i32 = samples[i] as i32 + 65536;
        let lo: u8 = (v % 256) as u8;
        let hi: u8 = ((v / 256) % 256) as u8;
        bytes.push(lo);
        bytes.push(hi);
        i += 1;
    }
    assert(bytes@ =~= encode_s16le(samples@));
    bytes
}

/// Wraps a mono recording in its container. Within the bounds the result
/// is always there.
pub fn encode_wav(sample_rate: u32, samples: &[i16]) -> (out: Option<Vec<u8>>)
    requires
        0 < sample_rate <= MAX_WAV_RATE,
        samples@.len() <= MAX_WAV_SAMPLES,
    ensures
        out matches Some(bytes) && bytes@ == wav_container(sample_rate, samples@),
{
    hound_write(1, 16, sample_rate, samples)
}

/// Decoding what was encoded gives the samples back, each one exactly.
pub proof fn pcm_round_trip(samples: Seq<i16>)
    ensures
        decode_s16le(encode_s16le(samples)) == samples,
{
    let bytes = encode_s16le(samples);
    assert forall|i: int| 0 <= i < samples.len() implies sample_of(bytes[2 * i], bytes[2 * i + 1])
        == samples[i] by {
        let s = samples[i];
        assert((2 * i) % 2 == 0 && (2 * i) / 2 == i && (2 * i + 1) % 2 == 1 && (2 * i + 1) / 2 == i);
        assert(bytes[2 * i] == low_byte(s));
        assert(bytes[2 * i + 1] == high_byte(s));
    }
    assert((2 * samples.len()) / 2 == samples.len());
    assert(decode_s16le(bytes) =~= samples);
}

/// A container is 44 bytes of header and then the samples' bytes, so the
/// samples read back from behind the header are the ones written.
pub proof fn wav_payload_round_trip(sample_rate: u32, samples: Seq<i16>)
    ensures
        wav_container(sample_rate, samples).len() == 44 + 2 * samples.len(),
        decode_s16le(wav_container(sample_rate, samples).skip(44)) == samples,
{
    let header = wav_header(sample_rate, samples.len());
    assert(header.len() == 44);
    assert(wav_container(sample_rate, samples).skip(44) =~= encode_s16le(samples));
    pcm_round_trip(samples);
}

} // verus!
