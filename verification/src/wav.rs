//! WAV container encoding: 16-bit PCM behind the standard 44-byte
//! RIFF/WAVE/fmt /data header, all fields little-endian.
//!
//! The byte layout is part of the engine's contract — files it writes must
//! interoperate with existing readers — so the whole buffer is pinned down
//! byte for byte.

use vstd::bytes::spec_u16_to_le_bytes;
use vstd::bytes::spec_u32_to_le_bytes;
use vstd::bytes::u16_to_le_bytes;
use vstd::bytes::u32_to_le_bytes;
use vstd::prelude::*;

verus! {

/// The bytes of "RIFF".
pub open spec fn riff_tag() -> Seq<u8> {
    seq![82u8, 73u8, 70u8, 70u8]
}

/// The bytes of "WAVE".
pub open spec fn wave_tag() -> Seq<u8> {
    seq![87u8, 65u8, 86u8, 69u8]
}

/// The bytes of "fmt ".
pub open spec fn fmt_tag() -> Seq<u8> {
    seq![102u8, 109u8, 116u8, 32u8]
}

/// The bytes of "data".
pub open spec fn data_tag() -> Seq<u8> {
    seq![100u8, 97u8, 116u8, 97u8]
}

/// A sample's two's-complement 16-bit pattern.
pub open spec fn sample_bits(s: i16) -> u16 {
    if s >= 0 {
        s as u16
    } else {
        (s + 0x10000) as u16
    }
}

/// The PCM payload: each sample as two little-endian bytes, in order.
pub open spec fn wav_data_bytes(samples: Seq<i16>) -> Seq<u8>
    decreases samples.len(),
{
    if samples.len() == 0 {
        Seq::empty()
    } else {
        wav_data_bytes(samples.drop_last()) + spec_u16_to_le_bytes(sample_bits(samples.last()))
    }
}

/// The complete WAV buffer for interleaved 16-bit PCM: RIFF chunk with
/// overall size, WAVE form, fmt chunk (PCM format code 1, 16 bits per
/// sample) and data chunk.
pub open spec fn wav_bytes_spec(samples: Seq<i16>, sample_rate: u32, channels: u16) -> Seq<u8> {
    let data_size = (samples.len() * 2) as u32;
    let file_size = (36 + samples.len() * 2) as u32;
    let byte_rate = ((sample_rate as int) * (channels as int) * 2) as u32;
    let block_align = ((channels as int) * 2) as u16;
    riff_tag() + spec_u32_to_le_bytes(file_size) + wave_tag() + fmt_tag() + spec_u32_to_le_bytes(
        16u32,
    ) + spec_u16_to_le_bytes(1u16) + spec_u16_to_le_bytes(channels) + spec_u32_to_le_bytes(
        sample_rate,
    ) + spec_u32_to_le_bytes(byte_rate) + spec_u16_to_le_bytes(block_align) + spec_u16_to_le_bytes(
        16u16,
    ) + data_tag() + spec_u32_to_le_bytes(data_size) + wav_data_bytes(samples)
}

proof fn lemma_wav_data_len(samples: Seq<i16>)
    ensures
        wav_data_bytes(samples).len() == samples.len() * 2,
    decreases samples.len(),
{
    vstd::bytes::lemma_auto_spec_u16_to_from_le_bytes();
    if samples.len() > 0 {
        lemma_wav_data_len(samples.drop_last());
    }
}

/// Encode interleaved i16 PCM samples to a WAV byte buffer.
pub fn encode_wav(samples: &[i16], sample_rate: u32, channels: u16) -> (r: Vec<u8>)
    requires
        (channels as int) * 2 <= u16::MAX,
        (sample_rate as int) * (channels as int) * 2 <= u32::MAX,
        36 + samples@.len() * 2 <= u32::MAX,
    ensures
        r@ == wav_bytes_spec(samples@, sample_rate, channels),
        r@.len() == 44 + samples@.len() * 2,
{
    proof {
        vstd::bytes::lemma_auto_spec_u16_to_from_le_bytes();
        vstd::bytes::lemma_auto_spec_u32_to_from_le_bytes();
        lemma_wav_data_len(samples@);
    }
    let bits_per_sample: u16 = 16;
    let byte_rate: u32 = sample_rate * (channels as u32) * 2;
    let block_align: u16 = channels * 2;
    let data_size: u32 = (samples.len() * 2) as u32;
    let file_size: u32 = 36 + data_size;

    let mut buf: Vec<u8> = Vec::new();

    // RIFF header
    buf.push(82);
    buf.push(73);
    buf.push(70);
    buf.push(70);
    let mut piece = u32_to_le_bytes(file_size);
    buf.append(&mut piece);
    buf.push(87);
    buf.push(65);
    buf.push(86);
    buf.push(69);

    // fmt chunk
    buf.push(102);
    buf.push(109);
    buf.push(116);
    buf.push(32);
    let mut piece = u32_to_le_bytes(16);  // chunk size
    buf.append(&mut piece);
    let mut piece = u16_to_le_bytes(1);  // PCM format
    buf.append(&mut piece);
    let mut piece = u16_to_le_bytes(channels);
    buf.append(&mut piece);
    let mut piece = u32_to_le_bytes(sample_rate);
    buf.append(&mut piece);
    let mut piece = u32_to_le_bytes(byte_rate);
    buf.append(&mut piece);
    let mut piece = u16_to_le_bytes(block_align);
    buf.append(&mut piece);
    let mut piece = u16_to_le_bytes(bits_per_sample);
    buf.append(&mut piece);

    // data chunk
    buf.push(100);
    buf.push(97);
    buf.push(116);
    buf.push(97);
    let mut piece = u32_to_le_bytes(data_size);
    buf.append(&mut piece);

    let ghost header = buf@;
    proof {
        assert(header =~= riff_tag() + spec_u32_to_le_bytes(file_size) + wave_tag() + fmt_tag()
            + spec_u32_to_le_bytes(16u32) + spec_u16_to_le_bytes(1u16) + spec_u16_to_le_bytes(
            channels,
        ) + spec_u32_to_le_bytes(sample_rate) + spec_u32_to_le_bytes(byte_rate)
            + spec_u16_to_le_bytes(block_align) + spec_u16_to_le_bytes(16u16) + data_tag()
            + spec_u32_to_le_bytes(data_size));
    }

    let n = samples.len();
    let mut i: usize = 0;
    while i < n
        invariant
            i <= n,
            n == samples@.len(),
            buf@ == header + wav_data_bytes(samples@.subrange(0, i as int)),
        decreases n - i,
    {
        proof {
            assert(samples@.subrange(0, i as int + 1).drop_last() =~= samples@.subrange(
                0,
                i as int,
            ));
            assert(samples@.subrange(0, i as int + 1).last() == samples@[i as int]);
        }
        let s = samples[i];
        let bits: u16 = if s >= 0 {
            s as u16
        } else {
            ((s as i32) + 0x10000) as u16
        };
        let mut piece = u16_to_le_bytes(bits);
        buf.append(&mut piece);
        i += 1;
    }
    proof {
        assert(samples@.subrange(0, n as int) =~= samples@);
        assert(buf@ =~= wav_bytes_spec(samples@, sample_rate, channels));
    }
    buf
}

/// Interleaved stereo from a mono signal: every sample written once to the
/// left and once to the right channel.
pub fn interleave_duplicate(mono: &Vec<i16>) -> (r: Vec<i16>)
    requires
        mono@.len() * 2 <= usize::MAX,
    ensures
        r@.len() == mono@.len() * 2,
        forall|i: int|
            0 <= i < mono@.len() ==> r@[2 * i] == mono@[i] && r@[2 * i + 1] == #[trigger] mono@[i],
{
    let n = mono.len();
    let mut out: Vec<i16> = Vec::new();
    let mut i: usize = 0;
    while i < n
        invariant
            i <= n,
            n == mono@.len(),
            out@.len() == 2 * i,
            forall|j: int|
                0 <= j < i ==> out@[2 * j] == mono@[j] && out@[2 * j + 1] == #[trigger] mono@[j],
        decreases n - i,
    {
        let s = mono[i];
        out.push(s);
        out.push(s);
        i += 1;
    }
    out
}

} // verus!
