//! Verified encoder for the linear-PCM audio container sent to the
//! transcription endpoint: a 44-byte header followed by 16-bit little-endian
//! samples, mono, 16 kHz.

use vstd::prelude::*;

verus! {

/// The two little-endian bytes of a 16-bit value.
pub open spec fn spec_le16(x: int) -> Seq<u8>
    recommends
        0 <= x < 0x1_0000,
{
    seq![(x % 256) as u8, ((x / 256) % 256) as u8]
}

/// The four little-endian bytes of a 32-bit value.
pub open spec fn spec_le32(x: int) -> Seq<u8>
    recommends
        0 <= x < 0x1_0000_0000,
{
    seq![
        (x % 256) as u8,
        ((x / 256) % 256) as u8,
        ((x / 0x1_0000) % 256) as u8,
        ((x / 0x100_0000) % 256) as u8,
    ]
}

/// The value a four-byte little-endian field denotes.
pub open spec fn spec_u32_of_le(b: Seq<u8>) -> int
    recommends
        b.len() == 4,
{
    b[0] + 0x100 * b[1] + 0x1_0000 * b[2] + 0x100_0000 * b[3]
}

/// A little-endian 32-bit field denotes the value it was built from.
pub proof fn lemma_le32_value(x: int)
    requires
        0 <= x < 0x1_0000_0000,
    ensures
        spec_u32_of_le(spec_le32(x)) == x,
{
    vstd::arithmetic::div_mod::lemma_fundamental_div_mod(x, 256);
    vstd::arithmetic::div_mod::lemma_fundamental_div_mod(x / 256, 256);
    vstd::arithmetic::div_mod::lemma_fundamental_div_mod(x / 0x1_0000, 256);
    vstd::arithmetic::div_mod::lemma_div_denominator(x, 256, 256);
    vstd::arithmetic::div_mod::lemma_div_denominator(x, 0x1_0000, 256);
    assert((x / 0x100_0000) % 256 == x / 0x100_0000) by {
        vstd::arithmetic::div_mod::lemma_basic_div(x / 0x100_0000, 256);
        vstd::arithmetic::div_mod::lemma_fundamental_div_mod(x / 0x100_0000, 256);
    }
}

/// The unsigned 16-bit pattern of a signed sample, two's complement.
pub open spec fn spec_sample_bits(s: i16) -> int {
    if s < 0 {
        s + 0x1_0000
    } else {
        s as int
    }
}

/// The raw data bytes of a sample sequence: each sample as two little-endian
/// bytes, in order.
pub open spec fn spec_pcm_bytes(samples: Seq<i16>) -> Seq<u8>
    decreases samples.len(),
{
    if samples.len() == 0 {
        Seq::empty()
    } else {
        spec_pcm_bytes(samples.drop_last()) + spec_le16(spec_sample_bits(samples.last()))
    }
}

pub proof fn lemma_pcm_bytes_len(samples: Seq<i16>)
    ensures
        spec_pcm_bytes(samples).len() == 2 * samples.len(),
    decreases samples.len(),
{
    if samples.len() > 0 {
        lemma_pcm_bytes_len(samples.drop_last());
    }
}

/// The 44-byte container header for `count` samples: chunk tags, overall size,
/// format fields (linear PCM, mono, 16 kHz, 16 bits per sample), and the data
/// chunk size.
pub open spec fn spec_wav_header(count: int) -> Seq<u8>
    recommends
        0 <= count,
        36 + 2 * count <= 0xFFFF_FFFF,
{
    seq![0x52u8, 0x49u8, 0x46u8, 0x46u8] + spec_le32(36 + 2 * count) + seq![
        0x57u8,
        0x41u8,
        0x56u8,
        0x45u8,
        0x66u8,
        0x6du8,
        0x74u8,
        0x20u8,
    ] + spec_le32(16) + spec_le16(1) + spec_le16(1) + spec_le32(16000) + spec_le32(32000)
        + spec_le16(2) + spec_le16(16) + seq![0x64u8, 0x61u8, 0x74u8, 0x61u8] + spec_le32(2 * count)
}

/// The full container: header followed by the sample data.
pub open spec fn spec_wav_bytes(samples: Seq<i16>) -> Seq<u8> {
    spec_wav_header(samples.len() as int) + spec_pcm_bytes(samples)
}

fn push_le16(v: &mut Vec<u8>, x: u16)
    ensures
        final(v)@ == old(v)@ + spec_le16(x as int),
{
    v.push((x % 256) as u8);
    v.push((x / 256) as u8);
    proof {
        assert(x / 256 < 256);
        assert(v@ =~= old(v)@ + spec_le16(x as int));
    }
}

fn push_le32(v: &mut Vec<u8>, x: u32)
    ensures
        final(v)@ == old(v)@ + spec_le32(x as int),
{
    v.push((x % 256) as u8);
    v.push(((x / 256) % 256) as u8);
    v.push(((x / 0x1_0000) % 256) as u8);
    v.push(((x / 0x100_0000) % 256) as u8);
    proof {
        assert(v@ =~= old(v)@ + spec_le32(x as int));
    }
}

/// Encodes samples as a self-contained linear-PCM container. Never fails: any
/// sample sequence, the empty one included, yields a valid container of
/// `44 + 2 * len` bytes.
pub fn samples_to_wav(samples: &Vec<i16>) -> (r: Vec<u8>)
    requires
        36 + 2 * samples@.len() <= 0xFFFF_FFFF,
    ensures
        r@ == spec_wav_bytes(samples@),
        r@.len() == 44 + 2 * samples@.len(),
{
    let count = samples.len();
    let data_chunk_size: u32 = 2 * (count as u32);
    let mut wav: Vec<u8> = Vec::new();
    wav.push(0x52);
    wav.push(0x49);
    wav.push(0x46);
    wav.push(0x46);
    push_le32(&mut wav, 36 + data_chunk_size);
    wav.push(0x57);
    wav.push(0x41);
    wav.push(0x56);
    wav.push(0x45);
    wav.push(0x66);
    wav.push(0x6d);
    wav.push(0x74);
    wav.push(0x20);
    push_le32(&mut wav, 16);
    push_le16(&mut wav, 1);
    push_le16(&mut wav, 1);
    push_le32(&mut wav, 16000);
    push_le32(&mut wav, 32000);
    push_le16(&mut wav, 2);
    push_le16(&mut wav, 16);
    wav.push(0x64);
    wav.push(0x61);
    wav.push(0x74);
    wav.push(0x61);
    push_le32(&mut wav, data_chunk_size);
    proof {
        assert(wav@ =~= spec_wav_header(samples@.len() as int));
        assert(samples@.take(0) =~= Seq::<i16>::empty());
    }
    let mut i: usize = 0;
    while i < count
        invariant
            i <= count,
            count == samples@.len(),
            36 + 2 * count <= 0xFFFF_FFFF,
            wav@ == spec_wav_header(samples@.len() as int) + spec_pcm_bytes(
                samples@.take(i as int),
            ),
        decreases count - i,
    {
        let s: i16 = samples[i];
        let bits: u32 = if s < 0 {
            (s as i32 + 0x1_0000) as u32
        } else {
            s as u32
        };
        proof {
            assert(bits == spec_sample_bits(samples@[i as int]));
        }
        push_le16(&mut wav, bits as u16);
        proof {
            assert(samples@.take(i as int + 1).drop_last() =~= samples@.take(i as int));
            assert(samples@.take(i as int + 1).last() == samples@[i as int]);
            assert(wav@ =~= spec_wav_header(samples@.len() as int) + spec_pcm_bytes(
                samples@.take(i as int + 1),
            ));
        }
        i = i + 1;
    }
    proof {
        assert(samples@.take(count as int) =~= samples@);
        lemma_pcm_bytes_len(samples@);
    }
    wav
}

/// The container's declared data-chunk size is twice the sample count, and its
/// declared overall size is 36 more than that.
pub proof fn lemma_wav_declared_sizes(samples: Seq<i16>)
    requires
        36 + 2 * samples.len() <= 0xFFFF_FFFF,
    ensures
        spec_wav_bytes(samples).subrange(40, 44) == spec_le32(2 * samples.len() as int),
        spec_u32_of_le(spec_wav_bytes(samples).subrange(40, 44)) == 2 * samples.len(),
        spec_wav_bytes(samples).subrange(4, 8) == spec_le32(36 + 2 * samples.len() as int),
        spec_u32_of_le(spec_wav_bytes(samples).subrange(4, 8)) == 36 + 2 * samples.len(),
{
    let w = spec_wav_bytes(samples);
    let c = samples.len() as int;
    assert(w.subrange(40, 44) =~= spec_le32(2 * c));
    assert(w.subrange(4, 8) =~= spec_le32(36 + 2 * c));
    lemma_le32_value(2 * c);
    lemma_le32_value(36 + 2 * c);
}

/// The container for the empty sample sequence is exactly the 44-byte header
/// with a zero data-chunk size.
pub proof fn lemma_wav_empty()
    ensures
        spec_wav_bytes(Seq::<i16>::empty()) == spec_wav_header(0),
        spec_wav_bytes(Seq::<i16>::empty()).len() == 44,
        spec_u32_of_le(spec_wav_bytes(Seq::<i16>::empty()).subrange(40, 44)) == 0,
{
    assert(spec_wav_bytes(Seq::<i16>::empty()) =~= spec_wav_header(0));
    lemma_wav_declared_sizes(Seq::<i16>::empty());
}

} // verus!
