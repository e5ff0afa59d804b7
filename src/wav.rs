use vstd::prelude::*;
use vstd::bytes::{
    spec_u16_from_le_bytes, spec_u16_to_le_bytes, spec_u32_from_le_bytes, spec_u32_to_le_bytes,
    u16_from_le_bytes, u16_to_le_bytes, u32_from_le_bytes, u32_to_le_bytes,
    lemma_auto_spec_u16_to_from_le_bytes, lemma_auto_spec_u32_to_from_le_bytes,
};
use vstd::slice::slice_subrange;

verus! {

/// Sample rate used when the caller gives none.
pub const DEFAULT_SAMPLE_RATE: u32 = 22000;

/// Largest sample rate whose byte rate (four bytes per mono sample) fits in a `u32`.
pub const MAX_SAMPLE_RATE: u32 = 1073741823;

/// Largest number of samples whose file size fits in the `u32` size field.
pub const MAX_SAMPLES: usize = 1073741814;

/// Length of the canonical header that precedes the sample data.
pub const HEADER_LEN: usize = 44;

/// The fields that a reader takes from a container header.
#[derive(Clone, Copy, Debug, PartialEq, Eq, Structural)]
pub struct WavHeader {
    pub num_samples: u32,
    pub sample_rate: u32,
    pub num_channels: u16,
    pub bits_per_sample: u16,
}

pub open spec fn riff_tag() -> Seq<u8> {
    seq![82u8, 73u8, 70u8, 70u8]
}

pub open spec fn wave_tag() -> Seq<u8> {
    seq![87u8, 65u8, 86u8, 69u8]
}

pub open spec fn fmt_tag() -> Seq<u8> {
    seq![102u8, 109u8, 116u8, 32u8]
}

pub open spec fn data_tag() -> Seq<u8> {
    seq![100u8, 97u8, 116u8, 97u8]
}

/// The sample rate in effect for an optional caller choice.
pub open spec fn rate_or_default(sample_rate: Option<u32>) -> u32 {
    match sample_rate {
        Some(r) => r,
        None => DEFAULT_SAMPLE_RATE,
    }
}

/// Whether a sample count and a sample rate fit the header's 32-bit fields.
pub open spec fn fits_container(n: nat, sample_rate: u32) -> bool {
    n <= MAX_SAMPLES && sample_rate <= MAX_SAMPLE_RATE
}

/// The 44-byte header for `n` mono 32-bit IEEE-float samples at `rate`.
pub open spec fn header_bytes(n: nat, rate: u32) -> Seq<u8> {
    riff_tag() + spec_u32_to_le_bytes((36 + 4 * n) as u32) + wave_tag()
        + fmt_tag() + spec_u32_to_le_bytes(16) + spec_u16_to_le_bytes(3)
        + spec_u16_to_le_bytes(1) + spec_u32_to_le_bytes(rate)
        + spec_u32_to_le_bytes((rate * 4) as u32) + spec_u16_to_le_bytes(4)
        + spec_u16_to_le_bytes(32)
        + data_tag() + spec_u32_to_le_bytes((4 * n) as u32)
}

/// The little-endian bytes of each sample's bit pattern, in order.
pub open spec fn sample_bytes(samples: Seq<u32>) -> Seq<u8>
    decreases samples.len(),
{
    if samples.len() == 0 {
        Seq::empty()
    } else {
        sample_bytes(samples.drop_last()) + spec_u32_to_le_bytes(samples.last())
    }
}

/// The whole container: header, then the samples.
pub open spec fn wav_file(samples: Seq<u32>, rate: u32) -> Seq<u8> {
    header_bytes(samples.len(), rate) + sample_bytes(samples)
}

pub open spec fn u32_at(b: Seq<u8>, i: int) -> u32 {
    spec_u32_from_le_bytes(b.subrange(i, i + 4))
}

pub open spec fn u16_at(b: Seq<u8>, i: int) -> u16 {
    spec_u16_from_le_bytes(b.subrange(i, i + 2))
}

/// What a reader of the canonical layout takes from `b`: the four chunk tags must
/// stand in place, the format tag must be IEEE float and the block alignment must
/// not be zero; the sample count is the data size over the block alignment.
pub open spec fn parse_header_spec(b: Seq<u8>) -> Option<WavHeader> {
    if b.len() >= HEADER_LEN && b.subrange(0, 4) == riff_tag() && b.subrange(8, 12)
        == wave_tag() && b.subrange(12, 16) == fmt_tag() && b.subrange(36, 40) == data_tag()
        && u16_at(b, 20) == 3 && u16_at(b, 32) != 0 {
        Some(
            WavHeader {
                num_samples: (u32_at(b, 40) / (u16_at(b, 32) as u32)) as u32,
                sample_rate: u32_at(b, 24),
                num_channels: u16_at(b, 22),
                bits_per_sample: u16_at(b, 34),
            },
        )
    } else {
        None
    }
}

fn push_u32(out: &mut Vec<u8>, x: u32)
    ensures
        final(out)@ == old(out)@ + spec_u32_to_le_bytes(x),
{
    let mut b = u32_to_le_bytes(x);
    out.append(&mut b);
}

fn push_u16(out: &mut Vec<u8>, x: u16)
    ensures
        final(out)@ == old(out)@ + spec_u16_to_le_bytes(x),
{
    let mut b = u16_to_le_bytes(x);
    out.append(&mut b);
}

fn push_tag(out: &mut Vec<u8>, a: u8, b: u8, c: u8, d: u8)
    ensures
        final(out)@ == old(out)@ + seq![a, b, c, d],
{
    out.push(a);
    out.push(b);
    out.push(c);
    out.push(d);
    assert(final(out)@ =~= old(out)@ + seq![a, b, c, d]);
}

/// Serialises mono samples, given as the bit patterns of 32-bit floats, into a
/// canonical uncompressed container: a 44-byte header (IEEE-float format, one
/// channel, 32 bits per sample) followed by the samples in little-endian order.
/// Without a sample rate, `DEFAULT_SAMPLE_RATE` is written.
pub fn encode_wav(samples: &Vec<u32>, sample_rate: Option<u32>) -> (r: Vec<u8>)
    requires
        fits_container(samples@.len(), rate_or_default(sample_rate)),
    ensures
        r@ == wav_file(samples@, rate_or_default(sample_rate)),
        r@.len() == HEADER_LEN + 4 * samples@.len(),
{
    let rate: u32 = match sample_rate {
        Some(r) => r,
        None => DEFAULT_SAMPLE_RATE,
    };
    let n: u32 = samples.len() as u32;
    let data_size: u32 = n * 4;
    let mut out: Vec<u8> = Vec::new();
    push_tag(&mut out, 82, 73, 70, 70);
    push_u32(&mut out, 36 + data_size);
    push_tag(&mut out, 87, 65, 86, 69);
    push_tag(&mut out, 102, 109, 116, 32);
    push_u32(&mut out, 16);
    push_u16(&mut out, 3);
    push_u16(&mut out, 1);
    push_u32(&mut out, rate);
    push_u32(&mut out, rate * 4);
    push_u16(&mut out, 4);
    push_u16(&mut out, 32);
    push_tag(&mut out, 100, 97, 116, 97);
    push_u32(&mut out, data_size);
    proof {
        lemma_auto_spec_u32_to_from_le_bytes();
        lemma_auto_spec_u16_to_from_le_bytes();
        assert(out@ =~= header_bytes(samples@.len(), rate));
    }
    let mut i: usize = 0;
    while i < samples.len()
        invariant
            i <= samples@.len(),
            out@ == header_bytes(samples@.len(), rate) + sample_bytes(samples@.subrange(0, i as int)),
            out@.len() == HEADER_LEN + 4 * i,
        decreases samples@.len() - i,
    {
        push_u32(&mut out, samples[i]);
        proof {
            lemma_auto_spec_u32_to_from_le_bytes();
            let s = samples@.subrange(0, i + 1);
            assert(s.drop_last() =~= samples@.subrange(0, i as int));
            assert(out@ =~= header_bytes(samples@.len(), rate) + sample_bytes(s));
        }
        i = i + 1;
    }
    assert(samples@.subrange(0, samples@.len() as int) =~= samples@);
    out
}

fn read_u32(b: &Vec<u8>, i: usize) -> (r: u32)
    requires
        i <= HEADER_LEN,
        i + 4 <= b@.len(),
    ensures
        r == u32_at(b@, i as int),
{
    u32_from_le_bytes(slice_subrange(b.as_slice(), i, i + 4))
}

fn read_u16(b: &Vec<u8>, i: usize) -> (r: u16)
    requires
        i <= HEADER_LEN,
        i + 2 <= b@.len(),
    ensures
        r == u16_at(b@, i as int),
{
    u16_from_le_bytes(slice_subrange(b.as_slice(), i, i + 2))
}

fn tag_at(b: &Vec<u8>, i: usize, t0: u8, t1: u8, t2: u8, t3: u8) -> (r: bool)
    requires
        i <= HEADER_LEN,
        i + 4 <= b@.len(),
    ensures
        r == (b@.subrange(i as int, i + 4) == seq![t0, t1, t2, t3]),
{
    let r = b[i] == t0 && b[i + 1] == t1 && b[i + 2] == t2 && b[i + 3] == t3;
    let ghost sub = b@.subrange(i as int, i + 4);
    assert(r ==> sub =~= seq![t0, t1, t2, t3]);
    assert(sub == seq![t0, t1, t2, t3] ==> sub[0] == t0 && sub[1] == t1 && sub[2] == t2 && sub[3]
        == t3);
    r
}

/// Reads the header of a container in the canonical layout. Gives `None` where
/// the bytes are too short, a chunk tag is out of place, the format is not IEEE
/// float or the block alignment is zero.
pub fn parse_wav_header(bytes: &Vec<u8>) -> (r: Option<WavHeader>)
    ensures
        r == parse_header_spec(bytes@),
{
    if bytes.len() < HEADER_LEN {
        return None;
    }
    if !tag_at(bytes, 0, 82, 73, 70, 70) || !tag_at(bytes, 8, 87, 65, 86, 69) || !tag_at(
        bytes,
        12,
        102,
        109,
        116,
        32,
    ) || !tag_at(bytes, 36, 100, 97, 116, 97) {
        return None;
    }
    let format = read_u16(bytes, 20);
    let block_align = read_u16(bytes, 32);
    if format != 3 || block_align == 0 {
        return None;
    }
    let data_size = read_u32(bytes, 40);
    Some(
        WavHeader {
            num_samples: data_size / (block_align as u32),
            sample_rate: read_u32(bytes, 24),
            num_channels: read_u16(bytes, 22),
            bits_per_sample: read_u16(bytes, 34),
        },
    )
}

/// Reading back the header of an encoded container gives the number of samples,
/// the sample rate, one channel and 32 bits per sample.
pub proof fn lemma_header_round_trip(samples: Seq<u32>, rate: u32)
    requires
        fits_container(samples.len(), rate),
    ensures
        parse_header_spec(wav_file(samples, rate)) == Some(
            WavHeader {
                num_samples: samples.len() as u32,
                sample_rate: rate,
                num_channels: 1,
                bits_per_sample: 32,
            },
        ),
{
    lemma_auto_spec_u32_to_from_le_bytes();
    lemma_auto_spec_u16_to_from_le_bytes();
    let n = samples.len();
    let b = wav_file(samples, rate);
    let h = header_bytes(n, rate);
    assert(h.len() == 44);
    assert(b.subrange(0, 44) =~= h);
    assert(b.subrange(0, 4) =~= riff_tag());
    assert(b.subrange(8, 12) =~= wave_tag());
    assert(b.subrange(12, 16) =~= fmt_tag());
    assert(b.subrange(36, 40) =~= data_tag());
    assert(b.subrange(20, 22) =~= spec_u16_to_le_bytes(3));
    assert(b.subrange(22, 24) =~= spec_u16_to_le_bytes(1));
    assert(b.subrange(24, 28) =~= spec_u32_to_le_bytes(rate));
    assert(b.subrange(32, 34) =~= spec_u16_to_le_bytes(4));
    assert(b.subrange(34, 36) =~= spec_u16_to_le_bytes(32));
    assert(b.subrange(40, 44) =~= spec_u32_to_le_bytes((4 * n) as u32));
    assert(u32_at(b, 40) == 4 * n);
    assert(u16_at(b, 32) == 4);
    assert((4 * n) as u32 / 4u32 == n) by (nonlinear_arith)
        requires
            n <= MAX_SAMPLES,
    ;
}

} // verus!
