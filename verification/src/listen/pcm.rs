//! Samples as they lie in a segment file: four bytes each, the lowest first.
use vstd::prelude::*;

verus! {

/// The `k`-th lowest byte of a sample's bit pattern.
pub open spec fn byte_of(sample: u32, k: int) -> u8 {
    if k == 0 {
        (sample % 256) as u8
    } else if k == 1 {
        (sample / 256 % 256) as u8
    } else if k == 2 {
        (sample / 65536 % 256) as u8
    } else {
        (sample / 16777216) as u8
    }
}

/// The bit pattern that four bytes stand for.
pub open spec fn sample_of(b0: u8, b1: u8, b2: u8, b3: u8) -> u32 {
    (b0 + 256 * b1 + 65536 * b2 + 16777216 * b3) as u32
}

/// The bytes of the given samples, one sample behind the other.
pub open spec fn bytes_of(samples: Seq<u32>) -> Seq<u8> {
    Seq::new(4 * samples.len(), |i: int| byte_of(samples[i / 4], i % 4))
}

/// The samples in the given bytes. Bytes at the end that make up no whole sample are left out.
pub open spec fn samples_of(bytes: Seq<u8>) -> Seq<u32> {
    Seq::new(
        bytes.len() / 4,
        |i: int| sample_of(bytes[4 * i], bytes[4 * i + 1], bytes[4 * i + 2], bytes[4 * i + 3]),
    )
}

/// The bytes that are written for the given bit patterns of samples.
pub fn encode_samples(samples: &[u32]) -> (r: Vec<u8>)
    ensures
        r@ == bytes_of(samples@),
{
    let mut bytes: Vec<u8> = Vec::new();
    let mut i: usize = 0;
    while i < samples.len()
        invariant
            i <= samples@.len(),
            bytes@ == bytes_of(samples@.take(i as int)),
        decreases samples@.len() - i,
    {
        let sample: u32 = samples[i];
        bytes.push((sample % 256) as u8);
        bytes.push((sample / 256 % 256) as u8);
        bytes.push((sample / 65536 % 256) as u8);
        bytes.push((sample / 16777216) as u8);
        assert(bytes@ =~= bytes_of(samples@.take(i + 1)));
        i += 1;
    }
    assert(samples@.take(i as int) =~= samples@);
    bytes
}

/// The bit patterns of the samples in what was read.
pub fn decode_samples(bytes: &[u8]) -> (r: Vec<u32>)
    ensures
        r@ == samples_of(bytes@),
{
    let count: usize = bytes.len() / 4;
    let mut samples: Vec<u32> = Vec::new();
    let mut i: usize = 0;
    while i < count
        invariant
            count == bytes@.len() / 4,
            4 * count <= usize::MAX,
            i <= count,
            samples@.len() == i,
            forall|j: int|
                0 <= j < i ==> samples@[j] == sample_of(
                    bytes@[4 * j],
                    bytes@[4 * j + 1],
                    bytes@[4 * j + 2],
                    bytes@[4 * j + 3],
                ),
        decreases count - i,
    {
        let at: usize = i * 4;
        let sample: u32 = bytes[at] as u32 + 256 * bytes[at + 1] as u32 + 65536 * bytes[at + 2] as u32
            + 16777216 * bytes[at + 3] as u32;
        samples.push(sample);
        i += 1;
    }
    samples
}

/// Each sample is written as four bytes, of which each counts 256 times the one before it.
pub proof fn law_lowest_byte_comes_first(samples: Seq<u32>, i: int)
    requires
        0 <= i < samples.len(),
    ensures
        bytes_of(samples).len() == 4 * samples.len(),
        samples[i] == bytes_of(samples)[4 * i] + 256 * bytes_of(samples)[4 * i + 1] + 65536
            * bytes_of(samples)[4 * i + 2] + 16777216 * bytes_of(samples)[4 * i + 3],
{
    let x = samples[i];
    let bytes = bytes_of(samples);
    assert(bytes[4 * i] == byte_of(x, 0));
    assert(bytes[4 * i + 1] == byte_of(x, 1));
    assert(bytes[4 * i + 2] == byte_of(x, 2));
    assert(bytes[4 * i + 3] == byte_of(x, 3));
    assert(x % 256 + 256 * (x / 256 % 256) + 65536 * (x / 65536 % 256) + 16777216 * (x / 16777216)
        == x) by (bit_vector);
    assert(x / 16777216 < 256) by (bit_vector);
}

/// Four bytes are read as one sample in the same way, and bytes that are left over as none.
pub proof fn law_four_bytes_make_a_sample(bytes: Seq<u8>, i: int)
    requires
        0 <= i,
        4 * i + 3 < bytes.len(),
    ensures
        4 * samples_of(bytes).len() <= bytes.len() < 4 * samples_of(bytes).len() + 4,
        samples_of(bytes)[i] == bytes[4 * i] + 256 * bytes[4 * i + 1] + 65536 * bytes[4 * i + 2]
            + 16777216 * bytes[4 * i + 3],
{
}

/// What is read back of samples that were written are those samples.
pub proof fn law_samples_read_back(samples: Seq<u32>)
    ensures
        samples_of(bytes_of(samples)) == samples,
{
    let bytes = bytes_of(samples);
    assert forall|i: int| 0 <= i < samples.len() implies samples_of(bytes)[i] == samples[i] by {
        let x = samples[i];
        assert(bytes[4 * i] == byte_of(x, 0));
        assert(bytes[4 * i + 1] == byte_of(x, 1));
        assert(bytes[4 * i + 2] == byte_of(x, 2));
        assert(bytes[4 * i + 3] == byte_of(x, 3));
        assert(x % 256 + 256 * (x / 256 % 256) + 65536 * (x / 65536 % 256) + 16777216 * (x
            / 16777216) == x) by (bit_vector);
        assert(x / 16777216 < 256) by (bit_vector);
    }
    assert(samples_of(bytes) =~= samples);
}

} // verus!
