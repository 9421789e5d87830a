//! Byte encoding of samples: each 32-bit sample becomes four bytes, least
//! significant first. A floating-point sample is given by its bit pattern.

use vstd::prelude::*;

verus! {

/// The four bytes of one sample, least significant first.
pub open spec fn sample_bytes(bits: u32) -> Seq<u8> {
    seq![
        (bits % 256) as u8,
        (bits / 256 % 256) as u8,
        (bits / 65536 % 256) as u8,
        (bits / 16777216) as u8,
    ]
}

/// The bytes of a batch of samples: four per sample, in sample order.
pub open spec fn pcm_bytes(samples: Seq<u32>) -> Seq<u8> {
    Seq::new(4 * samples.len(), |i: int| sample_bytes(samples[i / 4])[i % 4])
}

/// The sample whose encoding is the four bytes `bytes`.
pub open spec fn sample_of(bytes: Seq<u8>) -> u32
    recommends
        bytes.len() == 4,
{
    (bytes[0] + 256 * bytes[1] + 65536 * bytes[2] + 16777216 * bytes[3]) as u32
}

/// Encoding loses nothing: the sample can be read back from its bytes.
pub proof fn lemma_sample_round_trip(bits: u32)
    ensures
        sample_bytes(bits).len() == 4,
        sample_of(sample_bytes(bits)) == bits,
{
}

/// A batch that grows by one sample grows by that sample's four bytes.
pub proof fn lemma_pcm_push(samples: Seq<u32>, bits: u32)
    ensures
        pcm_bytes(samples.push(bits)) == pcm_bytes(samples) + sample_bytes(bits),
{
    assert(pcm_bytes(samples.push(bits)) =~= pcm_bytes(samples) + sample_bytes(bits));
}

/// Batches join without seams: the bytes of two batches in a row are the
/// bytes of the joined batch.
pub proof fn lemma_pcm_concat(first: Seq<u32>, second: Seq<u32>)
    ensures
        pcm_bytes(first + second) == pcm_bytes(first) + pcm_bytes(second),
{
    assert(pcm_bytes(first + second) =~= pcm_bytes(first) + pcm_bytes(second));
}

/// Encodes one sample.
pub fn encode_sample(bits: u32) -> (bytes: [u8; 4])
    ensures
        bytes@ == sample_bytes(bits),
{
    let bytes: [u8; 4] = [
        (bits % 256) as u8,
        (bits / 256 % 256) as u8,
        (bits / 65536 % 256) as u8,
        (bits / 16777216) as u8,
    ];
    assert(bytes@ =~= sample_bytes(bits));
    bytes
}

/// Encodes a batch of samples, in order.
pub fn encode_samples(samples: &[u32]) -> (bytes: Vec<u8>)
    ensures
        bytes@ == pcm_bytes(samples@),
{
    let mut bytes: Vec<u8> = Vec::new();
    let mut i: usize = 0;
    while i < samples.len()
        invariant
            i <= samples.len(),
            bytes@ == pcm_bytes(samples@.take(i as int)),
        decreases samples.len() - i,
    {
        let encoded: [u8; 4] = encode_sample(samples[i]);
        bytes.extend_from_slice(encoded.as_slice());
        proof {
            assert(samples@.take(i + 1) =~= samples@.take(i as int).push(samples[i as int]));
            lemma_pcm_push(samples@.take(i as int), samples[i as int]);
        }
        i += 1;
    }
    proof {
        assert(samples@.take(i as int) =~= samples@);
    }
    bytes
}

} // verus!
