use audio_stream::pcm::encode_sample;
use audio_stream::pcm::encode_samples;

#[test]
fn one_sample_is_four_bytes_least_significant_first() {
    assert_eq!(encode_sample(0x0102_0304), [0x04, 0x03, 0x02, 0x01]);
    assert_eq!(encode_sample(0), [0, 0, 0, 0]);
    assert_eq!(encode_sample(u32::MAX), [0xFF, 0xFF, 0xFF, 0xFF]);
    assert_eq!(encode_sample(0x0000_0100), [0x00, 0x01, 0x00, 0x00]);
    assert_eq!(encode_sample(0xFF00_0000), [0x00, 0x00, 0x00, 0xFF]);
}

#[test]
fn float_one_encodes_as_its_bit_pattern() {
    assert_eq!(encode_sample(1.0f32.to_bits()), [0x00, 0x00, 0x80, 0x3F]);
}

#[test]
fn encoding_agrees_with_the_float_byte_order() {
    let samples: [f32; 8] = [0.0, -0.0, 1.0, -1.0, 0.5, -0.25, 3.1415927, f32::MIN_POSITIVE];
    for sample in samples {
        assert_eq!(encode_sample(sample.to_bits()), sample.to_le_bytes());
    }
}

#[test]
fn encoding_agrees_with_the_integer_byte_order() {
    let patterns: [u32; 6] = [0, 1, 255, 256, 0x8000_0000, 0xDEAD_BEEF];
    for bits in patterns {
        assert_eq!(encode_sample(bits), bits.to_le_bytes());
    }
}

#[test]
fn a_batch_is_encoded_sample_by_sample() {
    let batch: [u32; 3] = [1, 0x0102_0304, 0xAABB_CCDD];
    assert_eq!(
        encode_samples(&batch),
        vec![0x01, 0x00, 0x00, 0x00, 0x04, 0x03, 0x02, 0x01, 0xDD, 0xCC, 0xBB, 0xAA]
    );
}

#[test]
fn an_empty_batch_has_no_bytes() {
    assert_eq!(encode_samples(&[]), Vec::<u8>::new());
}

#[test]
fn batches_join_without_seams() {
    let first: [u32; 2] = [7, 0x1000_0000];
    let second: [u32; 3] = [0xFFFF_FFFF, 0, 42];
    let mut joined: Vec<u32> = first.to_vec();
    joined.extend_from_slice(&second);
    let mut bytes: Vec<u8> = encode_samples(&first);
    bytes.extend_from_slice(&encode_samples(&second));
    assert_eq!(encode_samples(&joined), bytes);
    assert_eq!(bytes.len(), 20);
}
