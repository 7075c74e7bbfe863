use sensirion_i2c::debug_utils::DummyError;
use sensirion_i2c::wire::{
    decode_words, encode_word, frame_with_arg, frame_with_two_args, word_from_bytes,
};
use sensirion_i2c::Error;

fn decode(bytes: &[u8]) -> Result<Vec<u16>, Error<DummyError>> {
    decode_words::<DummyError>(bytes)
}

#[test]
fn word_takes_three_bytes() {
    assert_eq!(encode_word(0).len(), 3);
    assert_eq!(frame_with_arg(&[0, 0], 0).len(), 5);
    assert_eq!(frame_with_two_args(&[0, 0], 0, 0).len(), 8);
}

#[test]
fn encode_word_is_big_endian_with_checksum() {
    assert_eq!(encode_word(0xbeef), [0xbe, 0xef, 0x92]);
    assert_eq!(encode_word(0x0000), [0x00, 0x00, 0x81]);
    assert_eq!(encode_word(0xffff), [0xff, 0xff, 0xac]);
    assert_eq!(encode_word(0x0001), [0x00, 0x01, 0xb0]);
    assert_eq!(encode_word(0x8000), [0x80, 0x00, 0xa2]);
}

#[test]
fn frame_with_one_argument_has_five_bytes() {
    assert_eq!(frame_with_arg(&[0x24, 0x1d], 0x0912), [0x24, 0x1d, 0x09, 0x12, 0x63]);
    assert_eq!(frame_with_arg(&[0x36, 0x2f], 400), [0x36, 0x2f, 0x01, 0x90, 0x4c]);
}

#[test]
fn frame_with_two_arguments_has_eight_bytes() {
    assert_eq!(
        frame_with_two_args(&[0x26, 0x0f], 0x8000, 0x6666),
        [0x26, 0x0f, 0x80, 0x00, 0xa2, 0x66, 0x66, 0x93]
    );
    assert_eq!(
        frame_with_two_args(&[0x26, 0x0f], 0xbeef, 0x0000),
        [0x26, 0x0f, 0xbe, 0xef, 0x92, 0x00, 0x00, 0x81]
    );
}

#[test]
fn word_from_bytes_is_big_endian() {
    assert_eq!(word_from_bytes(0x01, 0xf4), 0x01f4);
    assert_eq!(word_from_bytes(0xff, 0x00), 0xff00);
    assert_eq!(word_from_bytes(0x00, 0xff), 0x00ff);
    assert_eq!(word_from_bytes(0xff, 0xff), 0xffff);
    assert_eq!(word_from_bytes(0, 0), 0);
}

#[test]
fn decode_three_words() {
    assert_eq!(
        decode(&[0x01, 0xf4, 0x33, 0x66, 0x67, 0xa2, 0x5e, 0xb9, 0x3c]),
        Ok(vec![0x01f4, 0x6667, 0x5eb9])
    );
}

#[test]
fn decode_one_word() {
    assert_eq!(decode(&[0xbe, 0xef, 0x92]), Ok(vec![0xbeef]));
}

#[test]
fn decode_nothing() {
    assert_eq!(decode(&[]), Ok(vec![]));
}

#[test]
fn decode_rejects_damaged_first_word() {
    assert_eq!(
        decode(&[0x01, 0xf5, 0x33, 0x66, 0x67, 0xa2, 0x5e, 0xb9, 0x3c]),
        Err(Error::InvalidCrc)
    );
}

#[test]
fn decode_rejects_damaged_middle_word() {
    assert_eq!(
        decode(&[0x01, 0xf4, 0x33, 0x66, 0x67, 0xa3, 0x5e, 0xb9, 0x3c]),
        Err(Error::InvalidCrc)
    );
}

#[test]
fn decode_rejects_damaged_last_word() {
    assert_eq!(
        decode(&[0x01, 0xf4, 0x33, 0x66, 0x67, 0xa2, 0x5f, 0xb9, 0x3c]),
        Err(Error::InvalidCrc)
    );
}

#[test]
fn decode_leaves_incomplete_word_aside() {
    assert_eq!(decode(&[0xbe, 0xef, 0x92, 0x12]), Ok(vec![0xbeef]));
    assert_eq!(decode(&[0xbe, 0xef, 0x92, 0x12, 0x34]), Ok(vec![0xbeef]));
    assert_eq!(decode(&[0xbe, 0xef]), Ok(vec![]));
}

#[test]
fn encoded_word_decodes_to_itself() {
    for word in [0u16, 1, 0x00ff, 0x0100, 0x1234, 0x7fff, 0x8000, 0xbeef, 0xffff] {
        assert_eq!(decode(&encode_word(word)), Ok(vec![word]));
    }
}
