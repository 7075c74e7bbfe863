//! Words on the wire: how a 16-bit value is framed with its checksum, and
//! how a response is checked and taken apart again.

use vstd::prelude::*;
use crate::checksum::{compute, crc8, intact, verify};
use crate::error::Error;

verus! {

/// A two-byte opcode, most significant byte first.
pub type Cmd = [u8; 2];

/// The more significant byte of a word.
pub open spec fn high_byte(word: u16) -> u8 {
    (word / 256) as u8
}

/// The less significant byte of a word.
pub open spec fn low_byte(word: u16) -> u8 {
    (word % 256) as u8
}

/// The word that two data bytes spell, most significant byte first.
pub open spec fn word_value(high: u8, low: u8) -> u16 {
    (high * 256 + low) as u16
}

/// A word as it travels: its two bytes, most significant first, and their
/// checksum.
pub open spec fn wire_word(word: u16) -> Seq<u8> {
    seq![high_byte(word), low_byte(word), crc8(high_byte(word), low_byte(word))]
}

/// The number of complete words in a response.
pub open spec fn word_count(bytes: Seq<u8>) -> nat {
    bytes.len() / 3
}

/// The `index`-th word of a response carries the checksum of its data.
pub open spec fn word_intact(bytes: Seq<u8>, index: int) -> bool {
    intact(bytes[3 * index], bytes[3 * index + 1], bytes[3 * index + 2])
}

/// Every complete word of a response carries the checksum of its data.
pub open spec fn all_intact(bytes: Seq<u8>) -> bool {
    forall|index: int| 0 <= index < word_count(bytes) ==> word_intact(bytes, index)
}

/// The values of the complete words of a response, in order.
pub open spec fn words_of(bytes: Seq<u8>) -> Seq<u16> {
    Seq::new(word_count(bytes), |index: int| word_value(bytes[3 * index], bytes[3 * index + 1]))
}

/// What a response decodes to: its words if every one of them is intact,
/// and a checksum failure otherwise.
pub open spec fn decoded<E>(bytes: Seq<u8>) -> Result<Seq<u16>, Error<E>> {
    if all_intact(bytes) {
        Ok(words_of(bytes))
    } else {
        Err(Error::InvalidCrc)
    }
}

/// A decoding result with its words as a sequence.
pub open spec fn words_view<E>(result: Result<Vec<u16>, Error<E>>) -> Result<Seq<u16>, Error<E>> {
    match result {
        Ok(words) => Ok(words@),
        Err(e) => Err(e),
    }
}

/// Frames a word for the wire.
pub fn encode_word(word: u16) -> (r: [u8; 3])
    ensures
        r@ == wire_word(word),
{
    let high: u8 = (word / 256) as u8;
    let low: u8 = (word % 256) as u8;
    let r = [high, low, compute(high, low)];
    assert(r@ =~= wire_word(word));
    r
}

/// Frames a command that carries one argument: the opcode, then the
/// argument as a word.
pub fn frame_with_arg(opcode: &Cmd, arg: u16) -> (r: [u8; 5])
    ensures
        r@ == opcode@ + wire_word(arg),
{
    let a = encode_word(arg);
    let r = [opcode[0], opcode[1], a[0], a[1], a[2]];
    assert(r@ =~= opcode@ + wire_word(arg));
    r
}

/// Frames a command that carries two arguments: the opcode, then each
/// argument as a word of its own.
pub fn frame_with_two_args(opcode: &Cmd, arg0: u16, arg1: u16) -> (r: [u8; 8])
    ensures
        r@ == opcode@ + wire_word(arg0) + wire_word(arg1),
{
    let a = encode_word(arg0);
    let b = encode_word(arg1);
    let r = [opcode[0], opcode[1], a[0], a[1], a[2], b[0], b[1], b[2]];
    assert(r@ =~= opcode@ + wire_word(arg0) + wire_word(arg1));
    r
}

/// Puts two data bytes together, most significant first.
pub fn word_from_bytes(high: u8, low: u8) -> (r: u16)
    ensures
        r == word_value(high, low),
{
    (high as u16) * 256 + (low as u16)
}

/// The two bytes of a word spell the word again.
pub proof fn lemma_word_bytes_round_trip(word: u16)
    ensures
        word_value(high_byte(word), low_byte(word)) == word,
{
}

/// A word framed for the wire decodes to itself.
pub proof fn lemma_wire_word_round_trip<E>(word: u16)
    ensures
        decoded::<E>(wire_word(word)) == Ok::<Seq<u16>, Error<E>>(seq![word]),
{
    let bytes = wire_word(word);
    assert(word_count(bytes) == 1);
    assert(word_intact(bytes, 0));
    assert(words_of(bytes) =~= seq![word]);
}

/// The bytes of a word are its upper and its lower eight bits, and the
/// word is the first byte shifted up by eight bits with the second below.
pub proof fn lemma_word_is_big_endian(word: u16, high: u8, low: u8)
    ensures
        high_byte(word) == (word >> 8) as u8,
        low_byte(word) == (word & 0xff) as u8,
        word_value(high, low) == (high as u16) << 8 | (low as u16),
{
    assert(word / 256 == word >> 8) by (bit_vector);
    assert(word % 256 == word & 0xff) by (bit_vector);
    assert((high as u16) * 256 + (low as u16) == (high as u16) << 8 | (low as u16))
        by (bit_vector);
}

/// Checks and decodes a response.
///
/// The response is read as consecutive three-byte words; bytes after the
/// last complete word belong to no word and are left aside. Every word is
/// checked before any is decoded: if one of them fails its checksum the
/// result is `InvalidCrc` and no value is handed out.
pub fn decode_words<E>(bytes: &[u8]) -> (r: Result<Vec<u16>, Error<E>>)
    ensures
        words_view(r) == decoded::<E>(bytes@),
{
    let count: usize = bytes.len() / 3;
    let mut i: usize = 0;
    while i < count
        invariant
            count == word_count(bytes@),
            3 * count <= bytes@.len() <= usize::MAX,
            i <= count,
            forall|index: int| 0 <= index < i ==> word_intact(bytes@, index),
        decreases count - i,
    {
        if !verify(bytes[3 * i], bytes[3 * i + 1], bytes[3 * i + 2]) {
            assert(!word_intact(bytes@, i as int));
            return Err(Error::InvalidCrc);
        }
        i = i + 1;
    }
    let mut words: Vec<u16> = Vec::new();
    let mut j: usize = 0;
    while j < count
        invariant
            count == word_count(bytes@),
            3 * count <= bytes@.len() <= usize::MAX,
            j <= count,
            words@.len() == j,
            forall|index: int|
                0 <= index < j ==> words@[index] == word_value(
                    bytes@[3 * index],
                    bytes@[3 * index + 1],
                ),
        decreases count - j,
    {
        words.push(word_from_bytes(bytes[3 * j], bytes[3 * j + 1]));
        j = j + 1;
    }
    assert(words@ =~= words_of(bytes@));
    Ok(words)
}

} // verus!
