//! The 8-bit checksum that guards every 16-bit word on the wire.

use vstd::prelude::*;

verus! {

/// Generator polynomial x^8 + x^5 + x^4 + 1, without its leading term.
pub const POLYNOMIAL: u8 = 0x31;

/// Value of the accumulator before the first data byte.
pub const INITIAL: u8 = 0xff;

/// One shift of the accumulator: the top bit leaves, and where it was set
/// the polynomial is folded in.
pub open spec fn shift_once(acc: u8) -> u8 {
    if acc & 0x80 != 0 {
        (acc << 1) ^ POLYNOMIAL
    } else {
        acc << 1
    }
}

/// `count` shifts of the accumulator.
pub open spec fn shift(acc: u8, count: nat) -> u8
    decreases count,
{
    if count == 0 {
        acc
    } else {
        shift_once(shift(acc, (count - 1) as nat))
    }
}

/// The accumulator after one more data byte has been taken in.
pub open spec fn absorb(acc: u8, byte: u8) -> u8 {
    shift(acc ^ byte, 8)
}

/// The checksum of the two data bytes of a word, in wire order.
pub open spec fn crc8(b0: u8, b1: u8) -> u8 {
    absorb(absorb(INITIAL, b0), b1)
}

fn absorb_byte(acc: u8, byte: u8) -> (r: u8)
    ensures
        r == absorb(acc, byte),
{
    let mut crc: u8 = acc ^ byte;
    let ghost start = crc;
    let mut i: u8 = 0;
    while i < 8
        invariant
            i <= 8,
            crc == shift(start, i as nat),
        decreases 8 - i,
    {
        if crc & 0x80 != 0 {
            crc = (crc << 1) ^ POLYNOMIAL;
        } else {
            crc = crc << 1;
        }
        i = i + 1;
    }
    crc
}

/// Computes the checksum of a word from its two data bytes.
///
/// The result depends on the two bytes alone: equal bytes give an equal
/// checksum on every call.
pub fn compute(b0: u8, b1: u8) -> (r: u8)
    ensures
        r == crc8(b0, b1),
{
    absorb_byte(absorb_byte(INITIAL, b0), b1)
}

/// A word is intact when its third byte is the checksum of the first two.
pub open spec fn intact(b0: u8, b1: u8, crc: u8) -> bool {
    crc8(b0, b1) == crc
}

/// Tells whether `crc` is the checksum of the two data bytes.
pub fn verify(b0: u8, b1: u8, crc: u8) -> (r: bool)
    ensures
        r == intact(b0, b1, crc),
{
    compute(b0, b1) == crc
}

proof fn lemma_shift_once_injective(a: u8, b: u8)
    requires
        shift_once(a) == shift_once(b),
    ensures
        a == b,
{
    assert(shift_once(a) == shift_once(b) ==> a == b) by (bit_vector);
}

proof fn lemma_shift_injective(a: u8, b: u8, count: nat)
    requires
        shift(a, count) == shift(b, count),
    ensures
        a == b,
    decreases count,
{
    if count > 0 {
        lemma_shift_once_injective(shift(a, (count - 1) as nat), shift(b, (count - 1) as nat));
        lemma_shift_injective(a, b, (count - 1) as nat);
    }
}

/// Two accumulators that take in the same byte with the same result were
/// equal, and so were two bytes taken in by the same accumulator.
pub proof fn lemma_absorb_injective(acc0: u8, byte0: u8, acc1: u8, byte1: u8)
    requires
        absorb(acc0, byte0) == absorb(acc1, byte1),
    ensures
        byte0 == byte1 ==> acc0 == acc1,
        acc0 == acc1 ==> byte0 == byte1,
{
    lemma_shift_injective(acc0 ^ byte0, acc1 ^ byte1, 8);
    assert(acc0 ^ byte0 == acc1 ^ byte1 ==> (byte0 == byte1 <==> acc0 == acc1)) by (bit_vector);
}

/// The checksum of the word `0xbeef` is `0x92`.
pub proof fn lemma_check_value()
    ensures
        crc8(0xbe, 0xef) == 0x92,
{
    reveal_with_fuel(shift, 9);
    assert(shift_once(
        shift_once(
            shift_once(
                shift_once(shift_once(shift_once(shift_once(shift_once(0xffu8 ^ 0xbeu8))))),
            ),
        ),
    ) == 0x0cu8) by (bit_vector);
    assert(shift_once(
        shift_once(
            shift_once(
                shift_once(shift_once(shift_once(shift_once(shift_once(0x0cu8 ^ 0xefu8))))),
            ),
        ),
    ) == 0x92u8) by (bit_vector);
}

/// A word whose checksum was computed from its data bytes is intact.
pub proof fn lemma_computed_checksum_verifies(b0: u8, b1: u8)
    ensures
        intact(b0, b1, crc8(b0, b1)),
{
}

/// Words that differ in one data byte only have different checksums: no
/// damage confined to a single data byte goes unnoticed.
pub proof fn lemma_change_in_one_byte_detected(b0: u8, b1: u8, c0: u8, c1: u8)
    requires
        (b0 != c0 && b1 == c1) || (b0 == c0 && b1 != c1),
    ensures
        crc8(b0, b1) != crc8(c0, c1),
        !intact(c0, c1, crc8(b0, b1)),
{
    if crc8(b0, b1) == crc8(c0, c1) {
        lemma_absorb_injective(absorb(INITIAL, b0), b1, absorb(INITIAL, c0), c1);
        lemma_absorb_injective(INITIAL, b0, INITIAL, c0);
    }
}

/// Flipping any single bit of an intact word, in either data byte or in the
/// checksum byte, leaves a word that is no longer intact.
pub proof fn lemma_single_bit_flip_detected(b0: u8, b1: u8, bit: u8)
    requires
        bit < 8,
    ensures
        !intact(b0 ^ (1u8 << bit), b1, crc8(b0, b1)),
        !intact(b0, b1 ^ (1u8 << bit), crc8(b0, b1)),
        !intact(b0, b1, crc8(b0, b1) ^ (1u8 << bit)),
{
    let crc = crc8(b0, b1);
    assert(bit < 8 ==> b0 ^ (1u8 << bit) != b0) by (bit_vector);
    assert(bit < 8 ==> b1 ^ (1u8 << bit) != b1) by (bit_vector);
    assert(bit < 8 ==> crc ^ (1u8 << bit) != crc) by (bit_vector);
    lemma_change_in_one_byte_detected(b0, b1, b0 ^ (1u8 << bit), b1);
    lemma_change_in_one_byte_detected(b0, b1, b0, b1 ^ (1u8 << bit));
}

} // verus!
