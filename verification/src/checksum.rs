//! The checksum of MAVLink frames.

use vstd::prelude::*;

verus! {

/// The byte that the checksum of a heartbeat takes in behind the frame.
pub const HEARTBEAT_EXTRA: u8 = 50;

/// A checksum after one more bit: the division by the polynomial 0x1021, lowest
/// bit first.
pub open spec fn after_bit(crc: u16) -> u16 {
    if crc & 1 == 1 {
        (crc >> 1) ^ 0x8408
    } else {
        crc >> 1
    }
}

/// A checksum after some more bits.
pub open spec fn after_bits(crc: u16, bits: nat) -> u16
    decreases bits,
{
    if bits == 0 {
        crc
    } else {
        after_bit(after_bits(crc, (bits - 1) as nat))
    }
}

/// The X.25 checksum of some bytes, as MAVLink uses it: all ones to start with,
/// and not inverted at the end.
#[verifier::opaque]
pub open spec fn x25(bytes: Seq<u8>) -> u16
    decreases bytes.len(),
{
    if bytes.len() == 0 {
        0xFFFF
    } else {
        after_bits(x25(bytes.drop_last()) ^ (bytes.last() as u16), 8)
    }
}

/// Eight bits of a checksum whose low byte is zero only move the high byte down.
proof fn lemma_zero_byte(crc: u16)
    requires
        crc & 0xFF == 0,
    ensures
        after_bits(crc, 8) == crc >> 8,
{
    reveal_with_fuel(after_bits, 9);
    let c1 = crc >> 1u16;
    let c2 = c1 >> 1u16;
    let c3 = c2 >> 1u16;
    let c4 = c3 >> 1u16;
    let c5 = c4 >> 1u16;
    let c6 = c5 >> 1u16;
    let c7 = c6 >> 1u16;
    let c8 = c7 >> 1u16;
    assert(crc & 1u16 == 0u16 && c1 & 1u16 == 0u16 && c2 & 1u16 == 0u16 && c3 & 1u16 == 0u16 && c4
        & 1u16 == 0u16 && c5 & 1u16 == 0u16 && c6 & 1u16 == 0u16 && c7 & 1u16 == 0u16 && c8 == crc
        >> 8u16) by (bit_vector)
        requires
            crc & 0xFFu16 == 0u16,
            c1 == crc >> 1u16,
            c2 == c1 >> 1u16,
            c3 == c2 >> 1u16,
            c4 == c3 >> 1u16,
            c5 == c4 >> 1u16,
            c6 == c5 >> 1u16,
            c7 == c6 >> 1u16,
            c8 == c7 >> 1u16,
    ;
}

/// Bytes with their own checksum behind them, low byte first, have the checksum
/// zero: that is how a receiver finds that they arrived unharmed.
pub proof fn law_checksum_checks_out(bytes: Seq<u8>)
    ensures
        x25(bytes.push((x25(bytes) % 256) as u8).push((x25(bytes) / 256) as u8)) == 0,
{
    let crc = x25(bytes);
    let low = (crc % 256) as u8;
    let high = (crc / 256) as u8;
    let one = bytes.push(low);
    let two = one.push(high);
    reveal_with_fuel(x25, 1);
    assert(one.drop_last() =~= bytes);
    assert(two.drop_last() =~= one);
    let low_part: u16 = crc % 256;
    let mixed = crc ^ low_part;
    assert((crc ^ (crc % 256u16)) & 0xFFu16 == 0u16) by (bit_vector);
    assert((crc ^ (crc % 256u16)) >> 8u16 == crc / 256u16) by (bit_vector);
    lemma_zero_byte(mixed);
    assert(x25(one) == after_bits(mixed, 8));
    assert(x25(one) == high as u16);
    let last = x25(one) ^ (high as u16);
    let high_part: u16 = crc / 256;
    assert(high_part ^ high_part == 0u16) by (bit_vector);
    assert(0u16 & 0xFFu16 == 0u16) by (bit_vector);
    assert(0u16 >> 8u16 == 0u16) by (bit_vector);
    lemma_zero_byte(last);
    assert(x25(two) == after_bits(last, 8));
}

/// One bit: a zero bit only moves the others down, and a one bit also mixes in the
/// polynomial.
pub proof fn law_one_bit(crc: u16)
    requires
        crc < 0x8000,
    ensures
        after_bit((2 * crc) as u16) == crc,
        after_bit((2 * crc + 1) as u16) == crc ^ 0x8408,
{
    let even: u16 = (2 * crc) as u16;
    let odd: u16 = (2 * crc + 1) as u16;
    assert(even & 1u16 == 0u16 && even >> 1u16 == even / 2u16) by (bit_vector)
        requires
            even % 2u16 == 0u16,
    ;
    assert(odd & 1u16 == 1u16 && odd >> 1u16 == odd / 2u16) by (bit_vector)
        requires
            odd % 2u16 == 1u16,
    ;
}

} // verus!
