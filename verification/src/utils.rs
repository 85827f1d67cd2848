//! Bit-level helpers shared by the loader and the instruction handlers:
//! big-endian word assembly and two's-complement sign extension.

use vstd::prelude::*;

verus! {

/// The 16-bit value encoded big-endian by the byte pair `hi`, `lo`.
pub open spec fn be16(hi: u8, lo: u8) -> int {
    hi * 256 + lo
}

/// The big-endian byte pair that encodes `word`.
pub open spec fn spec_split_endian(word: u16) -> Seq<u8> {
    seq![(word >> 8) as u8, (word & 0xFF) as u8]
}

/// The low byte of a 16-bit word.
pub open spec fn low_byte(word: u16) -> u8 {
    (word & 0xFF) as u8
}

/// The high byte of a 16-bit word.
pub open spec fn high_byte(word: u16) -> u8 {
    (word >> 8) as u8
}

/// The low byte of a word fits in eight bits.
pub proof fn lemma_low_byte(word: u16)
    ensures
        word & 0xFF < 256,
        low_byte(word) == word & 0xFF,
{
    assert(word & 0xFF < 256) by (bit_vector);
}

/// The high byte of a word fits in eight bits.
pub proof fn lemma_high_byte(word: u16)
    ensures
        word >> 8 < 256,
        high_byte(word) == word >> 8,
{
    assert(word >> 8 < 256) by (bit_vector);
}

/// Mask keeping the low `bit_count` bits of a 16-bit word.
pub open spec fn low_mask(bit_count: u16) -> u16
    recommends
        1 <= bit_count < 16,
{
    !(0xFFFFu16 << bit_count)
}

/// Sign extension of a `bit_count`-bit two's-complement field to 16 bits:
/// if the field's top bit is set, every bit above the field is filled with 1.
pub open spec fn spec_sign_extend(x: u16, bit_count: u16) -> u16
    recommends
        1 <= bit_count < 16,
{
    if (x >> ((bit_count - 1) as u16)) & 1 == 1 {
        x | (0xFFFFu16 << bit_count)
    } else {
        x
    }
}

/// Reads a big-endian byte pair as one 16-bit word.
pub fn swap_endian(original: [u8; 2]) -> (word: u16)
    ensures
        word == be16(original[0], original[1]),
{
    let hi = original[0];
    let lo = original[1];
    proof {
        assert((hi as u16) << 8 == hi * 256) by (bit_vector);
    }
    (lo as u16) + ((hi as u16) << 8)
}

/// Splits a 16-bit word into the big-endian byte pair that `swap_endian`
/// reads back as the same word.
pub fn split_endian(word: u16) -> (bytes: [u8; 2])
    ensures
        bytes@ == spec_split_endian(word),
        be16(bytes[0], bytes[1]) == word,
{
    let hi = word >> 8;
    let lo = word & 0xFF;
    proof {
        assert(word >> 8 < 256 && word & 0xFF < 256 && (word >> 8) * 256 + (word & 0xFF) == word)
            by (bit_vector);
    }
    let bytes = [hi as u8, lo as u8];
    proof {
        assert(bytes@ =~= spec_split_endian(word));
    }
    bytes
}

/// Widens a two's-complement field of `bit_count` bits to a 16-bit word,
/// replicating the field's sign bit into the new high bits.
pub fn sign_extend(x: u16, bit_count: u16) -> (y: u16)
    requires
        1 <= bit_count < 16,
    ensures
        y == spec_sign_extend(x, bit_count),
{
    let mut y = x;
    if ((y >> (bit_count - 1)) & 1) == 1 {
        y = y | (0xFFFF << bit_count);
    }
    y
}

/// Law: splitting a big-endian word recovers the byte pair, and reading a
/// split word recovers the word, for every byte pair and every word.
pub proof fn lemma_endian_round_trip(hi: u8, lo: u8, word: u16)
    ensures
        spec_split_endian(be16(hi, lo) as u16) =~= seq![hi, lo],
        be16(spec_split_endian(word)[0], spec_split_endian(word)[1]) == word,
{
    let w = be16(hi, lo) as u16;
    assert(w == hi * 256 + lo) by (bit_vector)
        requires
            w == (hi * 256 + lo) as u16,
    ;
    assert(w >> 8 == hi && w & 0xFF == lo) by (bit_vector)
        requires
            w == hi * 256 + lo,
    ;
    assert(word >> 8 < 256 && word & 0xFF < 256 && (word >> 8) * 256 + (word & 0xFF) == word)
        by (bit_vector);
}

/// Law: for every 16-bit `x` and field width in 1..16, sign-extending `x`
/// masked to that width keeps the field's low bits unchanged, and the bits
/// above the field are all 0 when the field's sign bit is 0 and all 1 when
/// it is 1.
pub proof fn lemma_sign_extend_bits(x: u16, bit_count: u16)
    requires
        1 <= bit_count < 16,
    ensures
        spec_sign_extend(x & low_mask(bit_count), bit_count) & low_mask(bit_count) == x & low_mask(
            bit_count,
        ),
        ((x >> ((bit_count - 1) as u16)) & 1) == 0 ==> spec_sign_extend(
            x & low_mask(bit_count),
            bit_count,
        ) >> bit_count == 0,
        ((x >> ((bit_count - 1) as u16)) & 1) == 1 ==> spec_sign_extend(
            x & low_mask(bit_count),
            bit_count,
        ) >> bit_count == 0xFFFFu16 >> bit_count,
{
    let n = bit_count;
    let f = x & !(0xFFFFu16 << n);
    assert({
        let s = if (f >> ((n - 1) as u16)) & 1 == 1 {
            f | (0xFFFFu16 << n)
        } else {
            f
        };
        &&& (f >> ((n - 1) as u16)) & 1 == (x >> ((n - 1) as u16)) & 1
        &&& s & !(0xFFFFu16 << n) == f
        &&& ((x >> ((n - 1) as u16)) & 1) == 0 ==> s >> n == 0
        &&& ((x >> ((n - 1) as u16)) & 1) == 1 ==> s >> n == 0xFFFFu16 >> n
    }) by (bit_vector)
        requires
            1 <= n < 16 && f == x & !(0xFFFFu16 << n),
    ;
}

} // verus!
