//! Narrowing of bus values to the width of the 4-bit registers.

use vstd::prelude::*;

verus! {

/// The low four bits of a byte: what a 4-bit register keeps of a bus value.
pub open spec fn low_nibble(x: u8) -> u8 {
    x & 0x0f
}

/// The byte with only its `n` lowest bits kept, for `n` up to 8.
pub open spec fn low_bits(x: u8, n: u8) -> u8 {
    x & (((1u16 << n) - 1) as u8)
}

/// Keeping one more bit of `x` is keeping the bits so far and bit `n`.
pub proof fn lemma_low_bits_step(x: u8, n: u8)
    requires
        n < 8,
    ensures
        low_bits(x, (n + 1) as u8) == low_bits(x, n) | (x & (1u8 << n)),
{
    assert((x & (((1u16 << ((n + 1) as u8)) - 1) as u8)) == (x & (((1u16 << n) - 1) as u8)) | (x & (1u8
        << n))) by (bit_vector)
        requires
            n < 8,
    ;
}

/// The low nibble is the remainder modulo sixteen, and so below sixteen.
pub proof fn lemma_low_nibble_is_remainder(x: u8)
    ensures
        low_nibble(x) == x % 16,
        low_nibble(x) < 16,
{
    assert(x & 0x0f == x % 16) by (bit_vector);
}

/// Trims a byte to four bits by collecting its four lowest bits one by one.
pub fn u4(input: u8) -> (out: u8)
    ensures
        out == low_nibble(input),
        out == input % 16,
{
    let mut out: u8 = 0;
    proof {
        assert(low_bits(input, 0) == 0) by (bit_vector);
    }
    for i in 0u8..4
        invariant
            out == low_bits(input, i),
    {
        proof {
            lemma_low_bits_step(input, i);
        }
        out |= input & (1u8 << i);
    }
    proof {
        assert(low_bits(input, 4) == low_nibble(input)) by (bit_vector);
        lemma_low_nibble_is_remainder(input);
    }
    out
}

} // verus!
