use vstd::prelude::*;

verus! {

/// Whether bit `i` of `byte` is one; bit 0 is the lowest.
pub open spec fn bit_set(byte: u8, i: u8) -> bool {
    (byte >> i) & 1 == 1
}

/// The byte with its eight bits in the opposite order.
pub open spec fn reversed(n: u8) -> u8 {
    ((n & 0x01) << 7) | ((n & 0x02) << 5) | ((n & 0x04) << 3) | ((n & 0x08) << 1) | ((n & 0x10)
        >> 1) | ((n & 0x20) >> 3) | ((n & 0x40) >> 5) | ((n & 0x80) >> 7)
}

/// Tests one bit of a byte.
pub fn test_bit(byte: u8, i: u8) -> (set: bool)
    requires
        i < 8,
    ensures
        set == bit_set(byte, i),
{
    (byte >> i) & 1 == 1
}

/// A mask lets nothing through that is larger than itself.
pub proof fn lemma_mask_bound(v: u8, m: u8)
    ensures
        v & m <= m,
{
    assert(v & m <= m) by (bit_vector);
}

/// A mask lets nothing through that is larger than itself.
pub proof fn lemma_mask_bound_u16(v: u16, m: u16)
    ensures
        v & m <= m,
{
    assert(v & m <= m) by (bit_vector);
}

/// Masking with 0x7F clears bit 7, and setting bit 7 sets it.
pub proof fn lemma_bit_seven(v: u8)
    ensures
        (v & 0x7F) & 0x80 == 0,
        (v | 0x80) & 0x80 != 0,
{
    assert((v & 0x7F) & 0x80 == 0) by (bit_vector);
    assert((v | 0x80) & 0x80 != 0) by (bit_vector);
}

/// No bit of zero is set.
pub proof fn lemma_zero_has_no_bit(i: u8)
    requires
        i < 8,
    ensures
        !bit_set(0, i),
{
    assert((0u8 >> i) & 1 == 0) by (bit_vector)
        requires
            i < 8,
    ;
}

/// Bit `i` of the reversed byte is bit `7 - i` of the byte.
pub proof fn lemma_reversed_bit(n: u8, i: u8)
    requires
        i < 8,
    ensures
        bit_set(reversed(n), i) == bit_set(n, (7 - i) as u8),
{
    let r = reversed(n);
    let j: u8 = (7 - i) as u8;
    assert(((r >> i) & 1 == 1) == ((n >> j) & 1 == 1)) by (bit_vector)
        requires
            i < 8,
            j == 7 - i,
            r == ((n & 0x01) << 7) | ((n & 0x02) << 5) | ((n & 0x04) << 3) | ((n & 0x08) << 1) | ((n
                & 0x10) >> 1) | ((n & 0x20) >> 3) | ((n & 0x40) >> 5) | ((n & 0x80) >> 7),
    ;
}

} // verus!
