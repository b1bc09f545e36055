//! 32-bit word operations shared by the ciphers: wrapping arithmetic,
//! left rotation, and the cancellation lemmas that the round-trip proofs
//! rest on.

use vstd::prelude::*;

verus! {

/// Wrapping 32-bit addition, as a spec-level model.
pub open spec fn w_add(x: u32, y: u32) -> u32 {
    vstd::wrapping::u32_specs::wrapping_add(x, y)
}

/// Wrapping 32-bit subtraction, as a spec-level model.
pub open spec fn w_sub(x: u32, y: u32) -> u32 {
    vstd::wrapping::u32_specs::wrapping_sub(x, y)
}

/// Wrapping 32-bit multiplication, as a spec-level model.
pub open spec fn w_mul(x: u32, y: u32) -> u32 {
    vstd::wrapping::u32_specs::wrapping_mul(x, y)
}

/// Rotation of a 32-bit word left by `n` places, `n < 32`.
pub open spec fn rotl(x: u32, n: u32) -> u32
    recommends
        n < 32,
{
    if n == 0 {
        x
    } else {
        (x << n) | (x >> ((32 - n) as u32))
    }
}

/// Executable left rotation, proved to compute `rotl`.
pub fn rotl32(x: u32, n: u32) -> (r: u32)
    requires
        n < 32,
    ensures
        r == rotl(x, n),
{
    if n == 0 {
        x
    } else {
        (x << n) | (x >> (32 - n))
    }
}

/// Wrapping subtraction undoes wrapping addition of the same word.
pub proof fn lemma_add_sub(x: u32, y: u32)
    ensures
        w_sub(w_add(x, y), y) == x,
{
}

/// Wrapping addition undoes wrapping subtraction of the same word.
pub proof fn lemma_sub_add(x: u32, y: u32)
    ensures
        w_add(w_sub(x, y), y) == x,
{
}

/// XOR with the same word twice gives the word back.
pub proof fn lemma_xor_cancel(x: u32, y: u32)
    ensures
        (x ^ y) ^ y == x,
{
    assert((x ^ y) ^ y == x) by (bit_vector);
}

/// XOR with the same byte twice gives the byte back.
pub proof fn lemma_xor_cancel_byte(x: u8, y: u8)
    ensures
        (x ^ y) ^ y == x,
{
    assert((x ^ y) ^ y == x) by (bit_vector);
}

/// Rotating left by `m` and then by `32 - m` places restores the word.
pub proof fn lemma_rotl_cancel(x: u32, m: u32, n: u32)
    requires
        m < 32,
        n < 32,
        m + n == 32,
    ensures
        rotl(rotl(x, m), n) == x,
{
    assert(rotl(rotl(x, m), n) == x) by (bit_vector)
        requires
            m < 32 && n < 32 && m + n == 32,
    ;
}

} // verus!
