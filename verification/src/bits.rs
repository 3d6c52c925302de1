//! Bit fields of packed registers, and the colour formats of the pipeline.

use vstd::prelude::*;

verus! {

/// Bit `n` of `word`.
pub open spec fn flag(word: u32, n: u32) -> bool {
    (word >> n) & 1 == 1
}

/// The bits of `word` under `mask` once `word` is shifted right by `shift`.
pub open spec fn field(word: u32, shift: u32, mask: u32) -> u32 {
    (word >> shift) & mask
}

/// A word in which only bit `n` may be set, and is set when `b` holds.
pub open spec fn flag_bits(b: bool, n: u32) -> u32 {
    if b {
        1u32 << n
    } else {
        0u32
    }
}

/// A word that holds `value`, cut to `mask`, at bit `shift`.
pub open spec fn field_bits(value: u32, shift: u32, mask: u32) -> u32 {
    (value & mask) << shift
}

pub fn test_bit(word: u32, n: u32) -> (r: bool)
    requires
        n < 32,
    ensures
        r == flag(word, n),
{
    (word >> n) & 1 == 1
}

pub fn get_field(word: u32, shift: u32, mask: u32) -> (r: u32)
    requires
        shift < 32,
    ensures
        r == field(word, shift, mask),
        r <= mask,
{
    proof {
        lemma_field_bound(word, shift, mask);
    }
    (word >> shift) & mask
}

pub fn put_flag(b: bool, n: u32) -> (r: u32)
    requires
        n < 32,
    ensures
        r == flag_bits(b, n),
{
    if b {
        1u32 << n
    } else {
        0u32
    }
}

pub fn put_field(value: u32, shift: u32, mask: u32) -> (r: u32)
    requires
        shift < 32,
    ensures
        r == field_bits(value, shift, mask),
{
    (value & mask) << shift
}

/// A field read under a mask never exceeds the mask.
pub proof fn lemma_field_bound(word: u32, shift: u32, mask: u32)
    by (bit_vector)
    ensures
        (word >> shift) & mask <= mask,
{
}

} // verus!
