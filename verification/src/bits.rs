//! Bit fields of 32-bit registers.
//!
//! A field is given by its mask, which has the field's bits set, and its
//! shift, the position of the lowest of them.

use vstd::prelude::*;

verus! {

/// The number held in a field of `word`.
pub open spec fn field(word: u32, mask: u32, shift: u32) -> u32 {
    (word & mask) >> shift
}

/// The bits that hold `value` in a field; what does not fit is dropped.
pub open spec fn placed(value: u32, mask: u32, shift: u32) -> u32 {
    (value << shift) & mask
}

/// `word` with the bits under `mask` replaced by those of `value`.
pub open spec fn merged(word: u32, mask: u32, value: u32) -> u32 {
    (word & !mask) | value
}

/// Whether any bit of `mask` is set in `word`.
pub open spec fn any_set(word: u32, mask: u32) -> bool {
    word & mask != 0
}

/// Reads a field out of `word`.
pub fn extract(word: u32, mask: u32, shift: u32) -> (value: u32)
    requires
        shift < 32,
    ensures
        value == field(word, mask, shift),
{
    (word & mask) >> shift
}

/// Positions `value` in a field.
pub fn place(value: u32, mask: u32, shift: u32) -> (bits: u32)
    requires
        shift < 32,
    ensures
        bits == placed(value, mask, shift),
{
    (value << shift) & mask
}

/// Replaces the bits under `mask` in `word` by those of `value`.
pub fn merge(word: u32, mask: u32, value: u32) -> (out: u32)
    ensures
        out == merged(word, mask, value),
{
    (word & !mask) | value
}

/// Tests whether any bit of `mask` is set in `word`.
pub fn is_set(word: u32, mask: u32) -> (set: bool)
    ensures
        set == any_set(word, mask),
{
    word & mask != 0
}

} // verus!
