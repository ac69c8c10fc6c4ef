//! Single bits of a register word.

use vstd::prelude::*;

verus! {

/// Whether bit `index` of `word` is set.
pub open spec fn bit(word: u32, index: u32) -> bool {
    (word >> index) & 1 == 1
}

/// `word` with bit `index` replaced by `value`.
pub open spec fn with_bit(word: u32, index: u32, value: bool) -> u32 {
    if value {
        word | (1u32 << index)
    } else {
        word & !(1u32 << index)
    }
}

/// Testing a word against a one-bit mask reads exactly that bit.
pub proof fn lemma_mask_reads_bit(word: u32, index: u32)
    by (bit_vector)
    requires
        index < 32,
    ensures
        (word & (1u32 << index) == (1u32 << index)) == bit(word, index),
{
}

/// Replacing one bit gives that bit its new value and leaves every other bit
/// as it was.
pub proof fn lemma_with_bit(word: u32, index: u32, value: bool, other: u32)
    by (bit_vector)
    requires
        index < 32,
        other < 32,
    ensures
        bit(with_bit(word, index, value), other) == (if other == index {
            value
        } else {
            bit(word, other)
        }),
{
}

} // verus!
