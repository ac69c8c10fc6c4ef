//! Priority mask register

use vstd::prelude::*;
use crate::bits::{bit, lemma_mask_reads_bit};
use crate::interrupt::Mask;

verus! {

/// All exceptions with configurable priority are ...
#[derive(Clone, Copy, Debug, PartialEq, Eq, Structural)]
pub enum Primask {
    /// Active
    Active,
    /// Inactive
    Inactive,
}

impl Primask {
    /// Decodes the raw contents of the register: the exceptions are inactive
    /// exactly when bit 0 is set.
    #[inline]
    pub fn from_bits(bits: u32) -> (primask: Self)
        ensures
            primask == (if bit(bits, 0) {
                Primask::Inactive
            } else {
                Primask::Active
            }),
    {
        proof {
            lemma_mask_reads_bit(bits, 0);
        }
        if bits & (1 << 0) == (1 << 0) {
            Primask::Inactive
        } else {
            Primask::Active
        }
    }

    /// All exceptions with configurable priority are active
    pub fn is_active(&self) -> (yes: bool)
        ensures
            yes == (*self == Primask::Active),
    {
        *self == Primask::Active
    }

    /// All exceptions with configurable priority are inactive
    pub fn is_inactive(&self) -> (yes: bool)
        ensures
            yes == (*self == Primask::Inactive),
    {
        *self == Primask::Inactive
    }
}

/// Reads the CPU register
#[inline]
pub fn read<M>(mask: &M) -> (primask: Primask) where M: Mask
    ensures
        primask == mask.state(),
{
    mask.read_mask()
}

} // verus!
