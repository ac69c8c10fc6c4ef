//! Application Program Status Register

use vstd::prelude::*;
use crate::bits::{bit, lemma_mask_reads_bit};

verus! {

/// Application Program Status Register
#[derive(Clone, Copy, Debug)]
pub struct Apsr {
    bits: u32,
}

impl View for Apsr {
    type V = u32;

    /// The register's contents as one 32-bit word.
    closed spec fn view(&self) -> u32 {
        self.bits
    }
}

impl Apsr {
    /// Creates an `Apsr` value from the raw contents of the register.
    #[inline]
    pub fn from_bits(bits: u32) -> (apsr: Self)
        ensures
            apsr@ == bits,
    {
        Apsr { bits }
    }

    /// Returns the contents of the register as raw bits
    #[inline]
    pub fn bits(self) -> (bits: u32)
        ensures
            bits == self@,
    {
        self.bits
    }

    /// DSP overflow and saturation flag
    #[inline]
    pub fn q(self) -> (flag: bool)
        ensures
            flag == bit(self@, 27),
    {
        proof {
            lemma_mask_reads_bit(self.bits, 27);
        }
        self.bits & (1 << 27) == (1 << 27)
    }

    /// Overflow flag
    #[inline]
    pub fn v(self) -> (flag: bool)
        ensures
            flag == bit(self@, 28),
    {
        proof {
            lemma_mask_reads_bit(self.bits, 28);
        }
        self.bits & (1 << 28) == (1 << 28)
    }

    /// Carry or borrow flag
    #[inline]
    pub fn c(self) -> (flag: bool)
        ensures
            flag == bit(self@, 29),
    {
        proof {
            lemma_mask_reads_bit(self.bits, 29);
        }
        self.bits & (1 << 29) == (1 << 29)
    }

    /// Zero flag
    #[inline]
    pub fn z(self) -> (flag: bool)
        ensures
            flag == bit(self@, 30),
    {
        proof {
            lemma_mask_reads_bit(self.bits, 30);
        }
        self.bits & (1 << 30) == (1 << 30)
    }

    /// Negative flag
    #[inline]
    pub fn n(self) -> (flag: bool)
        ensures
            flag == bit(self@, 31),
    {
        proof {
            lemma_mask_reads_bit(self.bits, 31);
        }
        self.bits & (1 << 31) == (1 << 31)
    }
}

} // verus!
