//! Control register

use vstd::prelude::*;
use crate::bits::{bit, with_bit, lemma_mask_reads_bit, lemma_with_bit};

verus! {

/// Control register
#[derive(Clone, Copy, Debug)]
pub struct Control {
    bits: u32,
}

impl View for Control {
    type V = u32;

    /// The register's contents as one 32-bit word.
    closed spec fn view(&self) -> u32 {
        self.bits
    }
}

impl Control {
    /// The privilege level that a register word encodes in bit 0.
    pub open spec fn npriv_of(word: u32) -> Npriv {
        if bit(word, 0) {
            Npriv::Unprivileged
        } else {
            Npriv::Privileged
        }
    }

    /// The stack pointer that a register word selects in bit 1.
    pub open spec fn spsel_of(word: u32) -> Spsel {
        if bit(word, 1) {
            Spsel::Psp
        } else {
            Spsel::Msp
        }
    }

    /// The floating-point context state that a register word encodes in bit 2.
    pub open spec fn fpca_of(word: u32) -> Fpca {
        if bit(word, 2) {
            Fpca::Active
        } else {
            Fpca::NotActive
        }
    }

    /// Creates a `Control` value from raw bits.
    #[inline]
    pub fn from_bits(bits: u32) -> (control: Self)
        ensures
            control@ == bits,
    {
        Self { bits }
    }

    /// Returns the contents of the register as raw bits
    #[inline]
    pub fn bits(self) -> (bits: u32)
        ensures
            bits == self@,
    {
        self.bits
    }

    /// Thread mode privilege level
    #[inline]
    pub fn npriv(self) -> (level: Npriv)
        ensures
            level == Self::npriv_of(self@),
    {
        proof {
            lemma_mask_reads_bit(self.bits, 0);
        }
        if self.bits & (1 << 0) == (1 << 0) {
            Npriv::Unprivileged
        } else {
            Npriv::Privileged
        }
    }

    /// Sets the thread mode privilege level value (nPRIV).
    #[inline]
    pub fn set_npriv(&mut self, npriv: Npriv)
        ensures
            final(self)@ == with_bit(old(self)@, 0, npriv == Npriv::Unprivileged),
            Self::npriv_of(final(self)@) == npriv,
            Self::spsel_of(final(self)@) == Self::spsel_of(old(self)@),
            Self::fpca_of(final(self)@) == Self::fpca_of(old(self)@),
    {
        proof {
            lemma_with_bit(self.bits, 0, npriv == Npriv::Unprivileged, 0);
            lemma_with_bit(self.bits, 0, npriv == Npriv::Unprivileged, 1);
            lemma_with_bit(self.bits, 0, npriv == Npriv::Unprivileged, 2);
        }
        let mask: u32 = 1 << 0;
        match npriv {
            Npriv::Unprivileged => self.bits |= mask,
            Npriv::Privileged => self.bits &= !mask,
        }
    }

    /// Currently active stack pointer
    #[inline]
    pub fn spsel(self) -> (pointer: Spsel)
        ensures
            pointer == Self::spsel_of(self@),
    {
        proof {
            lemma_mask_reads_bit(self.bits, 1);
        }
        if self.bits & (1 << 1) == (1 << 1) {
            Spsel::Psp
        } else {
            Spsel::Msp
        }
    }

    /// Sets the SPSEL value.
    #[inline]
    pub fn set_spsel(&mut self, spsel: Spsel)
        ensures
            final(self)@ == with_bit(old(self)@, 1, spsel == Spsel::Psp),
            Self::npriv_of(final(self)@) == Self::npriv_of(old(self)@),
            Self::spsel_of(final(self)@) == spsel,
            Self::fpca_of(final(self)@) == Self::fpca_of(old(self)@),
    {
        proof {
            lemma_with_bit(self.bits, 1, spsel == Spsel::Psp, 0);
            lemma_with_bit(self.bits, 1, spsel == Spsel::Psp, 1);
            lemma_with_bit(self.bits, 1, spsel == Spsel::Psp, 2);
        }
        let mask: u32 = 1 << 1;
        match spsel {
            Spsel::Psp => self.bits |= mask,
            Spsel::Msp => self.bits &= !mask,
        }
    }

    /// Whether context floating-point is currently active
    #[inline]
    pub fn fpca(self) -> (context: Fpca)
        ensures
            context == Self::fpca_of(self@),
    {
        proof {
            lemma_mask_reads_bit(self.bits, 2);
        }
        if self.bits & (1 << 2) == (1 << 2) {
            Fpca::Active
        } else {
            Fpca::NotActive
        }
    }

    /// Sets the FPCA value.
    #[inline]
    pub fn set_fpca(&mut self, fpca: Fpca)
        ensures
            final(self)@ == with_bit(old(self)@, 2, fpca == Fpca::Active),
            Self::npriv_of(final(self)@) == Self::npriv_of(old(self)@),
            Self::spsel_of(final(self)@) == Self::spsel_of(old(self)@),
            Self::fpca_of(final(self)@) == fpca,
    {
        proof {
            lemma_with_bit(self.bits, 2, fpca == Fpca::Active, 0);
            lemma_with_bit(self.bits, 2, fpca == Fpca::Active, 1);
            lemma_with_bit(self.bits, 2, fpca == Fpca::Active, 2);
        }
        let mask: u32 = 1 << 2;
        match fpca {
            Fpca::Active => self.bits |= mask,
            Fpca::NotActive => self.bits &= !mask,
        }
    }
}

/// Thread mode privilege level
#[derive(Clone, Copy, Debug, PartialEq, Eq, Structural)]
pub enum Npriv {
    /// Privileged
    Privileged,
    /// Unprivileged
    Unprivileged,
}

impl Npriv {
    /// Is in privileged thread mode?
    #[inline]
    pub fn is_privileged(self) -> (yes: bool)
        ensures
            yes == (self == Npriv::Privileged),
    {
        self == Npriv::Privileged
    }

    /// Is in unprivileged thread mode?
    #[inline]
    pub fn is_unprivileged(self) -> (yes: bool)
        ensures
            yes == (self == Npriv::Unprivileged),
    {
        self == Npriv::Unprivileged
    }
}

/// Currently active stack pointer
#[derive(Clone, Copy, Debug, PartialEq, Eq, Structural)]
pub enum Spsel {
    /// MSP is the current stack pointer
    Msp,
    /// PSP is the current stack pointer
    Psp,
}

impl Spsel {
    /// Is MSP the current stack pointer?
    #[inline]
    pub fn is_msp(self) -> (yes: bool)
        ensures
            yes == (self == Spsel::Msp),
    {
        self == Spsel::Msp
    }

    /// Is PSP the current stack pointer?
    #[inline]
    pub fn is_psp(self) -> (yes: bool)
        ensures
            yes == (self == Spsel::Psp),
    {
        self == Spsel::Psp
    }
}

/// Whether context floating-point is currently active
#[derive(Clone, Copy, Debug, PartialEq, Eq, Structural)]
pub enum Fpca {
    /// Floating-point context active.
    Active,
    /// No floating-point context active
    NotActive,
}

impl Fpca {
    /// Is a floating-point context active?
    #[inline]
    pub fn is_active(self) -> (yes: bool)
        ensures
            yes == (self == Fpca::Active),
    {
        self == Fpca::Active
    }

    /// Is a floating-point context not active?
    #[inline]
    pub fn is_not_active(self) -> (yes: bool)
        ensures
            yes == (self == Fpca::NotActive),
    {
        self == Fpca::NotActive
    }
}

} // verus!
