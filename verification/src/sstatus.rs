//! A typed in-memory model of the RISC-V `sstatus` control and status
//! register.
//!
//! The register is a hardware-defined bit field. This module keeps the raw
//! word behind typed accessors, so the fields the trap subsystem relies on
//! are read and written only through their contracts.

use vstd::prelude::*;

verus! {

/// Bit of `sstatus` that holds SPP: the privilege level the hart was in
/// before it trapped into supervisor mode, and the level a trap-return
/// drops back to.
pub const SPP_MASK: usize = 0x100;

/// A privilege level as recorded in the SPP field of `sstatus`.
#[derive(Clone, Copy, Debug, PartialEq, Eq, Structural)]
pub enum Spp {
    /// The hart trapped from, or returns to, user mode.
    User,
    /// The hart trapped from, or returns to, supervisor mode.
    Supervisor,
}

/// The privilege level that a raw status word records in its SPP field.
pub open spec fn spp_of(bits: usize) -> Spp {
    if bits & SPP_MASK == 0 {
        Spp::User
    } else {
        Spp::Supervisor
    }
}

/// A raw status word with its SPP field overwritten and every other bit
/// kept as it was.
pub open spec fn with_spp(bits: usize, spp: Spp) -> usize {
    match spp {
        Spp::User => bits & !SPP_MASK,
        Spp::Supervisor => bits | SPP_MASK,
    }
}

/// An in-memory copy of the `sstatus` register.
#[derive(Clone, Copy, Debug, PartialEq, Eq, Structural)]
pub struct Sstatus {
    bits: usize,
}

impl View for Sstatus {
    type V = usize;

    closed spec fn view(&self) -> usize {
        self.bits
    }
}

impl Sstatus {
    /// A status word with every bit clear: previous privilege is user mode
    /// and all interrupt-enable bits are off.
    pub fn new() -> (r: Sstatus)
        ensures
            r@ == 0usize,
    {
        Sstatus { bits: 0 }
    }

    /// Wraps a raw status word, such as one captured by the trap-entry
    /// mechanism from the live register.
    pub fn from_bits(bits: usize) -> (r: Sstatus)
        ensures
            r@ == bits,
    {
        Sstatus { bits }
    }

    /// The raw machine word of this status value.
    pub fn bits(&self) -> (r: usize)
        ensures
            r == self@,
    {
        self.bits
    }

    /// The previous privilege level recorded in the SPP field.
    pub fn spp(&self) -> (r: Spp)
        ensures
            r == spp_of(self@),
    {
        if self.bits & SPP_MASK == 0 {
            Spp::User
        } else {
            Spp::Supervisor
        }
    }

    /// Overwrites the SPP field; every other bit is left as it was.
    pub fn set_spp(&mut self, spp: Spp)
        ensures
            final(self)@ == with_spp(old(self)@, spp),
            spp_of(final(self)@) == spp,
    {
        match spp {
            Spp::User => {
                self.bits = self.bits & !SPP_MASK;
            },
            Spp::Supervisor => {
                self.bits = self.bits | SPP_MASK;
            },
        }
        proof {
            let b: usize = old(self)@;
            assert((b & !0x100usize) & 0x100usize == 0usize) by (bit_vector);
            assert((b | 0x100usize) & 0x100usize != 0usize) by (bit_vector);
        }
    }
}

/// Relies on `riscv::register::sstatus::try_read`: it returns the live
/// `sstatus` word of the executing hart, or an error on targets that have no
/// such register. What is read depends on ambient hardware state, so nothing
/// is assumed about the returned word.
#[verifier::external_body]
pub(crate) fn read_ambient() -> Option<Sstatus> {
    match riscv::register::sstatus::try_read() {
        Ok(s) => Some(Sstatus { bits: s.bits() }),
        Err(_) => None,
    }
}

} // verus!
