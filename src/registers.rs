//! Register references: a 5-bit index naming one of the 32 integer registers.
use vstd::prelude::*;

verus! {

/// One of the 32 integer registers `x0` .. `x31`, by index.
#[derive(Debug, Clone, Copy, PartialEq, Eq, Structural)]
pub struct Register {
    pub index: u8,
}

impl Register {
    /// Well-formed: the index fits in five bits.
    pub open spec fn wf(self) -> bool {
        self.index < 32
    }

    /// The register's index as a mathematical integer.
    pub open spec fn view_index(self) -> nat {
        self.index as nat
    }

    /// The register named by the low five bits of `bits`.
    pub open spec fn spec_from_bits(bits: u32) -> Register {
        Register { index: (bits & 0x1f) as u8 }
    }

    /// The register named by the low five bits of `bits`; every value is accepted.
    pub fn from_bits(bits: u32) -> (r: Register)
        ensures
            r == Register::spec_from_bits(bits),
            r.wf(),
            r.view_index() == (bits & 0x1f) as nat,
    {
        let masked: u32 = bits & 0x1f;
        assert(bits & 0x1f <= 0x1f) by (bit_vector);
        Register { index: masked as u8 }
    }

    /// The register's index, `0 ..= 31`.
    pub fn index(&self) -> (r: u8)
        requires
            self.wf(),
        ensures
            r as nat == self.view_index(),
            r < 32,
    {
        self.index
    }
}

} // verus!
