//! Branch prediction mode register.
//!
//! This SiFive custom extension adds an M-mode CSR that controls the
//! current branch prediction mode. While branch predictors are essential
//! for pipelined performance, they cause timing variability; the register
//! trades average performance for predictable execution time.
use vstd::prelude::*;
use crate::register::csr_clear;
use crate::register::csr_set;

verus! {

/// CSR address of the branch prediction mode register.
pub const MBPM: u16 = 0x7C0;

/// Branch-direction prediction decode of a raw register value: `false` is
/// dynamic direction prediction, `true` static-taken.
pub open spec fn spec_bdp(bits: usize) -> bool {
    bits & 1 == 1
}

/// A read-only snapshot of the branch prediction mode register's bits at
/// the moment of the read. The snapshot is stale as soon as the hardware
/// state changes; nothing here caches it.
#[derive(Clone, Copy, Debug)]
pub struct Mbpm {
    bits: usize,
}

impl Mbpm {
    /// The raw bits of the snapshot.
    pub closed spec fn spec_bits(self) -> usize {
        self.bits
    }

    /// Wraps a raw value read from the register.
    pub fn from_bits(bits: usize) -> (r: Mbpm)
        ensures
            r.spec_bits() == bits,
    {
        Mbpm { bits }
    }

    /// Branch-Direction Prediction: the value returned by the branch
    /// history table component of the branch prediction system. `false`
    /// indicates dynamic direction prediction, `true` static-taken.
    pub fn bdp(&self) -> (r: bool)
        ensures
            r == spec_bdp(self.spec_bits()),
    {
        let r = usize_get_bit(self.bits, 0);
        proof {
            let b = self.bits;
            assert((b & (1usize << 0) != 0) == (b & 1 == 1)) by (bit_vector);
        }
        r
    }
}

/// Relies on bit_field's `BitField::get_bit` for `usize`: it returns
/// whether the bit at the given index is one, and panics only when the
/// index is not below the word width.
#[verifier::external_body]
fn usize_get_bit(bits: usize, bit: usize) -> (r: bool)
    requires
        bit < 32,
    ensures
        r == (bits & (1usize << bit) != 0),
{
    bit_field::BitField::get_bit(&bits, bit)
}

/// The register value after switching to static-taken direction
/// prediction: the atomic bit-set the hardware applies on the write. Any
/// write to the bit clears the branch target buffer and leaves the return
/// address stack untouched.
pub fn set_bdp(bits: usize) -> (r: usize)
    ensures
        r == csr_set(bits, 1),
        spec_bdp(r),
{
    let r = bits | 1;
    proof {
        assert((bits | 1) & 1 == 1) by (bit_vector);
    }
    r
}

/// The register value after switching to dynamic direction prediction: the
/// atomic bit-clear the hardware applies on the write. Any write to the
/// bit clears the branch target buffer and leaves the return address stack
/// untouched.
pub fn clear_bdp(bits: usize) -> (r: usize)
    ensures
        r == csr_clear(bits, 1),
        !spec_bdp(r),
{
    let r = bits & !1usize;
    proof {
        assert((bits & !1usize) & 1 != 1) by (bit_vector);
    }
    r
}

/// Read/write round trip of the branch prediction mode: whatever the
/// register held before, a snapshot taken after the static-taken write
/// decodes static-taken, and one taken after the dynamic write decodes
/// dynamic.
pub proof fn lemma_bdp_round_trip(bits: usize)
    ensures
        spec_bdp(csr_set(bits, 1)),
        !spec_bdp(csr_clear(bits, 1)),
{
    assert((bits | 1) & 1 == 1) by (bit_vector);
    assert((bits & !1usize) & 1 != 1) by (bit_vector);
}

} // verus!
