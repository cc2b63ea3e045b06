//! Feature disable register.
//!
//! The SiFive custom M-mode feature disable CSR enables or disables certain
//! microarchitectural features. A feature is fully enabled when its bit is
//! zero; a core that cannot disable a feature hardwires the bit to zero and
//! ignores writes to it. On reset every implemented bit is one, so all
//! features start disabled and the bootloader clears the bits it wants on.
//! The bits are only meant to go from one to zero: toggling a zero bit back
//! to one is unsupported, and the write path here never does it.
use vstd::prelude::*;
use crate::feature::Mask;
use crate::register::csr_clear;

verus! {

/// CSR address of the feature disable register.
pub const MFEATURE: u16 = 0x7C1;

/// The feature disable value after clearing the bits of `flags`: exactly
/// the atomic bit-clear (csrrc) the hardware applies on the write, leaving
/// every bit outside `flags` as it was.
pub fn clear_features(old: usize, flags: Mask) -> (r: usize)
    ensures
        r == csr_clear(old, flags.spec_bits()),
{
    old & !flags.bits()
}

/// Clearing feature bits is monotone toward enabled: the bit-clear of
/// `mask` sets no bit that was zero in the old value, and the bits it
/// changes are exactly the bits of `mask` that were one.
pub proof fn lemma_clear_features_frame(old: usize, mask: usize)
    ensures
        csr_clear(old, mask) | old == old,
        old & !csr_clear(old, mask) == old & mask,
{
    assert((old & !mask) | old == old) by (bit_vector);
    assert(old & !(old & !mask) == old & mask) by (bit_vector);
}

} // verus!
