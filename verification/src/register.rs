//! Platform specific SiFive CSRs.
//!
//! Each submodule models one control-status register: its fixed CSR
//! address, the typed decode of its bits, and the value-level effect of the
//! atomic read/write/set/clear accesses the hardware offers. The registers
//! themselves are hart-local hardware state; a target-specific shim issues
//! the actual accesses and hands the raw values to and from this layer.
use vstd::prelude::*;

pub mod mbpm;
pub mod mfeature;
pub mod mncause;

verus! {

/// CSR address of the rnmi scratch register, a read-write register that
/// lets the NMI trap handler save and restore the interrupted context.
pub const MNSCRATCH: u16 = 0x351;

/// CSR address of the rnmi exception program counter register, which on
/// entry to the NMI trap handler holds the program counter of the
/// interrupted instruction; its lowest bit is hardwired to zero.
pub const MNEPC: u16 = 0x351;

/// The value a CSR holds after an atomic bit-set access (csrrs, csrrsi)
/// with the given mask.
pub open spec fn csr_set(old: usize, mask: usize) -> usize {
    old | mask
}

/// The value a CSR holds after an atomic bit-clear access (csrrc, csrrci)
/// with the given mask.
pub open spec fn csr_clear(old: usize, mask: usize) -> usize {
    old & !mask
}

} // verus!
