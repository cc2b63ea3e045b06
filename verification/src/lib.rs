//! Low level access to SiFive RISC-V processor cores.
//!
//! This crate models the vendor-specific machine-mode instructions and
//! control-status registers (CSRs) of SiFive cores:
//!
//! - bit-exact encodings of the CEASE, PAUSE, cache-control and MNRET
//!   instructions;
//! - typed decode of the custom CSRs (branch prediction mode, feature
//!   disable, resumable-NMI registers);
//! - a bit-set of disableable platform features.
//!
//! Issuing the instructions and touching the hardware registers is the
//! business of a target-specific shim; everything here is the pure
//! encoding and decoding layer, with its contracts.
pub mod feature;
pub mod insn;
pub mod register;
