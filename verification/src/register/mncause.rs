//! Rnmi cause register.
//!
//! The mncause CSR holds the reason for the NMI, with the cause encoded in
//! its least-significant bits, or zero if the core does not report NMI
//! causes. The defined exception codes are 2 for the external RNMI input
//! pin and 3 for an RNMI raised by the bus error unit; code 1 is reserved.
use vstd::prelude::*;

verus! {

/// CSR address of the rnmi cause register.
pub const MNCAUSE: u16 = 0x352;

/// NMI causes, the closed set of exception codes the register reports.
#[derive(Clone, Copy, Debug, PartialEq, Eq, Structural)]
pub enum Nmi {
    /// External `rnmi` input pin.
    RnmiInput,
    /// RNMI caused by the bus error unit.
    BusError,
}

impl Nmi {
    /// The exception code under which the register reports this cause.
    pub open spec fn spec_code(self) -> usize {
        match self {
            Nmi::RnmiInput => 2,
            Nmi::BusError => 3,
        }
    }

    /// Returns the exception code under which the register reports this
    /// cause.
    pub fn code(self) -> (r: usize)
        ensures
            r == self.spec_code(),
    {
        match self {
            Nmi::RnmiInput => 2,
            Nmi::BusError => 3,
        }
    }
}

/// Decode of a raw mncause value: the two defined exception codes map to
/// their causes and every other value, the zero of a core without NMI cause
/// reporting and the reserved or unknown codes included, decodes to `None`.
pub open spec fn spec_exception_code(raw: usize) -> Option<Nmi> {
    if raw == 2 {
        Some(Nmi::RnmiInput)
    } else if raw == 3 {
        Some(Nmi::BusError)
    } else {
        None
    }
}

/// Whether a raw probe of the register shows NMI cause reporting at all:
/// the register reads zero on a core that does not support it.
pub fn is_supported(raw: usize) -> (r: bool)
    ensures
        r == (raw != 0),
{
    raw != 0
}

/// Decodes the NMI cause from a raw register value, or `None` if the value
/// carries no defined cause.
pub fn exception_code(raw: usize) -> (r: Option<Nmi>)
    ensures
        r == spec_exception_code(raw),
        r is Some <==> raw == 2 || raw == 3,
{
    match raw {
        2 => Some(Nmi::RnmiInput),
        3 => Some(Nmi::BusError),
        _ => None,
    }
}

} // verus!
