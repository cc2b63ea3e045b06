//! Machine instruction encodings.
//!
//! Each privileged SiFive operation is one fixed or register-parameterized
//! 32-bit instruction word. The functions here synthesize those words from
//! the I-type instruction format and prove that the result matches the
//! documented numeric encoding bit for bit.
use vstd::prelude::*;

verus! {

/// CEASE, the core halt instruction word.
pub const CEASE: u32 = 0x30500073;

/// PAUSE, the spin-wait hint instruction word.
pub const PAUSE: u32 = 0x0100000F;

/// CFLUSH.D.L1 x0, the full L1 data cache flush instruction word.
pub const CFLUSH_D_L1_ALL: u32 = 0xFC000073;

/// CDISCARD.D.L1 x0, the full L1 data cache invalidate instruction word.
pub const CDISCARD_D_L1_ALL: u32 = 0xFC200073;

/// MNRET, the non-maskable interrupt return instruction word.
pub const MNRET: u32 = 0x70200073;

/// The RISC-V I-type instruction format: a 12-bit function code in bits
/// 20..32, a source register index in bits 15..20, a 3-bit function code in
/// bits 12..15, a destination register index in bits 7..12 and a 7-bit
/// opcode in bits 0..7.
pub open spec fn itype_word(funct12: u32, rs1: u32, funct3: u32, rd: u32, opcode: u32) -> u32 {
    (funct12 << 20) | (rs1 << 15) | (funct3 << 12) | (rd << 7) | opcode
}

/// Assembles an I-type instruction word from its fields.
pub fn encode_itype(funct12: u32, rs1: u32, funct3: u32, rd: u32, opcode: u32) -> (word: u32)
    requires
        funct12 < 0x1000,
        rs1 < 32,
        funct3 < 8,
        rd < 32,
        opcode < 0x80,
    ensures
        word == itype_word(funct12, rs1, funct3, rd, opcode),
{
    (funct12 << 20) | (rs1 << 15) | (funct3 << 12) | (rd << 7) | opcode
}

/// CEASE, core halt instruction.
///
/// Returns the word that, once retired, halts the current hart: no further
/// instruction retires until an external reset, and a power-down sequence
/// begins outside the core. It is a machine-mode-only instruction, and a
/// shim that issues it never returns.
pub fn cease_insn() -> (word: u32)
    ensures
        word == CEASE,
{
    let word = encode_itype(0x305, 0, 0, 0, 0x73);
    proof {
        assert(itype_word(0x305, 0, 0, 0, 0x73) == 0x30500073) by (bit_vector);
    }
    word
}

/// PAUSE, spin-wait hint instruction.
///
/// Returns the word of the Zihintpause hint: on supporting hardware the
/// issuing context stalls for up to 32 cycles or until a cache eviction,
/// whichever comes first; elsewhere it retires as a no-op.
pub fn pause_insn() -> (word: u32)
    ensures
        word == PAUSE,
{
    let word = encode_itype(0x010, 0, 0, 0, 0x0F);
    proof {
        assert(itype_word(0x010, 0, 0, 0, 0x0F) == 0x0100000F) by (bit_vector);
    }
    word
}

/// CFLUSH.D.L1 x0, full-cache flush instruction.
///
/// Returns the word that writes back and invalidates every line of the L1
/// data cache. Machine mode only; a core without the instruction raises an
/// illegal-instruction exception when the word is issued.
pub fn cflush_d_l1_all_insn() -> (word: u32)
    ensures
        word == CFLUSH_D_L1_ALL,
{
    let word = encode_itype(0xFC0, 0, 0, 0, 0x73);
    proof {
        assert(itype_word(0xFC0, 0, 0, 0, 0x73) == 0xFC000073) by (bit_vector);
    }
    word
}

/// CFLUSH.D.L1 rs1, single-line flush instruction.
///
/// Returns the word that writes back and invalidates the L1 data cache line
/// containing the virtual address held in integer register `rs1`: the base
/// word of the full-cache flush with bits 15..20 holding the register
/// index. Machine mode only; issuing it faults if the effective privilege
/// mode may not write the address, and is a silent no-op on an uncacheable
/// but writable region.
pub fn cflush_d_l1_va_insn(rs1: u32) -> (word: u32)
    requires
        rs1 < 32,
    ensures
        word == CFLUSH_D_L1_ALL + (rs1 << 15),
        word == itype_word(0xFC0, rs1, 0, 0, 0x73),
{
    let word = encode_itype(0xFC0, rs1, 0, 0, 0x73);
    proof {
        assert(rs1 < 32 ==> itype_word(0xFC0, rs1, 0, 0, 0x73) == 0xFC000073 + (rs1 << 15))
            by (bit_vector);
    }
    word
}

/// CDISCARD.D.L1 x0, full-cache invalidate instruction.
///
/// Returns the word that invalidates, without writing back, every line of
/// the L1 data cache; dirty data is lost. Machine mode only; a core without
/// the instruction raises an illegal-instruction exception.
pub fn cdiscard_d_l1_all_insn() -> (word: u32)
    ensures
        word == CDISCARD_D_L1_ALL,
{
    let word = encode_itype(0xFC2, 0, 0, 0, 0x73);
    proof {
        assert(itype_word(0xFC2, 0, 0, 0, 0x73) == 0xFC200073) by (bit_vector);
    }
    word
}

/// CDISCARD.D.L1 rs1, single-line invalidate instruction.
///
/// Returns the word that invalidates, without writing back, the L1 data
/// cache line containing the virtual address held in integer register
/// `rs1`; dirty data in the line is lost. Fault and no-op behavior are as
/// for the single-line flush.
pub fn cdiscard_d_l1_va_insn(rs1: u32) -> (word: u32)
    requires
        rs1 < 32,
    ensures
        word == CDISCARD_D_L1_ALL + (rs1 << 15),
        word == itype_word(0xFC2, rs1, 0, 0, 0x73),
{
    let word = encode_itype(0xFC2, rs1, 0, 0, 0x73);
    proof {
        assert(rs1 < 32 ==> itype_word(0xFC2, rs1, 0, 0, 0x73) == 0xFC200073 + (rs1 << 15))
            by (bit_vector);
    }
    word
}

/// MNRET, non-maskable interrupt return instruction.
///
/// Returns the word that transfers control to the program counter and
/// privilege mode saved on NMI entry and sets the internal NMI re-entrancy
/// state. Machine mode only, meaningful only inside an active NMI trap
/// context; a shim that issues it never returns.
pub fn mnret_insn() -> (word: u32)
    ensures
        word == MNRET,
{
    let word = encode_itype(0x702, 0, 0, 0, 0x73);
    proof {
        assert(itype_word(0x702, 0, 0, 0, 0x73) == 0x70200073) by (bit_vector);
    }
    word
}

} // verus!
