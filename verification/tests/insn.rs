use sifive_core::insn::{
    cdiscard_d_l1_all_insn, cdiscard_d_l1_va_insn, cease_insn, cflush_d_l1_all_insn,
    cflush_d_l1_va_insn, encode_itype, mnret_insn, pause_insn, CDISCARD_D_L1_ALL,
    CFLUSH_D_L1_ALL, CEASE, MNRET, PAUSE,
};

#[test]
fn cease_matches_documented_encoding() {
    assert_eq!(cease_insn(), 0x30500073);
    assert_eq!(CEASE, 0x30500073);
}

#[test]
fn pause_matches_documented_encoding() {
    assert_eq!(pause_insn(), 0x0100000F);
    assert_eq!(PAUSE, 0x0100000F);
}

#[test]
fn mnret_matches_documented_encoding() {
    assert_eq!(mnret_insn(), 0x70200073);
    assert_eq!(MNRET, 0x70200073);
}

#[test]
fn full_cache_flush_matches_documented_encoding() {
    assert_eq!(cflush_d_l1_all_insn(), 0xFC000073);
    assert_eq!(CFLUSH_D_L1_ALL, 0xFC000073);
}

#[test]
fn full_cache_discard_matches_documented_encoding() {
    assert_eq!(cdiscard_d_l1_all_insn(), 0xFC200073);
    assert_eq!(CDISCARD_D_L1_ALL, 0xFC200073);
}

#[test]
fn address_flush_holds_register_index_in_bits_15_to_19() {
    // The documented form with the address in the designated argument
    // register a0 (x10).
    assert_eq!(cflush_d_l1_va_insn(10), 0xFC000073 + (10 << 15));
    assert_eq!(cflush_d_l1_va_insn(10), 0xFC050073);
    for rs1 in 0..32u32 {
        let word = cflush_d_l1_va_insn(rs1);
        assert_eq!(word, 0xFC000073 + (rs1 << 15));
        assert_eq!((word >> 15) & 0x1F, rs1);
        // Every other field is untouched by the register choice.
        assert_eq!(word & !(0x1F << 15), 0xFC000073);
    }
}

#[test]
fn address_discard_holds_register_index_in_bits_15_to_19() {
    assert_eq!(cdiscard_d_l1_va_insn(10), 0xFC200073 + (10 << 15));
    assert_eq!(cdiscard_d_l1_va_insn(10), 0xFC250073);
    for rs1 in 0..32u32 {
        let word = cdiscard_d_l1_va_insn(rs1);
        assert_eq!(word, 0xFC200073 + (rs1 << 15));
        assert_eq!((word >> 15) & 0x1F, rs1);
        assert_eq!(word & !(0x1F << 15), 0xFC200073);
    }
}

#[test]
fn itype_assembly_places_each_field() {
    assert_eq!(encode_itype(0x305, 0, 0, 0, 0x73), 0x30500073);
    assert_eq!(encode_itype(0xFC0, 0, 0, 0, 0x73), 0xFC000073);
    assert_eq!(encode_itype(0xFC2, 0, 0, 0, 0x73), 0xFC200073);
    assert_eq!(encode_itype(0x702, 0, 0, 0, 0x73), 0x70200073);
    assert_eq!(encode_itype(0x010, 0, 0, 0, 0x0F), 0x0100000F);
    assert_eq!(
        encode_itype(0xFFF, 31, 7, 31, 0x7F),
        (0xFFF << 20) | (31 << 15) | (7 << 12) | (31 << 7) | 0x7F
    );
}
