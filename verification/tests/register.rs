use sifive_core::feature::{Feature, Mask};
use sifive_core::register::mbpm::{clear_bdp, set_bdp, Mbpm, MBPM};
use sifive_core::register::mfeature::{clear_features, MFEATURE};
use sifive_core::register::mncause::{exception_code, is_supported, Nmi, MNCAUSE};
use sifive_core::register::{MNEPC, MNSCRATCH};

#[test]
fn csr_addresses_match_documented_encoding() {
    assert_eq!(MBPM, 0x7C0);
    assert_eq!(MFEATURE, 0x7C1);
    assert_eq!(MNSCRATCH, 0x351);
    assert_eq!(MNEPC, 0x351);
    assert_eq!(MNCAUSE, 0x352);
}

#[test]
fn bdp_reads_bit_zero() {
    assert!(!Mbpm::from_bits(0).bdp());
    assert!(Mbpm::from_bits(1).bdp());
    assert!(!Mbpm::from_bits(2).bdp());
    assert!(Mbpm::from_bits(3).bdp());
    assert!(!Mbpm::from_bits(usize::MAX - 1).bdp());
    assert!(Mbpm::from_bits(usize::MAX).bdp());
}

#[test]
fn bdp_write_read_round_trip() {
    // A mocked register backing store: the CSR value as a plain word.
    let mut csr: usize = 0b1100;
    csr = set_bdp(csr);
    assert!(Mbpm::from_bits(csr).bdp());
    assert_eq!(csr, 0b1101);
    csr = clear_bdp(csr);
    assert!(!Mbpm::from_bits(csr).bdp());
    assert_eq!(csr, 0b1100);
    // The two writes only ever touch the branch-direction bit.
    assert_eq!(set_bdp(0), 1);
    assert_eq!(clear_bdp(1), 0);
    assert_eq!(set_bdp(usize::MAX), usize::MAX);
    assert_eq!(clear_bdp(usize::MAX), usize::MAX - 1);
}

#[test]
fn nmi_cause_decode() {
    assert_eq!(exception_code(2), Some(Nmi::RnmiInput));
    assert_eq!(exception_code(3), Some(Nmi::BusError));
    assert_eq!(exception_code(0), None);
    // Reserved and out-of-range codes decode to None rather than panic.
    assert_eq!(exception_code(1), None);
    assert_eq!(exception_code(4), None);
    assert_eq!(exception_code(usize::MAX), None);
}

#[test]
fn nmi_cause_codes() {
    assert_eq!(Nmi::RnmiInput.code(), 2);
    assert_eq!(Nmi::BusError.code(), 3);
}

#[test]
fn nmi_cause_support_probe() {
    assert!(!is_supported(0));
    assert!(is_supported(1));
    assert!(is_supported(2));
    assert!(is_supported(usize::MAX));
}

#[test]
fn clear_features_is_exact_bit_clear() {
    let mask = Mask::from_feature(Feature::DcacheClockGating)
        .union(Mask::from_feature(Feature::PipelineClockGating))
        .union(Mask::from_feature(Feature::CorruptSignalGrantdata));
    // Bits {0, 2, 9} requested for enable: the write clears exactly those.
    assert_eq!(mask.bits(), (1 << 0) | (1 << 2) | (1 << 9));
    assert_eq!(mask.bits(), 0x205);
    // Reset state: every implemented bit is one.
    let reset: usize = 0x3020F;
    let written = clear_features(reset, mask);
    assert_eq!(written, reset & !0x205);
    assert_eq!(written, 0x3000A);
    // Only bits of the mask change, and none goes from zero to one.
    assert_eq!(written | reset, reset);
    assert_eq!(reset & !written, reset & mask.bits());
    // Bits the mask names that were already zero stay zero.
    assert_eq!(clear_features(0, mask), 0);
    assert_eq!(clear_features(written, mask), written);
}
