//! SiFive platform features.
//!
//! The feature disable CSR gates a closed set of microarchitectural
//! features, one bit each. [`Mask`] is a bit-set over that enumeration with
//! the usual set algebra; [`enable`] computes the register write that turns
//! the chosen features on.
use vstd::prelude::*;
use crate::register::csr_clear;
use crate::register::mfeature;

verus! {

/// The bit pattern with every hardware-defined feature bit set.
pub const ALL_FEATURE_BITS: usize = (1 << 0) | (1 << 1) | (1 << 2) | (1 << 3) | (1 << 9) | (1
    << 16) | (1 << 17);

/// One disableable microarchitectural feature of the platform.
///
/// Each feature owns one fixed bit of the feature disable CSR; the
/// positions are set by the hardware and must never be renumbered.
#[derive(Clone, Copy, Debug, PartialEq, Eq, Structural)]
pub enum Feature {
    /// Data cache clock gating.
    DcacheClockGating,
    /// Instruction cache clock gating.
    IcacheClockGating,
    /// Pipeline clock gating.
    PipelineClockGating,
    /// Speculative instruction cache refill.
    SpeculativeIcacheRefill,
    /// The corrupt signal on GrantData messages (the bit suppresses it).
    CorruptSignalGrantdata,
    /// Short forward branch optimization.
    ShortForwardBranchOptimize,
    /// Instruction cache next-line prefetcher.
    IcacheNextLinePrefetch,
}

impl Feature {
    /// The bit position of this feature in the feature disable CSR.
    pub open spec fn spec_bit(self) -> usize {
        match self {
            Feature::DcacheClockGating => 0,
            Feature::IcacheClockGating => 1,
            Feature::PipelineClockGating => 2,
            Feature::SpeculativeIcacheRefill => 3,
            Feature::CorruptSignalGrantdata => 9,
            Feature::ShortForwardBranchOptimize => 16,
            Feature::IcacheNextLinePrefetch => 17,
        }
    }

    /// Returns the bit position of this feature in the feature disable CSR.
    pub fn bit(self) -> (r: usize)
        ensures
            r == self.spec_bit(),
    {
        match self {
            Feature::DcacheClockGating => 0,
            Feature::IcacheClockGating => 1,
            Feature::PipelineClockGating => 2,
            Feature::SpeculativeIcacheRefill => 3,
            Feature::CorruptSignalGrantdata => 9,
            Feature::ShortForwardBranchOptimize => 16,
            Feature::IcacheNextLinePrefetch => 17,
        }
    }
}

/// A set of platform features, held as the bit pattern of the feature
/// disable CSR bits that name them.
///
/// Well-formed masks keep every bit outside the hardware-defined positions
/// at zero; the constructors establish that and the set operations preserve
/// it.
#[derive(Clone, Copy, Debug, PartialEq, Eq, Structural)]
pub struct Mask {
    bits: usize,
}

impl Mask {
    /// The raw bit pattern of the mask.
    pub closed spec fn spec_bits(self) -> usize {
        self.bits
    }

    /// Whether a feature is in the mask.
    pub open spec fn spec_contains(self, f: Feature) -> bool {
        self.spec_bits() & (1usize << f.spec_bit()) != 0
    }

    /// Well-formed: only hardware-defined feature bit positions are set.
    pub open spec fn wf(self) -> bool {
        self.spec_bits() & !ALL_FEATURE_BITS == 0
    }

    /// The empty mask.
    pub fn empty() -> (r: Mask)
        ensures
            r.spec_bits() == 0,
            r.wf(),
    {
        let r = Mask { bits: 0 };
        proof {
            assert(0usize & !ALL_FEATURE_BITS == 0) by (bit_vector);
        }
        r
    }

    /// The mask of every feature.
    pub fn all() -> (r: Mask)
        ensures
            r.spec_bits() == ALL_FEATURE_BITS,
            r.wf(),
    {
        let r = Mask { bits: ALL_FEATURE_BITS };
        proof {
            assert(ALL_FEATURE_BITS & !ALL_FEATURE_BITS == 0) by (bit_vector);
        }
        r
    }

    /// The mask of a single feature.
    pub fn from_feature(f: Feature) -> (r: Mask)
        ensures
            r.spec_bits() == 1usize << f.spec_bit(),
            r.spec_contains(f),
            r.wf(),
    {
        let b = f.bit();
        let r = Mask { bits: 1usize << b };
        proof {
            let i = f.spec_bit();
            assert(i == 0 || i == 1 || i == 2 || i == 3 || i == 9 || i == 16 || i == 17);
            assert((i == 0 || i == 1 || i == 2 || i == 3 || i == 9 || i == 16 || i == 17) ==> (
            1usize << i) & !ALL_FEATURE_BITS == 0 && (1usize << i) & (1usize << i) != 0)
                by (bit_vector);
        }
        r
    }

    /// The mask with exactly the given bit pattern, or `None` if a bit
    /// outside the hardware-defined feature positions is set.
    pub fn from_bits(bits: usize) -> (r: Option<Mask>)
        ensures
            r is Some <==> bits & !ALL_FEATURE_BITS == 0,
            r is Some ==> r->0.spec_bits() == bits && r->0.wf(),
    {
        if bits & !ALL_FEATURE_BITS == 0 {
            Some(Mask { bits })
        } else {
            None
        }
    }

    /// The mask with the given bit pattern, bits outside the
    /// hardware-defined feature positions dropped.
    pub fn from_bits_truncate(bits: usize) -> (r: Mask)
        ensures
            r.spec_bits() == bits & ALL_FEATURE_BITS,
            r.wf(),
    {
        let r = Mask { bits: bits & ALL_FEATURE_BITS };
        proof {
            assert((bits & ALL_FEATURE_BITS) & !ALL_FEATURE_BITS == 0) by (bit_vector);
        }
        r
    }

    /// Returns the raw bit pattern of the mask.
    pub fn bits(self) -> (r: usize)
        ensures
            r == self.spec_bits(),
    {
        self.bits
    }

    /// Returns whether the mask is empty.
    pub fn is_empty(self) -> (r: bool)
        ensures
            r == (self.spec_bits() == 0),
    {
        self.bits == 0
    }

    /// Returns whether every feature of `other` is in `self`.
    pub fn contains(self, other: Mask) -> (r: bool)
        ensures
            r == (self.spec_bits() & other.spec_bits() == other.spec_bits()),
    {
        self.bits & other.bits == other.bits
    }

    /// The union of two masks.
    pub fn union(self, other: Mask) -> (r: Mask)
        ensures
            r.spec_bits() == self.spec_bits() | other.spec_bits(),
            self.wf() && other.wf() ==> r.wf(),
            forall|f: Feature| r.spec_contains(f) <==> self.spec_contains(f) || other.spec_contains(
                f,
            ),
    {
        let r = Mask { bits: self.bits | other.bits };
        proof {
            let a = self.bits;
            let b = other.bits;
            assert(a & !ALL_FEATURE_BITS == 0 && b & !ALL_FEATURE_BITS == 0 ==> (a | b)
                & !ALL_FEATURE_BITS == 0) by (bit_vector);
            assert forall|f: Feature| r.spec_contains(f) <==> self.spec_contains(f)
                || other.spec_contains(f) by {
                let i = f.spec_bit();
                assert(((a | b) & (1usize << i) != 0) == (a & (1usize << i) != 0 || b & (1usize
                    << i) != 0)) by (bit_vector);
            }
        }
        r
    }

    /// The intersection of two masks.
    pub fn intersection(self, other: Mask) -> (r: Mask)
        ensures
            r.spec_bits() == self.spec_bits() & other.spec_bits(),
            self.wf() ==> r.wf(),
            forall|f: Feature| r.spec_contains(f) <==> self.spec_contains(f) && other.spec_contains(
                f,
            ),
    {
        let r = Mask { bits: self.bits & other.bits };
        proof {
            let a = self.bits;
            let b = other.bits;
            assert(a & !ALL_FEATURE_BITS == 0 ==> (a & b) & !ALL_FEATURE_BITS == 0)
                by (bit_vector);
            assert forall|f: Feature| r.spec_contains(f) <==> self.spec_contains(f)
                && other.spec_contains(f) by {
                let i = f.spec_bit();
                assert(((a & b) & (1usize << i) != 0) == (a & (1usize << i) != 0 && b & (1usize
                    << i) != 0)) by (bit_vector);
            }
        }
        r
    }

    /// The features of `self` that are not in `other`.
    pub fn difference(self, other: Mask) -> (r: Mask)
        ensures
            r.spec_bits() == self.spec_bits() & !other.spec_bits(),
            self.wf() ==> r.wf(),
            forall|f: Feature| r.spec_contains(f) <==> self.spec_contains(f)
                && !other.spec_contains(f),
    {
        let r = Mask { bits: self.bits & !other.bits };
        proof {
            let a = self.bits;
            let b = other.bits;
            assert(a & !ALL_FEATURE_BITS == 0 ==> (a & !b) & !ALL_FEATURE_BITS == 0)
                by (bit_vector);
            assert forall|f: Feature| r.spec_contains(f) <==> self.spec_contains(f)
                && !other.spec_contains(f) by {
                let i = f.spec_bit();
                assert(((a & !b) & (1usize << i) != 0) == (a & (1usize << i) != 0 && !(b & (1usize
                    << i) != 0))) by (bit_vector);
            }
        }
        r
    }

    /// The features not in the mask: negation over the closed flag set.
    pub fn complement(self) -> (r: Mask)
        ensures
            r.spec_bits() == !self.spec_bits() & ALL_FEATURE_BITS,
            r.wf(),
    {
        let r = Mask { bits: !self.bits & ALL_FEATURE_BITS };
        proof {
            let a = self.bits;
            assert((!a & ALL_FEATURE_BITS) & !ALL_FEATURE_BITS == 0) by (bit_vector);
        }
        r
    }
}

/// Absorption law of the mask algebra: `(A ∪ B) ∩ A == A`.
pub proof fn lemma_union_intersection_absorb(a: Mask, b: Mask)
    ensures
        (a.spec_bits() | b.spec_bits()) & a.spec_bits() == a.spec_bits(),
{
    let x = a.spec_bits();
    let y = b.spec_bits();
    assert((x | y) & x == x) by (bit_vector);
}

/// The empty mask annihilates intersection: `A ∩ ∅ == ∅`; and union and
/// intersection are idempotent: `A ∪ A == A`, `A ∩ A == A`.
pub proof fn lemma_empty_and_idempotence(a: Mask)
    ensures
        a.spec_bits() & 0 == 0,
        a.spec_bits() | a.spec_bits() == a.spec_bits(),
        a.spec_bits() & a.spec_bits() == a.spec_bits(),
{
    let x = a.spec_bits();
    assert(x & 0 == 0 && (x | x) == x && (x & x) == x) by (bit_vector);
}

/// Round trip of the mask algebra: setting the features of `s` in `m` and
/// clearing them again yields `m`, for masks that share no feature. (Where
/// they share one, the round trip clears it: starting from a mask that
/// already holds a feature of `s`, union then difference drops it.)
pub proof fn lemma_set_clear_round_trip(m: Mask, s: Mask)
    requires
        m.spec_bits() & s.spec_bits() == 0,
    ensures
        (m.spec_bits() | s.spec_bits()) & !s.spec_bits() == m.spec_bits(),
{
    let x = m.spec_bits();
    let y = s.spec_bits();
    assert((x | y) & !y == x) by (bit_vector)
        requires
            x & y == 0,
    ;
}

/// The enable write is exact at feature granularity: after the bit-clear
/// of `flags`, the disable bit of every feature in `flags` is zero (the
/// feature is enabled) and the bit of every other feature keeps its value.
pub proof fn lemma_enable_exact(old: usize, flags: Mask, f: Feature)
    ensures
        flags.spec_contains(f) ==> csr_clear(old, flags.spec_bits()) & (1usize << f.spec_bit())
            == 0,
        !flags.spec_contains(f) ==> csr_clear(old, flags.spec_bits()) & (1usize << f.spec_bit())
            == old & (1usize << f.spec_bit()),
{
    let m = flags.spec_bits();
    let i = f.spec_bit();
    assert(m & (1usize << i) != 0 ==> (old & !m) & (1usize << i) == 0) by (bit_vector);
    assert(m & (1usize << i) == 0 ==> (old & !m) & (1usize << i) == old & (1usize << i))
        by (bit_vector);
}

/// Enable features on bootloading.
///
/// Computes the feature disable value after enabling every feature of
/// `flags`: sugar for the feature disable register's bit-clear. The result
/// takes effect only through a machine-mode write of the register.
pub fn enable(old: usize, flags: Mask) -> (r: usize)
    ensures
        r == csr_clear(old, flags.spec_bits()),
{
    mfeature::clear_features(old, flags)
}

} // verus!
