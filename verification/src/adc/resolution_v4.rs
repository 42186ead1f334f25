//! Resolutions of the ADC found on the v4 family.
use vstd::prelude::*;

verus! {

/// Resolution of a conversion.
#[derive(Clone, Copy, Debug, PartialEq, Eq, Structural)]
pub enum Resolution {
    SixteenBit,
    FourteenBit,
    TwelveBit,
    TenBit,
    EightBit,
}

/// Value of the RES field of the ADC configuration register.
#[derive(Clone, Copy, Debug, PartialEq, Eq, Structural)]
pub enum Res {
    SIXTEENBIT,
    FOURTEENBITV,
    TWELVEBIT,
    TENBIT,
    EIGHTBIT,
}

impl Res {
    /// The sample width, in bits, that this register field value selects.
    pub open spec fn width(self) -> nat {
        match self {
            Res::SIXTEENBIT => 16,
            Res::FOURTEENBITV => 14,
            Res::TWELVEBIT => 12,
            Res::TENBIT => 10,
            Res::EIGHTBIT => 8,
        }
    }
}

/// Values of the powers of two used by the resolutions.
proof fn lemma_shift_values()
    by (bit_vector)
    ensures
        1u32 << 16u32 == 65536u32,
        1u32 << 14u32 == 16384u32,
        1u32 << 12u32 == 4096u32,
        1u32 << 10u32 == 1024u32,
        1u32 << 8u32 == 256u32,
{
}

impl Resolution {
    /// Number of bits of a sample taken at this resolution.
    pub open spec fn bits(self) -> nat {
        match self {
            Resolution::SixteenBit => 16,
            Resolution::FourteenBit => 14,
            Resolution::TwelveBit => 12,
            Resolution::TenBit => 10,
            Resolution::EightBit => 8,
        }
    }

    /// Register field value that selects this resolution.
    pub open spec fn spec_res(self) -> Res {
        match self {
            Resolution::SixteenBit => Res::SIXTEENBIT,
            Resolution::FourteenBit => Res::FOURTEENBITV,
            Resolution::TwelveBit => Res::TWELVEBIT,
            Resolution::TenBit => Res::TENBIT,
            Resolution::EightBit => Res::EIGHTBIT,
        }
    }

    /// The register field value for this resolution.
    pub fn res(&self) -> (r: Res)
        ensures
            r == self.spec_res(),
    {
        match self {
            Resolution::SixteenBit => Res::SIXTEENBIT,
            Resolution::FourteenBit => Res::FOURTEENBITV,
            Resolution::TwelveBit => Res::TWELVEBIT,
            Resolution::TenBit => Res::TENBIT,
            Resolution::EightBit => Res::EIGHTBIT,
        }
    }

    /// Largest sample value a conversion at this resolution can produce.
    pub fn to_max_count(&self) -> (r: u32)
        ensures
            r + 1 == vstd::arithmetic::power2::pow2(self.bits()),
    {
        proof {
            vstd::arithmetic::power2::lemma2_to64();
            lemma_shift_values();
        }
        match self {
            Resolution::SixteenBit => (1u32 << 16u32) - 1,
            Resolution::FourteenBit => (1u32 << 14u32) - 1,
            Resolution::TwelveBit => (1u32 << 12u32) - 1,
            Resolution::TenBit => (1u32 << 10u32) - 1,
            Resolution::EightBit => (1u32 << 8u32) - 1,
        }
    }
}

impl Default for Resolution {
    /// The finest resolution.
    fn default() -> (r: Self)
        ensures
            r == Resolution::SixteenBit,
    {
        Resolution::SixteenBit
    }
}

/// The default resolution is the finest one: no resolution gives a larger
/// maximum sample value.
pub proof fn lemma_default_is_finest(r: Resolution)
    ensures
        r.bits() <= Resolution::SixteenBit.bits(),
        vstd::arithmetic::power2::pow2(r.bits()) <= vstd::arithmetic::power2::pow2(
            Resolution::SixteenBit.bits(),
        ),
{
    vstd::arithmetic::power2::lemma2_to64();
}

/// Each resolution selects its own width: the register field value chosen
/// for a resolution names a sample width equal to the resolution's bit
/// count, so distinct resolutions select distinct field values, and the
/// largest sample value is one less than two to that width.
pub proof fn lemma_res_selects_own_width(r: Resolution, q: Resolution)
    ensures
        r.spec_res().width() == r.bits(),
        r != q ==> r.spec_res() != q.spec_res(),
        vstd::arithmetic::power2::pow2(r.spec_res().width()) == vstd::arithmetic::power2::pow2(
            r.bits(),
        ),
{
}

} // verus!
