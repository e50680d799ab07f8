//! Values of the register fields that the clock configuration chooses.
use vstd::prelude::*;

verus! {

/// Divider of the AHB clock (HPRE) and of the D1 domain core clock (D1CPRE).
#[derive(Clone, Copy, Debug, PartialEq, Eq, Structural)]
pub enum AHBPrescaler {
    DIV1,
    DIV2,
    DIV4,
    DIV8,
    DIV16,
    DIV64,
    DIV128,
    DIV256,
    DIV512,
}

impl AHBPrescaler {
    pub open spec fn spec_divisor(self) -> u32 {
        match self {
            AHBPrescaler::DIV1 => 1,
            AHBPrescaler::DIV2 => 2,
            AHBPrescaler::DIV4 => 4,
            AHBPrescaler::DIV8 => 8,
            AHBPrescaler::DIV16 => 16,
            AHBPrescaler::DIV64 => 64,
            AHBPrescaler::DIV128 => 128,
            AHBPrescaler::DIV256 => 256,
            AHBPrescaler::DIV512 => 512,
        }
    }

    /// The number the input clock is divided by.
    #[verifier::when_used_as_spec(spec_divisor)]
    pub fn divisor(self) -> (r: u32)
        ensures
            r == self.spec_divisor(),
            r >= 1,
    {
        match self {
            AHBPrescaler::DIV1 => 1,
            AHBPrescaler::DIV2 => 2,
            AHBPrescaler::DIV4 => 4,
            AHBPrescaler::DIV8 => 8,
            AHBPrescaler::DIV16 => 16,
            AHBPrescaler::DIV64 => 64,
            AHBPrescaler::DIV128 => 128,
            AHBPrescaler::DIV256 => 256,
            AHBPrescaler::DIV512 => 512,
        }
    }
}

/// Divider of an APB clock (D1PPRE, D2PPRE1, D2PPRE2, D3PPRE).
#[derive(Clone, Copy, Debug, PartialEq, Eq, Structural)]
pub enum APBPrescaler {
    DIV1,
    DIV2,
    DIV4,
    DIV8,
    DIV16,
}

impl APBPrescaler {
    pub open spec fn spec_divisor(self) -> u32 {
        match self {
            APBPrescaler::DIV1 => 1,
            APBPrescaler::DIV2 => 2,
            APBPrescaler::DIV4 => 4,
            APBPrescaler::DIV8 => 8,
            APBPrescaler::DIV16 => 16,
        }
    }

    /// The number the AHB clock is divided by.
    #[verifier::when_used_as_spec(spec_divisor)]
    pub fn divisor(self) -> (r: u32)
        ensures
            r == self.spec_divisor(),
            r >= 1,
    {
        match self {
            APBPrescaler::DIV1 => 1,
            APBPrescaler::DIV2 => 2,
            APBPrescaler::DIV4 => 4,
            APBPrescaler::DIV8 => 8,
            APBPrescaler::DIV16 => 16,
        }
    }
}

/// The PLL reference divider (DIVMx): a 6-bit field that is the divider
/// itself; the value 0 turns the PLL's reference off.
#[derive(Clone, Copy, Debug, PartialEq, Eq, Structural)]
pub struct PllPreDiv(u8);

impl PllPreDiv {
    #[verifier::type_invariant]
    spec fn fits(self) -> bool {
        self.0 < 64
    }

    /// The raw field value.
    pub closed spec fn bits(self) -> u8 {
        self.0
    }

    pub closed spec fn spec_from_bits(val: u8) -> PllPreDiv {
        PllPreDiv(val % 64)
    }

    /// Keeps the low 6 bits of `val`, as the register field does.
    #[verifier::when_used_as_spec(spec_from_bits)]
    pub fn from_bits(val: u8) -> (r: PllPreDiv)
        ensures
            r == PllPreDiv::spec_from_bits(val),
            r.bits() == val % 64,
    {
        PllPreDiv(val % 64)
    }

    pub fn to_bits(self) -> (r: u8)
        ensures
            r == self.bits(),
            r < 64,
    {
        proof {
            use_type_invariant(&self);
        }
        self.0
    }
}

/// The PLL multiplication factor (DIVNx): a 9-bit field that holds the
/// factor minus one.
#[derive(Clone, Copy, Debug, PartialEq, Eq, Structural)]
pub struct PllMul(u16);

impl PllMul {
    #[verifier::type_invariant]
    spec fn fits(self) -> bool {
        self.0 < 512
    }

    /// The raw field value.
    pub closed spec fn bits(self) -> u16 {
        self.0
    }

    pub closed spec fn spec_from_bits(val: u16) -> PllMul {
        PllMul(val % 512)
    }

    pub open spec fn spec_multiplier(self) -> u32 {
        (self.bits() + 1) as u32
    }

    /// The factor the reference clock is multiplied by.
    #[verifier::when_used_as_spec(spec_multiplier)]
    pub fn multiplier(self) -> (r: u32)
        ensures
            r == self.spec_multiplier(),
            1 <= r <= 512,
    {
        proof {
            use_type_invariant(&self);
        }
        self.0 as u32 + 1
    }

    /// Keeps the low 9 bits of `val`, as the register field does.
    #[verifier::when_used_as_spec(spec_from_bits)]
    pub fn from_bits(val: u16) -> (r: PllMul)
        ensures
            r == PllMul::spec_from_bits(val),
            r.bits() == val % 512,
    {
        PllMul(val % 512)
    }

    pub fn to_bits(self) -> (r: u16)
        ensures
            r == self.bits(),
            r < 512,
    {
        proof {
            use_type_invariant(&self);
        }
        self.0
    }
}

/// A PLL output divider (DIVPx, DIVQx, DIVRx): a 7-bit field that holds
/// the divider minus one.
#[derive(Clone, Copy, Debug, PartialEq, Eq, Structural)]
pub struct PllDiv(u8);

impl PllDiv {
    #[verifier::type_invariant]
    spec fn fits(self) -> bool {
        self.0 < 128
    }

    /// The raw field value.
    pub closed spec fn bits(self) -> u8 {
        self.0
    }

    pub closed spec fn spec_from_bits(val: u8) -> PllDiv {
        PllDiv(val % 128)
    }

    pub open spec fn spec_divider(self) -> u32 {
        (self.bits() + 1) as u32
    }

    /// The number the VCO clock is divided by.
    #[verifier::when_used_as_spec(spec_divider)]
    pub fn divider(self) -> (r: u32)
        ensures
            r == self.spec_divider(),
            1 <= r <= 128,
    {
        proof {
            use_type_invariant(&self);
        }
        self.0 as u32 + 1
    }

    /// Keeps the low 7 bits of `val`, as the register field does.
    #[verifier::when_used_as_spec(spec_from_bits)]
    pub fn from_bits(val: u8) -> (r: PllDiv)
        ensures
            r == PllDiv::spec_from_bits(val),
            r.bits() == val % 128,
    {
        PllDiv(val % 128)
    }

    pub fn to_bits(self) -> (r: u8)
        ensures
            r == self.bits(),
            r < 128,
    {
        proof {
            use_type_invariant(&self);
        }
        self.0
    }
}

/// Source of the peripheral clock `per_ck` (CKPERSEL).
#[derive(Clone, Copy, Debug, PartialEq, Eq, Structural)]
pub enum PerClockSource {
    HSI,
    CSI,
    HSE,
    DISABLE,
}

/// Source of the ADC kernel clock (ADCSEL).
#[allow(non_camel_case_types)]
#[derive(Clone, Copy, Debug, PartialEq, Eq, Structural)]
pub enum AdcClockSource {
    PLL2_P,
    PLL3_R,
    PER,
}

/// HSI divider (HSIDIV).
#[derive(Clone, Copy, Debug, PartialEq, Eq, Structural)]
pub enum Hsidiv {
    DIV1,
    DIV2,
    DIV4,
    DIV8,
}

/// System clock switch (SW).
#[derive(Clone, Copy, Debug, PartialEq, Eq, Structural)]
pub enum Sw {
    HSI,
    CSI,
    HSE,
    PLL1,
}

/// PLL reference source (PLLSRC).
#[derive(Clone, Copy, Debug, PartialEq, Eq, Structural)]
pub enum Pllsrc {
    HSI,
    CSI,
    HSE,
}

/// PLL reference input range (PLLxRGE).
#[derive(Clone, Copy, Debug, PartialEq, Eq, Structural)]
pub enum Pllrge {
    /// 1 to 2 MHz.
    RANGE1,
    /// 2 to 4 MHz.
    RANGE2,
    /// 4 to 8 MHz.
    RANGE4,
    /// 8 to 16 MHz.
    RANGE8,
}

/// PLL VCO range (PLLxVCOSEL).
#[derive(Clone, Copy, Debug, PartialEq, Eq, Structural)]
pub enum Pllvcosel {
    WIDEVCO,
    MEDIUMVCO,
}

/// Timer clock prescaler selection (TIMPRE).
#[derive(Clone, Copy, Debug, PartialEq, Eq, Structural)]
pub enum Timpre {
    DEFAULTX2,
    DEFAULTX4,
}

/// Voltage scaling selection (VOS) of the D3 domain control register.
#[derive(Clone, Copy, Debug, PartialEq, Eq, Structural)]
pub enum Vos {
    SCALE0,
    SCALE1,
    SCALE2,
    SCALE3,
}

} // verus!
