//! The clock configuration that a user chooses.
use vstd::prelude::*;
use crate::time::Hertz;
use crate::vals::{
    AHBPrescaler, APBPrescaler, AdcClockSource, PerClockSource, PllDiv, PllMul, PllPreDiv, Timpre,
};

verus! {

/// HSI speed, in hertz
pub const HSI_FREQ: u32 = 64_000_000;

/// CSI speed, in hertz
pub const CSI_FREQ: u32 = 4_000_000;

/// HSI48 speed, in hertz
pub const HSI48_FREQ: u32 = 48_000_000;

#[derive(Clone, Copy, Debug, PartialEq, Eq, Structural)]
pub enum VoltageScale {
    Scale0,
    Scale1,
    Scale2,
    Scale3,
}

#[derive(Clone, Copy, Debug, PartialEq, Eq, Structural)]
pub enum HseMode {
    /// crystal/ceramic oscillator (HSEBYP=0)
    Oscillator,
    /// external analog clock (low swing) (HSEBYP=1, HSEEXT=0)
    Bypass,
}

#[derive(Clone, Copy, Debug, PartialEq, Eq, Structural)]
pub struct Hse {
    /// HSE frequency.
    pub freq: Hertz,
    /// HSE mode.
    pub mode: HseMode,
}

#[derive(Clone, Copy, Debug, PartialEq, Eq, Structural)]
pub enum Lse {
    /// 32.768 kHz crystal/ceramic oscillator (LSEBYP=0)
    Oscillator,
    /// external clock input up to 1MHz (LSEBYP=1)
    Bypass(Hertz),
}

#[derive(Clone, Copy, Debug, PartialEq, Eq, Structural)]
pub enum Hsi {
    /// 64Mhz
    Mhz64,
    /// 32Mhz (divided by 2)
    Mhz32,
    /// 16Mhz (divided by 4)
    Mhz16,
    /// 8Mhz (divided by 8)
    Mhz8,
}

#[derive(Clone, Copy, Debug, PartialEq, Eq, Structural)]
pub enum Sysclk {
    /// HSI selected as sysclk
    HSI,
    /// HSE selected as sysclk
    HSE,
    /// CSI selected as sysclk
    CSI,
    /// PLL1_P selected as sysclk
    Pll1P,
}

#[derive(Clone, Copy, Debug, PartialEq, Eq, Structural)]
pub enum PllSource {
    Hsi,
    Csi,
    Hse,
}

#[derive(Clone, Copy, Debug, PartialEq, Eq, Structural)]
pub struct Pll {
    /// PLL pre-divider (DIVM).
    pub prediv: PllPreDiv,
    /// PLL multiplication factor.
    pub mul: PllMul,
    /// PLL P division factor. If None, PLL P output is disabled.
    /// On PLL1, it must be even (in particular, it cannot be 1.)
    pub divp: Option<PllDiv>,
    /// PLL Q division factor. If None, PLL Q output is disabled.
    pub divq: Option<PllDiv>,
    /// PLL R division factor. If None, PLL R output is disabled.
    pub divr: Option<PllDiv>,
}

/// Timer prescaler
#[derive(Clone, Copy, Debug, PartialEq, Eq, Structural)]
pub enum TimerPrescaler {
    /// The timers kernel clock is equal to hclk if PPREx corresponds to a
    /// division by 1 or 2, else it is equal to 2*pclk
    DefaultX2,
    /// The timers kernel clock is equal to hclk if PPREx corresponds to a
    /// division by 1, 2 or 4, else it is equal to 4*pclk
    DefaultX4,
}

impl From<TimerPrescaler> for Timpre {
    fn from(value: TimerPrescaler) -> (r: Timpre) {
        match value {
            TimerPrescaler::DefaultX2 => Timpre::DEFAULTX2,
            TimerPrescaler::DefaultX4 => Timpre::DEFAULTX4,
        }
    }
}

impl vstd::std_specs::convert::FromSpecImpl<TimerPrescaler> for Timpre {
    open spec fn obeys_from_spec() -> bool {
        true
    }

    open spec fn from_spec(value: TimerPrescaler) -> Timpre {
        match value {
            TimerPrescaler::DefaultX2 => Timpre::DEFAULTX2,
            TimerPrescaler::DefaultX4 => Timpre::DEFAULTX4,
        }
    }
}

/// Configuration of the core clocks
#[non_exhaustive]
pub struct Config {
    pub hsi: Option<Hsi>,
    pub hse: Option<Hse>,
    pub csi: bool,
    pub hsi48: bool,
    pub sys: Sysclk,
    pub pll_src: PllSource,
    pub pll1: Option<Pll>,
    pub pll2: Option<Pll>,
    pub pll3: Option<Pll>,
    pub d1c_pre: AHBPrescaler,
    pub ahb_pre: AHBPrescaler,
    pub apb1_pre: APBPrescaler,
    pub apb2_pre: APBPrescaler,
    pub apb3_pre: APBPrescaler,
    pub apb4_pre: APBPrescaler,
    pub per_clock_source: PerClockSource,
    pub adc_clock_source: AdcClockSource,
    pub timer_prescaler: TimerPrescaler,
    pub voltage_scale: VoltageScale,
}

impl Default for Config {
    fn default() -> (c: Config)
        ensures
            c.hsi == Some(Hsi::Mhz64),
            c.hse.is_none(),
            !c.csi,
            !c.hsi48,
            c.sys == Sysclk::HSI,
            c.pll_src == PllSource::Hsi,
            c.pll1.is_none(),
            c.pll2.is_none(),
            c.pll3.is_none(),
            c.d1c_pre == AHBPrescaler::DIV1,
            c.ahb_pre == AHBPrescaler::DIV1,
            c.apb1_pre == APBPrescaler::DIV1,
            c.apb2_pre == APBPrescaler::DIV1,
            c.apb3_pre == APBPrescaler::DIV1,
            c.apb4_pre == APBPrescaler::DIV1,
            c.per_clock_source == PerClockSource::HSI,
            c.adc_clock_source == AdcClockSource::PLL2_P,
            c.timer_prescaler == TimerPrescaler::DefaultX2,
            c.voltage_scale == VoltageScale::Scale0,
    {
        Config {
            hsi: Some(Hsi::Mhz64),
            hse: None,
            csi: false,
            hsi48: false,
            sys: Sysclk::HSI,
            pll_src: PllSource::Hsi,
            pll1: None,
            pll2: None,
            pll3: None,
            d1c_pre: AHBPrescaler::DIV1,
            ahb_pre: AHBPrescaler::DIV1,
            apb1_pre: APBPrescaler::DIV1,
            apb2_pre: APBPrescaler::DIV1,
            apb3_pre: APBPrescaler::DIV1,
            apb4_pre: APBPrescaler::DIV1,
            per_clock_source: PerClockSource::HSI,
            adc_clock_source: AdcClockSource::PLL2_P,
            timer_prescaler: TimerPrescaler::DefaultX2,
            voltage_scale: VoltageScale::Scale0,
        }
    }
}

} // verus!
