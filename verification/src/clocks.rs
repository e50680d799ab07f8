//! The clock tree: from a configuration to bus frequencies and the register
//! values that set it up.
use vstd::prelude::*;
use crate::config::{Config, Hse, HseMode, Hsi, Sysclk, TimerPrescaler, VoltageScale, CSI_FREQ, HSI_FREQ};
use crate::flash::{flash_setup, flash_table, FlashSetting};
use crate::pll::{init_pll, pll_result, PllError, PllInput, PllRegisters, PllSetup};
use crate::time::Hertz;
use vstd::std_specs::convert::FromSpec;
use crate::vals::{
    AHBPrescaler, APBPrescaler, AdcClockSource, Hsidiv, PerClockSource, Sw, Timpre, Vos,
};

verus! {

/// The factor by which the timers' kernel clock may exceed their APB clock.
pub open spec fn timer_factor(tim: TimerPrescaler) -> u32 {
    match tim {
        TimerPrescaler::DefaultX2 => 2,
        TimerPrescaler::DefaultX4 => 4,
    }
}

/// The timers' kernel clock on an APB bus divided by `apb` from an AHB
/// clock of `clk` hertz: the AHB clock itself while the APB divider is at
/// most the timer factor, else the AHB clock divided by the APB divider over
/// that factor.
pub open spec fn timer_clock(apb: APBPrescaler, clk: u32, tim: TimerPrescaler) -> u32 {
    if apb.spec_divisor() <= timer_factor(tim) {
        clk
    } else {
        clk / (apb.spec_divisor() / timer_factor(tim))
    }
}

/// The kernel clock of the timers on an APB bus whose prescaler is `apb`,
/// when the AHB clock is `clk` and the timer prescaler is `tim`.
pub fn apb_div_tim(apb: &APBPrescaler, clk: Hertz, tim: TimerPrescaler) -> (r: Hertz)
    ensures
        r.0 == timer_clock(*apb, clk.0, tim),
{
    match (tim, apb) {
        (TimerPrescaler::DefaultX2, APBPrescaler::DIV1) => clk,
        (TimerPrescaler::DefaultX2, APBPrescaler::DIV2) => clk,
        (TimerPrescaler::DefaultX2, APBPrescaler::DIV4) => Hertz(clk.0 / 2),
        (TimerPrescaler::DefaultX2, APBPrescaler::DIV8) => Hertz(clk.0 / 4),
        (TimerPrescaler::DefaultX2, APBPrescaler::DIV16) => Hertz(clk.0 / 8),
        (TimerPrescaler::DefaultX4, APBPrescaler::DIV1) => clk,
        (TimerPrescaler::DefaultX4, APBPrescaler::DIV2) => clk,
        (TimerPrescaler::DefaultX4, APBPrescaler::DIV4) => clk,
        (TimerPrescaler::DefaultX4, APBPrescaler::DIV8) => Hertz(clk.0 / 2),
        (TimerPrescaler::DefaultX4, APBPrescaler::DIV16) => Hertz(clk.0 / 4),
    }
}

/// The frequencies that the main clock tree is planned to run at.
#[derive(Clone, Copy, Debug, PartialEq, Eq, Structural)]
pub struct PlannedClocks {
    pub sys: Hertz,
    pub ahb1: Hertz,
    pub ahb2: Hertz,
    pub ahb3: Hertz,
    pub ahb4: Hertz,
    pub apb1: Hertz,
    pub apb2: Hertz,
    pub apb3: Hertz,
    pub apb4: Hertz,
    pub apb1_tim: Hertz,
    pub apb2_tim: Hertz,
    pub adc: Option<Hertz>,
}

/// The frequencies of the clock tree, as the rest of the system reads them.
#[derive(Clone, Copy, Debug, PartialEq, Eq, Structural)]
pub struct Clocks {
    pub sys: Hertz,
    pub ahb1: Hertz,
    pub ahb2: Hertz,
    pub ahb3: Hertz,
    pub ahb4: Hertz,
    pub apb1: Hertz,
    pub apb2: Hertz,
    pub apb3: Hertz,
    pub apb4: Hertz,
    pub apb1_tim: Hertz,
    pub apb2_tim: Hertz,
    pub adc: Option<Hertz>,
    /// The RTC clock, as starting the low-speed clock domain reports it.
    pub rtc: Option<Hertz>,
}

/// Everything that bringing up the clock tree writes, in decided form.
#[derive(Clone, Copy, Debug, PartialEq, Eq, Structural)]
pub struct InitPlan {
    /// The VOS value written to the D3 domain control register.
    pub vos: Vos,
    /// Whether overdrive is enabled after VOS is reached: the way to
    /// voltage scale 0 is through scale 1 and overdrive.
    pub overdrive: bool,
    /// The HSI divider when the HSI is switched on; `None` switches it off.
    pub hsi: Option<Hsidiv>,
    /// The HSE bypass bit when the HSE is switched on; `None` switches it off.
    pub hse_bypass: Option<bool>,
    /// Whether the HSI48 runs.
    pub hsi48: bool,
    /// Whether the CSI runs.
    pub csi: bool,
    pub pll1: PllRegisters,
    pub pll2: PllRegisters,
    pub pll3: PllRegisters,
    /// Flash wait states for the AXI clock.
    pub flash: FlashSetting,
    pub d1c_pre: AHBPrescaler,
    pub ahb_pre: AHBPrescaler,
    pub apb1_pre: APBPrescaler,
    pub apb2_pre: APBPrescaler,
    pub apb3_pre: APBPrescaler,
    pub apb4_pre: APBPrescaler,
    pub per_clock_source: PerClockSource,
    pub adc_clock_source: AdcClockSource,
    pub timpre: Timpre,
    /// The system clock switch.
    pub sw: Sw,
    /// Whether the I/O compensation cell is enabled; it needs the CSI.
    pub compensation_cell: bool,
    /// The frequencies of the main clock tree.
    pub clocks: PlannedClocks,
}

/// Why a configuration cannot be brought up.
#[derive(Clone, Copy, Debug, PartialEq, Eq, Structural)]
pub enum InitError {
    Pll1(PllError),
    Pll2(PllError),
    Pll3(PllError),
    /// The oscillator or PLL output chosen as system clock does not run.
    SysclkSourceDisabled,
    /// The D1 domain core clock (in hertz) exceeds the voltage scale's limit.
    D1cpreClockTooHigh(u32),
    /// The AHB clock (in hertz) exceeds the voltage scale's limit.
    HclkTooHigh(u32),
    /// An APB clock (in hertz) exceeds the voltage scale's limit.
    Apb1TooHigh(u32),
    Apb2TooHigh(u32),
    Apb3TooHigh(u32),
    Apb4TooHigh(u32),
    /// The peripheral clock source is switched off.
    PerClockDisabled,
}

/// The highest D1 domain core clock, in hertz, for a voltage scale.
pub open spec fn d1cpre_clk_max(vos: VoltageScale) -> u32 {
    match vos {
        VoltageScale::Scale0 => 480_000_000,
        VoltageScale::Scale1 => 400_000_000,
        VoltageScale::Scale2 => 300_000_000,
        VoltageScale::Scale3 => 200_000_000,
    }
}

/// The highest AHB clock, in hertz, for a voltage scale.
pub open spec fn hclk_max(vos: VoltageScale) -> u32 {
    match vos {
        VoltageScale::Scale0 => 240_000_000,
        VoltageScale::Scale1 => 200_000_000,
        VoltageScale::Scale2 => 150_000_000,
        VoltageScale::Scale3 => 100_000_000,
    }
}

/// The highest APB clock, in hertz, for a voltage scale.
pub open spec fn pclk_max(vos: VoltageScale) -> u32 {
    match vos {
        VoltageScale::Scale0 => 120_000_000,
        VoltageScale::Scale1 => 100_000_000,
        VoltageScale::Scale2 => 75_000_000,
        VoltageScale::Scale3 => 50_000_000,
    }
}

/// The VOS value first written for a voltage scale.
pub open spec fn vos_of(vos: VoltageScale) -> Vos {
    match vos {
        VoltageScale::Scale0 => Vos::SCALE1,
        VoltageScale::Scale1 => Vos::SCALE1,
        VoltageScale::Scale2 => Vos::SCALE2,
        VoltageScale::Scale3 => Vos::SCALE3,
    }
}

/// The HSI divider for an HSI setting.
pub open spec fn hsidiv_of(hsi: Hsi) -> Hsidiv {
    match hsi {
        Hsi::Mhz64 => Hsidiv::DIV1,
        Hsi::Mhz32 => Hsidiv::DIV2,
        Hsi::Mhz16 => Hsidiv::DIV4,
        Hsi::Mhz8 => Hsidiv::DIV8,
    }
}

/// The HSI frequency: 64 MHz divided by 1, 2, 4 or 8; none when it is off.
pub open spec fn hsi_freq(hsi: Option<Hsi>) -> Option<Hertz> {
    match hsi {
        None => None,
        Some(Hsi::Mhz64) => Some(Hertz(HSI_FREQ)),
        Some(Hsi::Mhz32) => Some(Hertz(HSI_FREQ / 2)),
        Some(Hsi::Mhz16) => Some(Hertz(HSI_FREQ / 4)),
        Some(Hsi::Mhz8) => Some(Hertz(HSI_FREQ / 8)),
    }
}

/// The HSE frequency; none when it is off.
pub open spec fn hse_freq(hse: Option<Hse>) -> Option<Hertz> {
    match hse {
        None => None,
        Some(h) => Some(h.freq),
    }
}

/// The CSI frequency; none when it is off.
pub open spec fn csi_freq(csi: bool) -> Option<Hertz> {
    if csi {
        Some(Hertz(CSI_FREQ))
    } else {
        None
    }
}

/// The oscillators seen by the PLLs under a configuration.
pub open spec fn pll_input_of(config: Config) -> PllInput {
    PllInput {
        hsi: hsi_freq(config.hsi),
        hse: hse_freq(config.hse),
        csi: csi_freq(config.csi),
        source: config.pll_src,
    }
}

/// The setups of the three PLLs under a configuration.
pub open spec fn pll1_of(config: Config) -> Result<PllSetup, PllError> {
    pll_result(0, config.pll1, pll_input_of(config))
}

pub open spec fn pll2_of(config: Config) -> Result<PllSetup, PllError> {
    pll_result(1, config.pll2, pll_input_of(config))
}

pub open spec fn pll3_of(config: Config) -> Result<PllSetup, PllError> {
    pll_result(2, config.pll3, pll_input_of(config))
}

/// The system clock switch for a system clock choice.
pub open spec fn sw_of(sys: Sysclk) -> Sw {
    match sys {
        Sysclk::HSI => Sw::HSI,
        Sysclk::HSE => Sw::HSE,
        Sysclk::CSI => Sw::CSI,
        Sysclk::Pll1P => Sw::PLL1,
    }
}

/// The system clock, given PLL1's setup; none when its source does not
/// run.
pub open spec fn sysclk_of(config: Config, pll1: PllSetup) -> Option<Hertz> {
    match config.sys {
        Sysclk::HSI => hsi_freq(config.hsi),
        Sysclk::HSE => hse_freq(config.hse),
        Sysclk::CSI => csi_freq(config.csi),
        Sysclk::Pll1P => pll1.output.p,
    }
}

/// `clk` divided by an AHB prescaler.
pub open spec fn ahb_div(clk: Hertz, pre: AHBPrescaler) -> Hertz {
    Hertz(clk.0 / pre.spec_divisor())
}

/// `clk` divided by an APB prescaler.
pub open spec fn apb_div(clk: Hertz, pre: APBPrescaler) -> Hertz {
    Hertz(clk.0 / pre.spec_divisor())
}

/// The peripheral clock; `None` when its source is switched off (DISABLE),
/// `Some(None)` when its source oscillator does not run.
pub open spec fn per_clock_of(config: Config) -> Option<Option<Hertz>> {
    match config.per_clock_source {
        PerClockSource::HSI => Some(hsi_freq(config.hsi)),
        PerClockSource::CSI => Some(csi_freq(config.csi)),
        PerClockSource::HSE => Some(hse_freq(config.hse)),
        PerClockSource::DISABLE => None,
    }
}

/// The ADC kernel clock.
pub open spec fn adc_clock_of(
    source: AdcClockSource,
    pll2: PllSetup,
    pll3: PllSetup,
    per: Option<Hertz>,
) -> Option<Hertz> {
    match source {
        AdcClockSource::PLL2_P => pll2.output.p,
        AdcClockSource::PLL3_R => pll3.output.r,
        AdcClockSource::PER => per,
    }
}

/// The setups of the three PLLs, or the first PLL that cannot run.
pub open spec fn plls_of(config: Config) -> Result<(PllSetup, PllSetup, PllSetup), InitError> {
    match pll1_of(config) {
        Err(e) => Err(InitError::Pll1(e)),
        Ok(pll1) => match pll2_of(config) {
            Err(e) => Err(InitError::Pll2(e)),
            Ok(pll2) => match pll3_of(config) {
                Err(e) => Err(InitError::Pll3(e)),
                Ok(pll3) => Ok((pll1, pll2, pll3)),
            },
        },
    }
}

/// The clocks divided from the system clock.
#[derive(Clone, Copy, Debug, PartialEq, Eq, Structural)]
pub struct BusClocks {
    pub d1cpre: Hertz,
    pub hclk: Hertz,
    pub apb1: Hertz,
    pub apb2: Hertz,
    pub apb3: Hertz,
    pub apb4: Hertz,
    pub apb1_tim: Hertz,
    pub apb2_tim: Hertz,
}

/// The bus clocks of a configuration whose system clock is `sys`.
pub open spec fn bus_clocks_of(config: Config, sys: Hertz) -> BusClocks {
    let hclk = ahb_div(sys, config.ahb_pre);
    BusClocks {
        d1cpre: ahb_div(sys, config.d1c_pre),
        hclk,
        apb1: apb_div(hclk, config.apb1_pre),
        apb2: apb_div(hclk, config.apb2_pre),
        apb3: apb_div(hclk, config.apb3_pre),
        apb4: apb_div(hclk, config.apb4_pre),
        apb1_tim: Hertz(timer_clock(config.apb1_pre, hclk.0, config.timer_prescaler)),
        apb2_tim: Hertz(timer_clock(config.apb2_pre, hclk.0, config.timer_prescaler)),
    }
}

/// The first bus clock, in the order they are checked, that exceeds the
/// voltage scale's limit; none if all are within.
pub open spec fn bus_failure(config: Config, sys: Hertz) -> Option<InitError> {
    let vos = config.voltage_scale;
    let b = bus_clocks_of(config, sys);
    if b.d1cpre.0 > d1cpre_clk_max(vos) {
        Some(InitError::D1cpreClockTooHigh(b.d1cpre.0))
    } else if b.hclk.0 > hclk_max(vos) {
        Some(InitError::HclkTooHigh(b.hclk.0))
    } else if b.apb1.0 > pclk_max(vos) {
        Some(InitError::Apb1TooHigh(b.apb1.0))
    } else if b.apb2.0 > pclk_max(vos) {
        Some(InitError::Apb2TooHigh(b.apb2.0))
    } else if b.apb3.0 > pclk_max(vos) {
        Some(InitError::Apb3TooHigh(b.apb3.0))
    } else if b.apb4.0 > pclk_max(vos) {
        Some(InitError::Apb4TooHigh(b.apb4.0))
    } else {
        None
    }
}

/// The first reason, in the order they are checked, why a configuration
/// cannot be brought up; none if it can.
pub open spec fn plan_failure(config: Config) -> Option<InitError> {
    match plls_of(config) {
        Err(e) => Some(e),
        Ok(plls) => match sysclk_of(config, plls.0) {
            None => Some(InitError::SysclkSourceDisabled),
            Some(sys) => match bus_failure(config, sys) {
                Some(e) => Some(e),
                None => if per_clock_of(config) is None {
                    Some(InitError::PerClockDisabled)
                } else {
                    None
                },
            },
        },
    }
}

/// The system clock of a configuration that can be brought up.
pub open spec fn sys_of(config: Config) -> Hertz {
    sysclk_of(config, plls_of(config).unwrap().0).unwrap()
}

/// The frequencies of a configuration that can be brought up.
pub open spec fn clocks_of(config: Config) -> PlannedClocks {
    let plls = plls_of(config).unwrap();
    let sys = sys_of(config);
    let b = bus_clocks_of(config, sys);
    PlannedClocks {
        sys,
        ahb1: b.hclk,
        ahb2: b.hclk,
        ahb3: b.hclk,
        ahb4: b.hclk,
        apb1: b.apb1,
        apb2: b.apb2,
        apb3: b.apb3,
        apb4: b.apb4,
        apb1_tim: b.apb1_tim,
        apb2_tim: b.apb2_tim,
        adc: adc_clock_of(config.adc_clock_source, plls.1, plls.2, per_clock_of(config).unwrap()),
    }
}

/// The plan of a configuration that can be brought up.
pub open spec fn plan_of(config: Config) -> InitPlan {
    let clocks = clocks_of(config);
    InitPlan {
        vos: vos_of(config.voltage_scale),
        overdrive: config.voltage_scale == VoltageScale::Scale0,
        hsi: match config.hsi {
            None => None,
            Some(h) => Some(hsidiv_of(h)),
        },
        hse_bypass: match config.hse {
            None => None,
            Some(h) => Some(h.mode != HseMode::Oscillator),
        },
        hsi48: config.hsi48,
        csi: config.csi,
        pll1: plls_of(config).unwrap().0.registers,
        pll2: plls_of(config).unwrap().1.registers,
        pll3: plls_of(config).unwrap().2.registers,
        flash: flash_table(config.voltage_scale, clocks.ahb1.0),
        d1c_pre: config.d1c_pre,
        ahb_pre: config.ahb_pre,
        apb1_pre: config.apb1_pre,
        apb2_pre: config.apb2_pre,
        apb3_pre: config.apb3_pre,
        apb4_pre: config.apb4_pre,
        per_clock_source: config.per_clock_source,
        adc_clock_source: config.adc_clock_source,
        timpre: Timpre::from_spec(config.timer_prescaler),
        sw: sw_of(config.sys),
        compensation_cell: config.csi,
        clocks,
    }
}

fn oscillators(config: &Config) -> (r: (PllInput, Option<Hsidiv>, Option<bool>))
    ensures
        r.0 == pll_input_of(*config),
        r.1 == plan_of(*config).hsi,
        r.2 == plan_of(*config).hse_bypass,
{
    let (hsi, hsidiv) = match config.hsi {
        None => (None, None),
        Some(Hsi::Mhz64) => (Some(Hertz(HSI_FREQ / 1)), Some(Hsidiv::DIV1)),
        Some(Hsi::Mhz32) => (Some(Hertz(HSI_FREQ / 2)), Some(Hsidiv::DIV2)),
        Some(Hsi::Mhz16) => (Some(Hertz(HSI_FREQ / 4)), Some(Hsidiv::DIV4)),
        Some(Hsi::Mhz8) => (Some(Hertz(HSI_FREQ / 8)), Some(Hsidiv::DIV8)),
    };
    let (hse, hse_bypass) = match config.hse {
        None => (None, None),
        Some(h) => (Some(h.freq), Some(h.mode != HseMode::Oscillator)),
    };
    let csi = if config.csi {
        Some(Hertz(CSI_FREQ))
    } else {
        None
    };
    (PllInput { hsi, hse, csi, source: config.pll_src }, hsidiv, hse_bypass)
}

fn start_plls(config: &Config, input: &PllInput) -> (r: Result<
    (PllSetup, PllSetup, PllSetup),
    InitError,
>)
    requires
        *input == pll_input_of(*config),
    ensures
        r == plls_of(*config),
{
    let pll1 = match init_pll(0, config.pll1, input) {
        Ok(s) => s,
        Err(e) => {
            return Err(InitError::Pll1(e));
        },
    };
    let pll2 = match init_pll(1, config.pll2, input) {
        Ok(s) => s,
        Err(e) => {
            return Err(InitError::Pll2(e));
        },
    };
    let pll3 = match init_pll(2, config.pll3, input) {
        Ok(s) => s,
        Err(e) => {
            return Err(InitError::Pll3(e));
        },
    };
    Ok((pll1, pll2, pll3))
}

fn bus_clocks(config: &Config, sys: Hertz) -> (r: Result<BusClocks, InitError>)
    ensures
        match r {
            Ok(b) => bus_failure(*config, sys) is None && b == bus_clocks_of(*config, sys),
            Err(e) => bus_failure(*config, sys) == Some(e),
        },
{
    let (d1cpre_max, hclk_limit, pclk_limit): (u32, u32, u32) = match config.voltage_scale {
        VoltageScale::Scale0 => (480_000_000, 240_000_000, 120_000_000),
        VoltageScale::Scale1 => (400_000_000, 200_000_000, 100_000_000),
        VoltageScale::Scale2 => (300_000_000, 150_000_000, 75_000_000),
        VoltageScale::Scale3 => (200_000_000, 100_000_000, 50_000_000),
    };
    let d1cpre = Hertz(sys.0 / config.d1c_pre.divisor());
    if d1cpre.0 > d1cpre_max {
        return Err(InitError::D1cpreClockTooHigh(d1cpre.0));
    }
    let hclk = Hertz(sys.0 / config.ahb_pre.divisor());
    if hclk.0 > hclk_limit {
        return Err(InitError::HclkTooHigh(hclk.0));
    }
    let apb1 = Hertz(hclk.0 / config.apb1_pre.divisor());
    let apb1_tim = apb_div_tim(&config.apb1_pre, hclk, config.timer_prescaler);
    if apb1.0 > pclk_limit {
        return Err(InitError::Apb1TooHigh(apb1.0));
    }
    let apb2 = Hertz(hclk.0 / config.apb2_pre.divisor());
    let apb2_tim = apb_div_tim(&config.apb2_pre, hclk, config.timer_prescaler);
    if apb2.0 > pclk_limit {
        return Err(InitError::Apb2TooHigh(apb2.0));
    }
    let apb3 = Hertz(hclk.0 / config.apb3_pre.divisor());
    if apb3.0 > pclk_limit {
        return Err(InitError::Apb3TooHigh(apb3.0));
    }
    let apb4 = Hertz(hclk.0 / config.apb4_pre.divisor());
    if apb4.0 > pclk_limit {
        return Err(InitError::Apb4TooHigh(apb4.0));
    }
    Ok(BusClocks { d1cpre, hclk, apb1, apb2, apb3, apb4, apb1_tim, apb2_tim })
}

/// Works out, for a configuration, the frequency of every clock and every
/// register value that brings the clock tree up, or the first reason the
/// configuration cannot be used: a PLL that cannot run, a system clock
/// source that does not run, a clock above its voltage scale's limit, or a
/// switched-off peripheral clock.
pub fn plan_clocks(config: &Config) -> (r: Result<InitPlan, InitError>)
    ensures
        match r {
            Ok(p) => plan_failure(*config) is None && p == plan_of(*config),
            Err(e) => plan_failure(*config) == Some(e),
        },
{
    // Voltage scale: scale 0 is reached through scale 1 and overdrive.
    let (vos, overdrive) = match config.voltage_scale {
        VoltageScale::Scale0 => (Vos::SCALE1, true),
        VoltageScale::Scale1 => (Vos::SCALE1, false),
        VoltageScale::Scale2 => (Vos::SCALE2, false),
        VoltageScale::Scale3 => (Vos::SCALE3, false),
    };

    let (pll_input, hsidiv, hse_bypass) = oscillators(config);
    let plls = start_plls(config, &pll_input);
    let (pll1, pll2, pll3) = match plls {
        Ok(p) => p,
        Err(e) => {
            return Err(e);
        },
    };

    // System clock
    let sys_source = match config.sys {
        Sysclk::HSI => pll_input.hsi,
        Sysclk::HSE => pll_input.hse,
        Sysclk::CSI => pll_input.csi,
        Sysclk::Pll1P => pll1.output.p,
    };
    let sys = match sys_source {
        Some(f) => f,
        None => {
            return Err(InitError::SysclkSourceDisabled);
        },
    };
    let sw = match config.sys {
        Sysclk::HSI => Sw::HSI,
        Sysclk::HSE => Sw::HSE,
        Sysclk::CSI => Sw::CSI,
        Sysclk::Pll1P => Sw::PLL1,
    };

    let bus = match bus_clocks(config, sys) {
        Ok(b) => b,
        Err(e) => {
            return Err(e);
        },
    };

    // Kernel clocks
    let per_ck = match config.per_clock_source {
        PerClockSource::HSI => pll_input.hsi,
        PerClockSource::CSI => pll_input.csi,
        PerClockSource::HSE => pll_input.hse,
        PerClockSource::DISABLE => {
            return Err(InitError::PerClockDisabled);
        },
    };
    let adc = match config.adc_clock_source {
        AdcClockSource::PLL2_P => pll2.output.p,
        AdcClockSource::PLL3_R => pll3.output.r,
        AdcClockSource::PER => per_ck,
    };

    let flash = flash_setup(bus.hclk, config.voltage_scale);

    Ok(
        InitPlan {
            vos,
            overdrive,
            hsi: hsidiv,
            hse_bypass,
            hsi48: config.hsi48,
            csi: config.csi,
            pll1: pll1.registers,
            pll2: pll2.registers,
            pll3: pll3.registers,
            flash,
            d1c_pre: config.d1c_pre,
            ahb_pre: config.ahb_pre,
            apb1_pre: config.apb1_pre,
            apb2_pre: config.apb2_pre,
            apb3_pre: config.apb3_pre,
            apb4_pre: config.apb4_pre,
            per_clock_source: config.per_clock_source,
            adc_clock_source: config.adc_clock_source,
            timpre: Timpre::from(config.timer_prescaler),
            sw,
            compensation_cell: config.csi,
            clocks: PlannedClocks {
                sys,
                ahb1: bus.hclk,
                ahb2: bus.hclk,
                ahb3: bus.hclk,
                ahb4: bus.hclk,
                apb1: bus.apb1,
                apb2: bus.apb2,
                apb3: bus.apb3,
                apb4: bus.apb4,
                apb1_tim: bus.apb1_tim,
                apb2_tim: bus.apb2_tim,
                adc,
            },
        },
    )
}

/// The clock frequencies once the tree runs: the planned ones, and the RTC
/// clock that starting the low-speed domain gave.
pub open spec fn clocks_with_rtc(f: PlannedClocks, rtc: Option<Hertz>) -> Clocks {
    Clocks {
        sys: f.sys,
        ahb1: f.ahb1,
        ahb2: f.ahb2,
        ahb3: f.ahb3,
        ahb4: f.ahb4,
        apb1: f.apb1,
        apb2: f.apb2,
        apb3: f.apb3,
        apb4: f.apb4,
        apb1_tim: f.apb1_tim,
        apb2_tim: f.apb2_tim,
        adc: f.adc,
        rtc,
    }
}

/// The frequencies the system reads once the plan has been carried out and
/// the low-speed domain, started in between, has reported the RTC clock
/// `rtc`.
pub fn finish_clocks(plan: &InitPlan, rtc: Option<Hertz>) -> (r: Clocks)
    ensures
        r == clocks_with_rtc(plan.clocks, rtc),
        r.sys == plan.clocks.sys,
        r.ahb1 == plan.clocks.ahb1,
        r.ahb2 == plan.clocks.ahb2,
        r.ahb3 == plan.clocks.ahb3,
        r.ahb4 == plan.clocks.ahb4,
        r.apb1 == plan.clocks.apb1,
        r.apb2 == plan.clocks.apb2,
        r.apb3 == plan.clocks.apb3,
        r.apb4 == plan.clocks.apb4,
        r.apb1_tim == plan.clocks.apb1_tim,
        r.apb2_tim == plan.clocks.apb2_tim,
        r.adc == plan.clocks.adc,
        r.rtc == rtc,
{
    let f = plan.clocks;
    Clocks {
        sys: f.sys,
        ahb1: f.ahb1,
        ahb2: f.ahb2,
        ahb3: f.ahb3,
        ahb4: f.ahb4,
        apb1: f.apb1,
        apb2: f.apb2,
        apb3: f.apb3,
        apb4: f.apb4,
        apb1_tim: f.apb1_tim,
        apb2_tim: f.apb2_tim,
        adc: f.adc,
        rtc,
    }
}

} // verus!
