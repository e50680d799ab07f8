//! Properties of the clock tree that hold for every configuration.
use vstd::prelude::*;
use crate::clocks::{
    bus_clocks_of, clocks_of, d1cpre_clk_max, hclk_max, hse_freq, hsi_freq, csi_freq, pclk_max,
    plan_failure, plan_of, plls_of, sys_of, timer_clock, timer_factor,
};
use crate::config::{Config, Pll, TimerPrescaler, VoltageScale};
use crate::flash::{flash_clk_max, flash_table};
use crate::pll::{
    pll_failure, pll_input_clock, pll_ref_clk, pll_running, pll_vco, PllInput, PllRegisters,
    VCO_MAX, VCO_MIN, VCO_WIDE_MAX, VCO_WIDE_MIN, REF_CLK_MAX,
};
use crate::vals::{AdcClockSource, APBPrescaler, PerClockSource, PllDiv, Sw, Vos};
use crate::clocks::{clocks_with_rtc, PlannedClocks};
use crate::config::{Hsi, PllSource};
use crate::time::Hertz;
use crate::pll::{pll_result, PllError, PllOutput, PllSetup};
use crate::vals::{AHBPrescaler, Hsidiv, Pllrge, Pllsrc, Pllvcosel, Timpre};
use crate::config::{HseMode, Sysclk};
use crate::clocks::InitError;

verus! {

/// Every clock that a usable configuration produces stays within the limits
/// of its voltage scale: the D1 domain core clock, the AHB clock and the
/// four APB clocks.
pub proof fn lemma_clocks_within_voltage_limits(config: Config)
    requires
        plan_failure(config) is None,
    ensures
        bus_clocks_of(config, sys_of(config)).d1cpre.0 <= d1cpre_clk_max(config.voltage_scale),
        clocks_of(config).ahb1.0 <= hclk_max(config.voltage_scale),
        clocks_of(config).apb1.0 <= pclk_max(config.voltage_scale),
        clocks_of(config).apb2.0 <= pclk_max(config.voltage_scale),
        clocks_of(config).apb3.0 <= pclk_max(config.voltage_scale),
        clocks_of(config).apb4.0 <= pclk_max(config.voltage_scale),
        clocks_of(config).ahb1.0 <= flash_clk_max(config.voltage_scale),
{
}

/// Each bus clock is no faster than the clock it is divided from: every APB
/// clock is at most the AHB clock, the four AHB clocks are equal, and the
/// AHB clock is at most the system clock.
pub proof fn lemma_bus_clock_order(config: Config)
    requires
        plan_failure(config) is None,
    ensures
        clocks_of(config).ahb1 == clocks_of(config).ahb2,
        clocks_of(config).ahb1 == clocks_of(config).ahb3,
        clocks_of(config).ahb1 == clocks_of(config).ahb4,
        clocks_of(config).ahb1.0 <= clocks_of(config).sys.0,
        clocks_of(config).apb1.0 <= clocks_of(config).ahb1.0,
        clocks_of(config).apb2.0 <= clocks_of(config).ahb1.0,
        clocks_of(config).apb3.0 <= clocks_of(config).ahb1.0,
        clocks_of(config).apb4.0 <= clocks_of(config).ahb1.0,
{
    let c = clocks_of(config);
    let sys = c.sys.0;
    let hclk = c.ahb1.0;
    let d = config.ahb_pre.spec_divisor();
    assert(sys / d <= sys) by (nonlinear_arith)
        requires
            d >= 1,
    ;
    let d1 = config.apb1_pre.spec_divisor();
    let d2 = config.apb2_pre.spec_divisor();
    let d3 = config.apb3_pre.spec_divisor();
    let d4 = config.apb4_pre.spec_divisor();
    assert(hclk / d1 <= hclk) by (nonlinear_arith)
        requires
            d1 >= 1,
    ;
    assert(hclk / d2 <= hclk) by (nonlinear_arith)
        requires
            d2 >= 1,
    ;
    assert(hclk / d3 <= hclk) by (nonlinear_arith)
        requires
            d3 >= 1,
    ;
    assert(hclk / d4 <= hclk) by (nonlinear_arith)
        requires
            d4 >= 1,
    ;
}

/// The flash needs no fewer wait states, and no shorter programming delay,
/// at a faster AXI clock under the same voltage scale.
pub proof fn lemma_flash_setting_monotone(vos: VoltageScale, slow: u32, fast: u32)
    requires
        slow <= fast,
    ensures
        flash_table(vos, slow).latency <= flash_table(vos, fast).latency,
        flash_table(vos, slow).wrhighfreq <= flash_table(vos, fast).wrhighfreq,
{
}

/// A PLL that runs has a reference clock of at most 16 MHz and a VCO
/// frequency in the medium range (150 to 420 MHz), or in the wide range (192
/// to 960 MHz) with a reference clock of at least 2 MHz.
pub proof fn lemma_pll_vco_in_range(num: usize, config: Pll, input: PllInput)
    requires
        pll_failure(num, config, input) is None,
    ensures
        pll_ref_clk(pll_input_clock(input).unwrap(), config) <= REF_CLK_MAX,
        ({
            let in_clk = pll_input_clock(input).unwrap();
            let vco = pll_vco(in_clk, config);
            ||| VCO_MIN <= vco <= VCO_MAX
            ||| pll_ref_clk(in_clk, config) >= 2_000_000 && VCO_WIDE_MIN <= vco <= VCO_WIDE_MAX
        }),
{
}

/// On PLL1 the P output, when enabled, divides the VCO clock by an even
/// number.
pub proof fn lemma_pll1_p_divider_even(config: Pll, input: PllInput)
    requires
        pll_failure(0, config, input) is None,
        config.divp is Some,
    ensures
        config.divp.unwrap().spec_divider() % 2 == 0,
{
}

/// A running PLL enables exactly the outputs that have a divider, and each
/// enabled output runs at the VCO frequency divided by its divider, so at
/// most at the VCO frequency, and at least at a 128th of it (a divider
/// field holds 7 bits, as every value of its type does).
pub proof fn lemma_pll_outputs(num: usize, config: Pll, input: PllInput)
    requires
        pll_failure(num, config, input) is None,
        config.divp matches Some(d) ==> d.bits() < 128,
        config.divq matches Some(d) ==> d.bits() < 128,
        config.divr matches Some(d) ==> d.bits() < 128,
    ensures
        ({
            let s = pll_running(config, input);
            let vco = pll_vco(pll_input_clock(input).unwrap(), config);
            &&& s.registers matches PllRegisters::On(regs) && {
                &&& regs.divpen == s.output.p is Some
                &&& regs.divqen == s.output.q is Some
                &&& regs.divren == s.output.r is Some
            }
            &&& s.output.p matches Some(f) ==> vco / 128 <= f.0 <= vco
            &&& s.output.q matches Some(f) ==> vco / 128 <= f.0 <= vco
            &&& s.output.r matches Some(f) ==> vco / 128 <= f.0 <= vco
        }),
{
    let vco = pll_vco(pll_input_clock(input).unwrap(), config);
    assert(0 <= vco <= VCO_WIDE_MAX);
    if let Some(d) = config.divp {
        lemma_div_between(vco, d.spec_divider() as int);
    }
    if let Some(d) = config.divq {
        lemma_div_between(vco, d.spec_divider() as int);
    }
    if let Some(d) = config.divr {
        lemma_div_between(vco, d.spec_divider() as int);
    }
}

proof fn lemma_div_between(x: int, d: int)
    requires
        0 <= x,
        1 <= d <= 128,
    ensures
        x / 128 <= x / d <= x,
{
    assert(x / 128 <= x / d <= x) by (nonlinear_arith)
        requires
            1 <= d <= 128,
            0 <= x,
    ;
}

/// The timers' kernel clock lies between the APB clock and the AHB clock;
/// when the AHB clock divides evenly, it equals the AHB clock while the APB
/// divider is at most the timer factor (2, or 4), and the timer factor
/// times the APB clock otherwise.
pub proof fn lemma_timer_clock(apb: APBPrescaler, clk: u32, tim: TimerPrescaler)
    ensures
        clk / apb.spec_divisor() <= timer_clock(apb, clk, tim) <= clk,
        ({
            let f: u32 = if tim == TimerPrescaler::DefaultX4 {
                4
            } else {
                2
            };
            clk % apb.spec_divisor() == 0 ==> timer_clock(apb, clk, tim) == if apb.spec_divisor()
                <= f {
                clk as int
            } else {
                f * (clk / apb.spec_divisor())
            }
        }),
{
    let d = apb.spec_divisor();
    let f = timer_factor(tim);
    assert(clk / d <= clk) by (nonlinear_arith)
        requires
            d >= 1,
    ;
    if d > f {
        let q = d / f;
        assert(q >= 2 && d == q * f);
        assert(clk / d <= clk / q <= clk) by (nonlinear_arith)
            requires
                d == q * f,
                f >= 2,
                q >= 1,
        ;
        if clk % d == 0 {
            assert(clk / q == f * (clk / d)) by (nonlinear_arith)
                requires
                    d == q * f,
                    f >= 2,
                    q >= 1,
                    clk % d == 0,
            ;
        }
    }
}

/// The system clock switch picks the clock whose frequency is the system
/// clock.
pub proof fn lemma_sysclk_source(config: Config)
    requires
        plan_failure(config) is None,
    ensures
        ({
            let p = plan_of(config);
            let sys = p.clocks.sys;
            &&& p.sw == Sw::HSI ==> hsi_freq(config.hsi) == Some(sys)
            &&& p.sw == Sw::HSE ==> hse_freq(config.hse) == Some(sys)
            &&& p.sw == Sw::CSI ==> csi_freq(config.csi) == Some(sys)
            &&& p.sw == Sw::PLL1 ==> plls_of(config).unwrap().0.output.p == Some(sys)
        }),
{
}

/// Voltage scale 0 is reached through scale 1 and overdrive; the other
/// scales are written directly and leave overdrive off.
pub proof fn lemma_voltage_scale_path(config: Config)
    requires
        plan_failure(config) is None,
    ensures
        plan_of(config).overdrive <==> config.voltage_scale == VoltageScale::Scale0,
        plan_of(config).overdrive ==> plan_of(config).vos == Vos::SCALE1,
        config.voltage_scale == VoltageScale::Scale1 ==> plan_of(config).vos == Vos::SCALE1,
        config.voltage_scale == VoltageScale::Scale2 ==> plan_of(config).vos == Vos::SCALE2,
        config.voltage_scale == VoltageScale::Scale3 ==> plan_of(config).vos == Vos::SCALE3,
{
}

/// An unused PLL is stopped with its reference divider at 0, and the I/O
/// compensation cell is enabled only together with the CSI it needs.
pub proof fn lemma_unused_resources_off(config: Config)
    requires
        plan_failure(config) is None,
    ensures
        config.pll1 is None ==> plan_of(config).pll1 == PllRegisters::Off,
        config.pll2 is None ==> plan_of(config).pll2 == PllRegisters::Off,
        config.pll3 is None ==> plan_of(config).pll3 == PllRegisters::Off,
        plan_of(config).compensation_cell <==> plan_of(config).csi,
        plan_of(config).csi == config.csi,
        config.hsi is None <==> plan_of(config).hsi is None,
        config.hse is None <==> plan_of(config).hse_bypass is None,
{
}

/// The timers on APB1 and APB2 run at the AHB clock while the APB divider
/// is at most 2 (timer prescaler DefaultX2) or at most 4 (DefaultX4), and
/// otherwise at the AHB clock divided by the APB divider over that factor,
/// which is the factor times the APB clock when the AHB clock divides
/// evenly.
pub proof fn lemma_timer_clocks_follow_prescaler(config: Config)
    requires
        plan_failure(config) is None,
    ensures
        ({
            let c = clocks_of(config);
            let h = c.ahb1.0;
            let d1 = config.apb1_pre.spec_divisor();
            let d2 = config.apb2_pre.spec_divisor();
            let x4 = config.timer_prescaler == TimerPrescaler::DefaultX4;
            let f: u32 = if x4 { 4 } else { 2 };
            &&& d1 <= f ==> c.apb1_tim.0 == h
            &&& d1 > f ==> c.apb1_tim.0 == h / (d1 / f)
            &&& d1 > f && h % d1 == 0 ==> c.apb1_tim.0 == f * c.apb1.0
            &&& d2 <= f ==> c.apb2_tim.0 == h
            &&& d2 > f ==> c.apb2_tim.0 == h / (d2 / f)
            &&& d2 > f && h % d2 == 0 ==> c.apb2_tim.0 == f * c.apb2.0
        }),
{
    let c = clocks_of(config);
    lemma_timer_clock(config.apb1_pre, c.ahb1.0, config.timer_prescaler);
    lemma_timer_clock(config.apb2_pre, c.ahb1.0, config.timer_prescaler);
}

/// The VCO frequency of a PLL fed with `in_clk`: the input divided by the
/// reference divider, times the multiplier.
pub open spec fn vco_from(in_clk: Hertz, config: Pll) -> int {
    (in_clk.0 / (config.prediv.bits() as u32)) * (config.mul.bits() + 1)
}

/// The oscillator frequency a PLL input selects.
pub open spec fn selected(input: PllInput) -> Option<Hertz> {
    if input.source == PllSource::Hsi {
        input.hsi
    } else if input.source == PllSource::Hse {
        input.hse
    } else {
        input.csi
    }
}

/// A PLL output's frequency: the VCO divided by the divider's field value
/// plus one; none without a divider.
pub open spec fn divided(vco: int, div: Option<PllDiv>) -> Option<Hertz> {
    match div {
        Some(d) => Some(Hertz((vco / (d.bits() + 1)) as u32)),
        None => None,
    }
}

/// A running PLL programs each output divider with the configured one (a
/// division by 2 for a disabled output), enables exactly the configured
/// outputs, keeps the configured reference divider and multiplier, and
/// reports each enabled output at the VCO frequency divided by the divider
/// it programs.
pub proof fn lemma_pll_registers_match_outputs(num: usize, config: Pll, input: PllInput)
    requires
        pll_failure(num, config, input) is None,
    ensures
        ({
            let r = crate::pll::pll_result(num, Some(config), input);
            let vco = vco_from(selected(input).unwrap(), config);
            &&& selected(input) is Some
            &&& r matches Ok(s) && s.registers matches PllRegisters::On(regs) && {
                &&& regs.divm == config.prediv
                &&& regs.plln == config.mul
                &&& regs.divpen == config.divp is Some
                &&& regs.divqen == config.divq is Some
                &&& regs.divren == config.divr is Some
                &&& regs.pllp == (if config.divp is Some { config.divp.unwrap() } else { PllDiv::spec_from_bits(1) })
                &&& regs.pllq == (if config.divq is Some { config.divq.unwrap() } else { PllDiv::spec_from_bits(1) })
                &&& regs.pllr == (if config.divr is Some { config.divr.unwrap() } else { PllDiv::spec_from_bits(1) })
                &&& s.output.p == divided(vco, config.divp)
                &&& s.output.q == divided(vco, config.divq)
                &&& s.output.r == divided(vco, config.divr)
                &&& regs.divpen ==> s.output.p == Some(Hertz((vco / (regs.pllp.bits() + 1)) as u32))
                &&& regs.divqen ==> s.output.q == Some(Hertz((vco / (regs.pllq.bits() + 1)) as u32))
                &&& regs.divren ==> s.output.r == Some(Hertz((vco / (regs.pllr.bits() + 1)) as u32))
            }
        }),
{
}

/// The ADC kernel clock is PLL2's P output, PLL3's R output, or the
/// peripheral clock (the HSI, CSI or HSE it selects), as the ADC source
/// says; a PLL output is its VCO frequency divided by that output's divider,
/// and none when the PLL is off or the output has no divider.
pub proof fn lemma_adc_clock_source(config: Config)
    requires
        plan_failure(config) is None,
    ensures
        ({
            let adc = clocks_of(config).adc;
            let input = PllInput {
                hsi: hsi_freq(config.hsi),
                hse: hse_freq(config.hse),
                csi: csi_freq(config.csi),
                source: config.pll_src,
            };
            &&& config.adc_clock_source == AdcClockSource::PLL2_P ==> adc == match config.pll2 {
                None => None,
                Some(p) => divided(vco_from(selected(input).unwrap(), p), p.divp),
            }
            &&& config.adc_clock_source == AdcClockSource::PLL3_R ==> adc == match config.pll3 {
                None => None,
                Some(p) => divided(vco_from(selected(input).unwrap(), p), p.divr),
            }
            &&& config.adc_clock_source == AdcClockSource::PLL3_R ==> adc
                == plls_of(config).unwrap().2.output.r
            &&& config.adc_clock_source == AdcClockSource::PER ==> adc == (
            if config.per_clock_source == PerClockSource::HSI {
                hsi_freq(config.hsi)
            } else if config.per_clock_source == PerClockSource::CSI {
                csi_freq(config.csi)
            } else {
                hse_freq(config.hse)
            })
        }),
{
}

/// The flash setting meets the wait states and programming delay the
/// reference manual asks for in each band of AXI clock under each voltage
/// scale.
pub proof fn lemma_flash_setting_bands(vos: VoltageScale, clk: u32)
    requires
        clk <= flash_clk_max(vos),
    ensures
        ({
            let s = flash_table(vos, clk);
            let (lat, wr): (u8, u8) = if vos == VoltageScale::Scale0 || vos == VoltageScale::Scale1 {
                if clk <= 70_000_000 { (0, 0) }
                else if clk <= 140_000_000 { (1, 1) }
                else if clk <= 185_000_000 { (2, 1) }
                else if clk <= 210_000_000 { (2, 2) }
                else if clk <= 225_000_000 { (3, 2) }
                else { (4, 2) }
            } else if vos == VoltageScale::Scale2 {
                if clk <= 55_000_000 { (0, 0) }
                else if clk <= 110_000_000 { (1, 1) }
                else if clk <= 165_000_000 { (2, 1) }
                else { (3, 2) }
            } else {
                if clk <= 45_000_000 { (0, 0) }
                else if clk <= 90_000_000 { (1, 1) }
                else if clk <= 135_000_000 { (2, 1) }
                else if clk <= 180_000_000 { (3, 2) }
                else { (4, 2) }
            };
            &&& s.latency == lat
            &&& s.wrhighfreq == wr
            &&& clk <= 225_000_000 || vos == VoltageScale::Scale0
        }),
{
}

/// The reported clocks keep every planned frequency in its own field, and
/// carry the RTC clock the low-speed domain gave.
pub proof fn lemma_reported_clocks(f: PlannedClocks, rtc: Option<Hertz>)
    ensures
        ({
            let r = clocks_with_rtc(f, rtc);
            &&& r.sys == f.sys
            &&& r.ahb1 == f.ahb1
            &&& r.ahb2 == f.ahb2
            &&& r.ahb3 == f.ahb3
            &&& r.ahb4 == f.ahb4
            &&& r.apb1 == f.apb1
            &&& r.apb2 == f.apb2
            &&& r.apb3 == f.apb3
            &&& r.apb4 == f.apb4
            &&& r.apb1_tim == f.apb1_tim
            &&& r.apb2_tim == f.apb2_tim
            &&& r.adc == f.adc
            &&& r.rtc == rtc
        }),
{
}

/// The reference clock of a PLL: its selected oscillator divided by the
/// reference divider.
pub open spec fn ref_from(input: PllInput, config: Pll) -> int {
    (selected(input).unwrap().0 as int) / (config.prediv.bits() as int)
}

/// Whether a VCO frequency is usable with a reference clock: within 150 to
/// 420 MHz, or within 192 to 960 MHz when the reference is at least 2 MHz.
pub open spec fn vco_usable(refc: int, vco: int) -> bool {
    ||| 150_000_000 <= vco <= 420_000_000
    ||| refc >= 2_000_000 && 192_000_000 <= vco <= 960_000_000
}

/// A PLL that is not configured is stopped and gives no output. A
/// configured PLL runs exactly when its selected oscillator runs, its
/// reference divider is not 0, its reference clock is at most 16 MHz, its
/// VCO frequency is usable, and, on PLL1, an enabled P divider is even;
/// otherwise the first of these that fails is reported, with the offending
/// frequency. A running PLL reads its source from the selected oscillator,
/// takes the input range of its reference clock's band (below 2, 4, 8 MHz,
/// or up to 16 MHz), and the medium VCO range whenever the VCO fits it.
pub proof fn lemma_pll_runs_iff(num: usize, config: Pll, input: PllInput)
    ensures
        pll_result(num, None, input) == Ok::<PllSetup, PllError>(
            PllSetup {
                output: PllOutput { p: None, q: None, r: None },
                registers: PllRegisters::Off,
            },
        ),
        ({
            let refc = ref_from(input, config);
            let vco = refc * (config.mul.bits() + 1);
            let odd_p = num == 0 && config.divp is Some && config.divp.unwrap().bits() % 2 == 0;
            &&& selected(input) is None ==> pll_failure(num, config, input) == Some(
                PllError::SourceDisabled,
            )
            &&& selected(input) is Some && config.prediv.bits() == 0 ==> pll_failure(
                num,
                config,
                input,
            ) == Some(PllError::PrescalerOff)
            &&& selected(input) is Some && config.prediv.bits() != 0 && refc > 16_000_000
                ==> pll_failure(num, config, input) == Some(
                PllError::RefClockOutOfRange(refc as u32),
            )
            &&& selected(input) is Some && config.prediv.bits() != 0 && refc <= 16_000_000
                && !vco_usable(refc, vco) ==> pll_failure(num, config, input) == Some(
                PllError::VcoOutOfRange(vco as u64),
            )
            &&& selected(input) is Some && config.prediv.bits() != 0 && refc <= 16_000_000
                && vco_usable(refc, vco) && odd_p ==> pll_failure(num, config, input) == Some(
                PllError::OddPll1Divp,
            )
            &&& selected(input) is Some && config.prediv.bits() != 0 && refc <= 16_000_000
                && vco_usable(refc, vco) && !odd_p ==> {
                &&& pll_failure(num, config, input) is None
                &&& pll_result(num, Some(config), input) matches Ok(s) && s.registers matches PllRegisters::On(regs) && {
                    &&& regs.src == (if input.source == PllSource::Hsi {
                        Pllsrc::HSI
                    } else if input.source == PllSource::Hse {
                        Pllsrc::HSE
                    } else {
                        Pllsrc::CSI
                    })
                    &&& regs.rge == (if refc < 2_000_000 {
                        Pllrge::RANGE1
                    } else if refc < 4_000_000 {
                        Pllrge::RANGE2
                    } else if refc < 8_000_000 {
                        Pllrge::RANGE4
                    } else {
                        Pllrge::RANGE8
                    })
                    &&& regs.vcosel == (if 150_000_000 <= vco <= 420_000_000 {
                        Pllvcosel::MEDIUMVCO
                    } else {
                        Pllvcosel::WIDEVCO
                    })
                }
            }
        }),
{
    let refc = ref_from(input, config);
    let m = config.mul.bits() + 1;
    if selected(input) is Some && config.prediv.bits() != 0 {
        let in_clk = selected(input).unwrap();
        assert(pll_input_clock(input) == selected(input));
        assert(pll_ref_clk(in_clk, config) == refc);
        assert(pll_vco(in_clk, config) == refc * m);
        if refc <= 16_000_000 {
            assert(0 <= refc * m <= 16_000_000 * 65536) by (nonlinear_arith)
                requires
                    0 <= refc <= 16_000_000,
                    1 <= m <= 65536,
            ;
        }
    }
}

/// The HSI frequency for an HSI setting: 64, 32, 16 or 8 MHz; none when off.
pub open spec fn hsi_hz(hsi: Option<Hsi>) -> Option<Hertz> {
    match hsi {
        None => None,
        Some(Hsi::Mhz64) => Some(Hertz(64_000_000)),
        Some(Hsi::Mhz32) => Some(Hertz(32_000_000)),
        Some(Hsi::Mhz16) => Some(Hertz(16_000_000)),
        Some(Hsi::Mhz8) => Some(Hertz(8_000_000)),
    }
}

/// The oscillators, as the PLLs see them: the HSI at its setting, the HSE
/// at its frequency, the CSI at 4 MHz, each only when it runs.
pub open spec fn oscillators(config: Config) -> PllInput {
    PllInput {
        hsi: hsi_hz(config.hsi),
        hse: match config.hse {
            None => None,
            Some(h) => Some(h.freq),
        },
        csi: if config.csi {
            Some(Hertz(4_000_000))
        } else {
            None
        },
        source: config.pll_src,
    }
}

/// The system clock a configuration asks for: the HSI, HSE or CSI, or
/// PLL1's P output; none when that source does not run.
pub open spec fn wanted_sys(config: Config) -> Option<Hertz> {
    let osc = oscillators(config);
    match config.sys {
        Sysclk::HSI => osc.hsi,
        Sysclk::HSE => osc.hse,
        Sysclk::CSI => osc.csi,
        Sysclk::Pll1P => match config.pll1 {
            None => None,
            Some(p) => divided(vco_from(selected(osc).unwrap(), p), p.divp),
        },
    }
}

/// Whether configured PLL number `num` (0 for PLL1) can run.
pub open spec fn pll_ok(num: usize, pll: Option<Pll>, input: PllInput) -> bool {
    match pll {
        None => true,
        Some(p) => pll_failure(num, p, input) is None,
    }
}

/// The limits of a voltage scale, in hertz: D1 core clock, AHB clock, APB
/// clock.
pub open spec fn limits(vos: VoltageScale) -> (int, int, int) {
    if vos == VoltageScale::Scale0 {
        (480_000_000, 240_000_000, 120_000_000)
    } else if vos == VoltageScale::Scale1 {
        (400_000_000, 200_000_000, 100_000_000)
    } else if vos == VoltageScale::Scale2 {
        (300_000_000, 150_000_000, 75_000_000)
    } else {
        (200_000_000, 100_000_000, 50_000_000)
    }
}

/// The oscillator frequencies the library uses are the HSI at 64 MHz over
/// its divider, the CSI at 4 MHz and the HSE at its configured frequency.
pub proof fn lemma_oscillator_frequencies(config: Config)
    ensures
        hsi_freq(config.hsi) == hsi_hz(config.hsi),
        csi_freq(config.csi) == oscillators(config).csi,
        hse_freq(config.hse) == oscillators(config).hse,
        crate::clocks::pll_input_of(config) == oscillators(config),
{
}

/// A configuration can be brought up exactly when every configured PLL can
/// run, its system clock source runs, the D1 core clock (system clock over
/// D1CPRE), the AHB clock (system clock over HPRE) and each APB clock (AHB
/// clock over its divider) are within the voltage scale's limits, and the
/// peripheral clock source is not switched off. Its clocks are then those
/// quotients, the four AHB clocks being equal.
pub proof fn lemma_plan_accepted_iff(config: Config)
    ensures
        ({
            let osc = oscillators(config);
            let sys = wanted_sys(config);
            let s = sys.unwrap().0 as int;
            let d1c = s / (config.d1c_pre.spec_divisor() as int);
            let h = s / (config.ahb_pre.spec_divisor() as int);
            let a1 = h / (config.apb1_pre.spec_divisor() as int);
            let a2 = h / (config.apb2_pre.spec_divisor() as int);
            let a3 = h / (config.apb3_pre.spec_divisor() as int);
            let a4 = h / (config.apb4_pre.spec_divisor() as int);
            let (l1, l2, l3) = limits(config.voltage_scale);
            let accepted = {
                &&& pll_ok(0, config.pll1, osc)
                &&& pll_ok(1, config.pll2, osc)
                &&& pll_ok(2, config.pll3, osc)
                &&& sys is Some
                &&& d1c <= l1
                &&& h <= l2
                &&& a1 <= l3
                &&& a2 <= l3
                &&& a3 <= l3
                &&& a4 <= l3
                &&& config.per_clock_source != PerClockSource::DISABLE
            };
            &&& (plan_failure(config) is None) == accepted
            &&& accepted ==> {
                let c = clocks_of(config);
                &&& c.sys == sys.unwrap()
                &&& c.ahb1.0 == h
                &&& c.ahb2 == c.ahb1
                &&& c.ahb3 == c.ahb1
                &&& c.ahb4 == c.ahb1
                &&& c.apb1.0 == a1
                &&& c.apb2.0 == a2
                &&& c.apb3.0 == a3
                &&& c.apb4.0 == a4
            }
        }),
{
    lemma_plls_ok(config);
    let osc = oscillators(config);
    if plls_of(config) is Ok {
        lemma_sys_choice(config);
        let sys = wanted_sys(config);
        if sys is Some {
            lemma_bus_quotients(config, sys.unwrap());
        }
    }
}

proof fn lemma_plls_ok(config: Config)
    ensures
        ({
            let osc = oscillators(config);
            (plls_of(config) is Ok) == (pll_ok(0, config.pll1, osc) && pll_ok(1, config.pll2, osc)
                && pll_ok(2, config.pll3, osc))
        }),
{
    lemma_oscillator_frequencies(config);
}

proof fn lemma_sys_choice(config: Config)
    requires
        plls_of(config) is Ok,
    ensures
        crate::clocks::sysclk_of(config, plls_of(config).unwrap().0) == wanted_sys(config),
{
    lemma_oscillator_frequencies(config);
    let osc = oscillators(config);
    if let Some(p) = config.pll1 {
        lemma_pll_registers_match_outputs(0, p, osc);
    }
}

proof fn lemma_bus_quotients(config: Config, sys: Hertz)
    ensures
        ({
            let s = sys.0 as int;
            let d1c = s / (config.d1c_pre.spec_divisor() as int);
            let h = s / (config.ahb_pre.spec_divisor() as int);
            let a1 = h / (config.apb1_pre.spec_divisor() as int);
            let a2 = h / (config.apb2_pre.spec_divisor() as int);
            let a3 = h / (config.apb3_pre.spec_divisor() as int);
            let a4 = h / (config.apb4_pre.spec_divisor() as int);
            let (l1, l2, l3) = limits(config.voltage_scale);
            let b = bus_clocks_of(config, sys);
            &&& b.d1cpre.0 == d1c
            &&& b.hclk.0 == h
            &&& b.apb1.0 == a1
            &&& b.apb2.0 == a2
            &&& b.apb3.0 == a3
            &&& b.apb4.0 == a4
            &&& (crate::clocks::bus_failure(config, sys) is None) == (d1c <= l1 && h <= l2 && a1
                <= l3 && a2 <= l3 && a3 <= l3 && a4 <= l3)
        }),
{
}

/// The registers a usable configuration writes: the HSI divider of its HSI
/// setting, the HSE bypass bit for a bypassed HSE, its prescalers and
/// kernel clock sources unchanged, the timer prescaler bit, the system
/// clock switch of its system clock choice, and the flash setting for its
/// AHB clock.
pub proof fn lemma_plan_registers(config: Config)
    requires
        plan_failure(config) is None,
    ensures
        ({
            let p = plan_of(config);
            &&& p.hsi == match config.hsi {
                None => None,
                Some(Hsi::Mhz64) => Some(Hsidiv::DIV1),
                Some(Hsi::Mhz32) => Some(Hsidiv::DIV2),
                Some(Hsi::Mhz16) => Some(Hsidiv::DIV4),
                Some(Hsi::Mhz8) => Some(Hsidiv::DIV8),
            }
            &&& p.hse_bypass == match config.hse {
                None => None,
                Some(h) => Some(h.mode == HseMode::Bypass),
            }
            &&& p.hsi48 == config.hsi48
            &&& p.d1c_pre == config.d1c_pre
            &&& p.ahb_pre == config.ahb_pre
            &&& p.apb1_pre == config.apb1_pre
            &&& p.apb2_pre == config.apb2_pre
            &&& p.apb3_pre == config.apb3_pre
            &&& p.apb4_pre == config.apb4_pre
            &&& p.per_clock_source == config.per_clock_source
            &&& p.adc_clock_source == config.adc_clock_source
            &&& p.timpre == (if config.timer_prescaler == TimerPrescaler::DefaultX2 {
                Timpre::DEFAULTX2
            } else {
                Timpre::DEFAULTX4
            })
            &&& p.sw == match config.sys {
                Sysclk::HSI => Sw::HSI,
                Sysclk::HSE => Sw::HSE,
                Sysclk::CSI => Sw::CSI,
                Sysclk::Pll1P => Sw::PLL1,
            }
            &&& p.flash == flash_table(config.voltage_scale, p.clocks.ahb1.0)
            &&& p.clocks == clocks_of(config)
        }),
{
}

/// The prescalers divide by their names: HPRE and D1CPRE by 1, 2, 4, 8, 16,
/// 64, 128, 256 or 512, the APB prescalers by 1, 2, 4, 8 or 16.
pub proof fn lemma_prescaler_divisors(ahb: AHBPrescaler, apb: APBPrescaler)
    ensures
        ahb == AHBPrescaler::DIV1 ==> ahb.spec_divisor() == 1,
        ahb == AHBPrescaler::DIV2 ==> ahb.spec_divisor() == 2,
        ahb == AHBPrescaler::DIV4 ==> ahb.spec_divisor() == 4,
        ahb == AHBPrescaler::DIV8 ==> ahb.spec_divisor() == 8,
        ahb == AHBPrescaler::DIV16 ==> ahb.spec_divisor() == 16,
        ahb == AHBPrescaler::DIV64 ==> ahb.spec_divisor() == 64,
        ahb == AHBPrescaler::DIV128 ==> ahb.spec_divisor() == 128,
        ahb == AHBPrescaler::DIV256 ==> ahb.spec_divisor() == 256,
        ahb == AHBPrescaler::DIV512 ==> ahb.spec_divisor() == 512,
        apb == APBPrescaler::DIV1 ==> apb.spec_divisor() == 1,
        apb == APBPrescaler::DIV2 ==> apb.spec_divisor() == 2,
        apb == APBPrescaler::DIV4 ==> apb.spec_divisor() == 4,
        apb == APBPrescaler::DIV8 ==> apb.spec_divisor() == 8,
        apb == APBPrescaler::DIV16 ==> apb.spec_divisor() == 16,
{
}

/// A configuration with a PLL that cannot run reports the first such PLL
/// (PLL1, then PLL2, then PLL3) with its reason.
pub proof fn lemma_plan_pll_errors(config: Config)
    ensures
        ({
            let osc = oscillators(config);
            &&& (config.pll1 matches Some(p) && pll_failure(0, p, osc) is Some)
                ==> plan_failure(config) == Some(InitError::Pll1(pll_failure(0, config.pll1.unwrap(), osc).unwrap()))
            &&& pll_ok(0, config.pll1, osc) && (config.pll2 matches Some(p) && pll_failure(1, p, osc) is Some)
                ==> plan_failure(config) == Some(InitError::Pll2(pll_failure(1, config.pll2.unwrap(), osc).unwrap()))
            &&& pll_ok(0, config.pll1, osc) && pll_ok(1, config.pll2, osc) && (config.pll3 matches Some(p) && pll_failure(2, p, osc) is Some)
                ==> plan_failure(config) == Some(InitError::Pll3(pll_failure(2, config.pll3.unwrap(), osc).unwrap()))
        }),
{
    lemma_oscillator_frequencies(config);
}

/// A configuration whose PLLs can all run reports, when it cannot be
/// brought up, the first problem: a system clock source that does not run,
/// then the first of the D1 core, AHB, APB1, APB2, APB3 and APB4 clocks
/// above its limit (with its frequency), then a switched-off peripheral
/// clock source.
pub proof fn lemma_plan_limit_errors(config: Config)
    requires
        pll_ok(0, config.pll1, oscillators(config)),
        pll_ok(1, config.pll2, oscillators(config)),
        pll_ok(2, config.pll3, oscillators(config)),
    ensures
        ({
            let sys = wanted_sys(config);
            let s = sys.unwrap().0 as int;
            let d1c = s / (config.d1c_pre.spec_divisor() as int);
            let h = s / (config.ahb_pre.spec_divisor() as int);
            let a1 = h / (config.apb1_pre.spec_divisor() as int);
            let a2 = h / (config.apb2_pre.spec_divisor() as int);
            let a3 = h / (config.apb3_pre.spec_divisor() as int);
            let a4 = h / (config.apb4_pre.spec_divisor() as int);
            let (l1, l2, l3) = limits(config.voltage_scale);
            &&& sys is None ==> plan_failure(config) == Some(InitError::SysclkSourceDisabled)
            &&& sys is Some && d1c > l1 ==> plan_failure(config) == Some(
                InitError::D1cpreClockTooHigh(d1c as u32),
            )
            &&& sys is Some && d1c <= l1 && h > l2 ==> plan_failure(config) == Some(
                InitError::HclkTooHigh(h as u32),
            )
            &&& sys is Some && d1c <= l1 && h <= l2 && a1 > l3 ==> plan_failure(config)
                == Some(InitError::Apb1TooHigh(a1 as u32))
            &&& sys is Some && d1c <= l1 && h <= l2 && a1 <= l3 && a2 > l3
                ==> plan_failure(config) == Some(InitError::Apb2TooHigh(a2 as u32))
            &&& sys is Some && d1c <= l1 && h <= l2 && a1 <= l3 && a2 <= l3 && a3 > l3
                ==> plan_failure(config) == Some(InitError::Apb3TooHigh(a3 as u32))
            &&& sys is Some && d1c <= l1 && h <= l2 && a1 <= l3 && a2 <= l3 && a3 <= l3
                && a4 > l3 ==> plan_failure(config) == Some(InitError::Apb4TooHigh(a4 as u32))
            &&& sys is Some && d1c <= l1 && h <= l2 && a1 <= l3 && a2 <= l3 && a3 <= l3
                && a4 <= l3 && config.per_clock_source == PerClockSource::DISABLE
                ==> plan_failure(config) == Some(InitError::PerClockDisabled)
        }),
{
    lemma_plls_ok(config);
    lemma_sys_choice(config);
    let sys = wanted_sys(config);
    if sys is Some {
        lemma_bus_quotients(config, sys.unwrap());
    }
}

} // verus!
