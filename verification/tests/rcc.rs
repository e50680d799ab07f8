use stm32h7_rcc::clocks::{apb_div_tim, finish_clocks, plan_clocks, InitError};
use stm32h7_rcc::config::{
    Config, Hse, HseMode, Hsi, Pll, PllSource, Sysclk, TimerPrescaler, VoltageScale,
};
use stm32h7_rcc::flash::{flash_setup, FlashSetting};
use stm32h7_rcc::pll::{init_pll, PllError, PllInput, PllRegisters};
use stm32h7_rcc::time::Hertz;
use stm32h7_rcc::vals::{
    AHBPrescaler, APBPrescaler, AdcClockSource, Hsidiv, PerClockSource, PllDiv, PllMul,
    PllPreDiv, Pllrge, Pllsrc, Pllvcosel, Sw, Timpre, Vos,
};

fn hse_input(freq: u32) -> PllInput {
    PllInput { hsi: None, hse: Some(Hertz(freq)), csi: None, source: PllSource::Hse }
}

fn pll(prediv: u8, mul: u16, divp: Option<u8>, divq: Option<u8>, divr: Option<u8>) -> Pll {
    Pll {
        prediv: PllPreDiv::from_bits(prediv),
        mul: PllMul::from_bits(mul - 1),
        divp: divp.map(|d| PllDiv::from_bits(d - 1)),
        divq: divq.map(|d| PllDiv::from_bits(d - 1)),
        divr: divr.map(|d| PllDiv::from_bits(d - 1)),
    }
}

/// 25 MHz HSE, PLL1 at 800 MHz VCO, 400 MHz system clock.
fn fast_config() -> Config {
    let mut c = Config::default();
    c.hse = Some(Hse { freq: Hertz(25_000_000), mode: HseMode::Oscillator });
    c.pll_src = PllSource::Hse;
    c.pll1 = Some(pll(5, 160, Some(2), Some(4), None));
    c.pll2 = Some(pll(5, 80, Some(4), None, Some(8)));
    c.sys = Sysclk::Pll1P;
    c.d1c_pre = AHBPrescaler::DIV1;
    c.ahb_pre = AHBPrescaler::DIV2;
    c.apb1_pre = APBPrescaler::DIV2;
    c.apb2_pre = APBPrescaler::DIV2;
    c.apb3_pre = APBPrescaler::DIV2;
    c.apb4_pre = APBPrescaler::DIV2;
    c.voltage_scale = VoltageScale::Scale1;
    c
}

#[test]
fn default_config_runs_on_hsi_at_64_mhz() {
    let plan = plan_clocks(&Config::default()).unwrap();
    let c = plan.clocks;
    assert_eq!(c.sys, Hertz(64_000_000));
    for f in [c.ahb1, c.ahb2, c.ahb3, c.ahb4, c.apb1, c.apb2, c.apb3, c.apb4] {
        assert_eq!(f, Hertz(64_000_000));
    }
    assert_eq!(c.apb1_tim, Hertz(64_000_000));
    assert_eq!(c.apb2_tim, Hertz(64_000_000));
    assert_eq!(c.adc, None);
    assert_eq!(plan.sw, Sw::HSI);
    assert_eq!(plan.hsi, Some(Hsidiv::DIV1));
    assert_eq!(plan.hse_bypass, None);
    assert_eq!(plan.vos, Vos::SCALE1);
    assert!(plan.overdrive);
    assert_eq!(plan.pll1, PllRegisters::Off);
    assert_eq!(plan.pll2, PllRegisters::Off);
    assert_eq!(plan.pll3, PllRegisters::Off);
    assert_eq!(plan.flash, FlashSetting { latency: 0, wrhighfreq: 0 });
    assert_eq!(plan.timpre, Timpre::DEFAULTX2);
    assert!(!plan.compensation_cell);
}

#[test]
fn hsi_settings_give_their_frequencies() {
    let cases = [
        (Hsi::Mhz64, 64_000_000, Hsidiv::DIV1),
        (Hsi::Mhz32, 32_000_000, Hsidiv::DIV2),
        (Hsi::Mhz16, 16_000_000, Hsidiv::DIV4),
        (Hsi::Mhz8, 8_000_000, Hsidiv::DIV8),
    ];
    for (hsi, freq, div) in cases {
        let mut c = Config::default();
        c.hsi = Some(hsi);
        let plan = plan_clocks(&c).unwrap();
        assert_eq!(plan.clocks.sys, Hertz(freq));
        assert_eq!(plan.hsi, Some(div));
    }
}

#[test]
fn pll_driven_system_clock() {
    let plan = plan_clocks(&fast_config()).unwrap();
    let c = plan.clocks;
    assert_eq!(c.sys, Hertz(400_000_000));
    assert_eq!(c.ahb1, Hertz(200_000_000));
    assert_eq!(c.apb1, Hertz(100_000_000));
    assert_eq!(c.apb4, Hertz(100_000_000));
    // DefaultX2 with APB divider 2: timers run at the AHB clock.
    assert_eq!(c.apb1_tim, Hertz(200_000_000));
    // ADC from PLL2 P: 25 / 5 * 80 / 4 = 100 MHz.
    assert_eq!(c.adc, Some(Hertz(100_000_000)));
    assert_eq!(plan.sw, Sw::PLL1);
    assert_eq!(plan.vos, Vos::SCALE1);
    assert!(!plan.overdrive);
    assert_eq!(plan.hse_bypass, Some(false));
    assert_eq!(plan.flash, FlashSetting { latency: 2, wrhighfreq: 2 });
    match plan.pll1 {
        PllRegisters::On(s) => {
            assert_eq!(s.src, Pllsrc::HSE);
            assert_eq!(s.rge, Pllrge::RANGE4);
            assert_eq!(s.vcosel, Pllvcosel::WIDEVCO);
            assert!(s.divpen && s.divqen && !s.divren);
            assert_eq!(s.pllr, PllDiv::from_bits(1));
        }
        PllRegisters::Off => panic!("PLL1 should run"),
    }
    assert_eq!(plan.pll3, PllRegisters::Off);
}

#[test]
fn hse_bypass_mode_sets_bypass_bit() {
    let mut c = Config::default();
    c.hse = Some(Hse { freq: Hertz(8_000_000), mode: HseMode::Bypass });
    c.sys = Sysclk::HSE;
    let plan = plan_clocks(&c).unwrap();
    assert_eq!(plan.hse_bypass, Some(true));
    assert_eq!(plan.clocks.sys, Hertz(8_000_000));
    assert_eq!(plan.sw, Sw::HSE);
}

#[test]
fn csi_enables_compensation_cell() {
    let mut c = Config::default();
    c.csi = true;
    c.sys = Sysclk::CSI;
    let plan = plan_clocks(&c).unwrap();
    assert!(plan.csi);
    assert!(plan.compensation_cell);
    assert_eq!(plan.clocks.sys, Hertz(4_000_000));
    assert_eq!(plan.sw, Sw::CSI);
}

#[test]
fn sysclk_from_stopped_oscillator_is_refused() {
    let mut c = Config::default();
    c.sys = Sysclk::HSE;
    assert_eq!(plan_clocks(&c), Err(InitError::SysclkSourceDisabled));
    let mut c = Config::default();
    c.sys = Sysclk::Pll1P;
    assert_eq!(plan_clocks(&c), Err(InitError::SysclkSourceDisabled));
}

#[test]
fn pll_errors_are_reported_per_pll() {
    let mut c = Config::default();
    c.pll_src = PllSource::Csi;
    c.pll2 = Some(pll(1, 100, Some(2), None, None));
    assert_eq!(plan_clocks(&c), Err(InitError::Pll2(PllError::SourceDisabled)));
    let mut c = fast_config();
    c.pll3 = Some(pll(1, 100, Some(2), None, None));
    assert_eq!(plan_clocks(&c), Err(InitError::Pll3(PllError::RefClockOutOfRange(25_000_000))));
    let mut c = fast_config();
    c.pll1 = Some(pll(5, 160, Some(3), None, None));
    assert_eq!(plan_clocks(&c), Err(InitError::Pll1(PllError::OddPll1Divp)));
}

#[test]
fn voltage_scale_limits_are_enforced() {
    let mut c = fast_config();
    c.voltage_scale = VoltageScale::Scale3;
    assert_eq!(plan_clocks(&c), Err(InitError::D1cpreClockTooHigh(400_000_000)));
    let mut c = fast_config();
    c.ahb_pre = AHBPrescaler::DIV1;
    assert_eq!(plan_clocks(&c), Err(InitError::HclkTooHigh(400_000_000)));
    let mut c = fast_config();
    c.apb1_pre = APBPrescaler::DIV1;
    assert_eq!(plan_clocks(&c), Err(InitError::Apb1TooHigh(200_000_000)));
    let mut c = fast_config();
    c.apb2_pre = APBPrescaler::DIV1;
    assert_eq!(plan_clocks(&c), Err(InitError::Apb2TooHigh(200_000_000)));
    let mut c = fast_config();
    c.apb3_pre = APBPrescaler::DIV1;
    assert_eq!(plan_clocks(&c), Err(InitError::Apb3TooHigh(200_000_000)));
    let mut c = fast_config();
    c.apb4_pre = APBPrescaler::DIV1;
    assert_eq!(plan_clocks(&c), Err(InitError::Apb4TooHigh(200_000_000)));
}

#[test]
fn disabled_peripheral_clock_is_refused() {
    let mut c = Config::default();
    c.per_clock_source = PerClockSource::DISABLE;
    assert_eq!(plan_clocks(&c), Err(InitError::PerClockDisabled));
}

#[test]
fn adc_clock_follows_its_source() {
    let mut c = fast_config();
    c.adc_clock_source = AdcClockSource::PER;
    c.per_clock_source = PerClockSource::HSE;
    assert_eq!(plan_clocks(&c).unwrap().clocks.adc, Some(Hertz(25_000_000)));
    c.adc_clock_source = AdcClockSource::PLL3_R;
    assert_eq!(plan_clocks(&c).unwrap().clocks.adc, None);
}

#[test]
fn stopped_pll_has_no_outputs() {
    let r = init_pll(1, None, &hse_input(25_000_000)).unwrap();
    assert_eq!(r.registers, PllRegisters::Off);
    assert_eq!(r.output.p, None);
    assert_eq!(r.output.q, None);
    assert_eq!(r.output.r, None);
}

#[test]
fn pll_outputs_divide_the_vco() {
    let r = init_pll(1, Some(pll(5, 160, Some(3), Some(4), Some(5))), &hse_input(25_000_000))
        .unwrap();
    assert_eq!(r.output.p, Some(Hertz(266_666_666)));
    assert_eq!(r.output.q, Some(Hertz(200_000_000)));
    assert_eq!(r.output.r, Some(Hertz(160_000_000)));
}

#[test]
fn pll_ref_ranges() {
    let cases = [(1, 1_999_999u32, Pllrge::RANGE1), (1, 2_000_000, Pllrge::RANGE2),
        (1, 4_000_000, Pllrge::RANGE4), (1, 8_000_000, Pllrge::RANGE8),
        (1, 16_000_000, Pllrge::RANGE8)];
    for (div, freq, rge) in cases {
        // Multiplier chosen to land in the medium VCO range.
        let mul = (300_000_000 / freq) as u16;
        let r = init_pll(2, Some(pll(div, mul, None, None, Some(2))), &hse_input(freq)).unwrap();
        match r.registers {
            PllRegisters::On(s) => {
                assert_eq!(s.rge, rge);
                assert_eq!(s.vcosel, Pllvcosel::MEDIUMVCO);
            }
            PllRegisters::Off => panic!("PLL should run"),
        }
    }
    assert_eq!(
        init_pll(2, Some(pll(1, 20, None, None, None)), &hse_input(16_000_001)),
        Err(PllError::RefClockOutOfRange(16_000_001))
    );
}

#[test]
fn pll_vco_ranges() {
    // 1 MHz reference: only the medium range is allowed.
    assert!(init_pll(1, Some(pll(1, 200, None, None, None)), &hse_input(1_000_000)).is_ok());
    assert_eq!(
        init_pll(1, Some(pll(1, 500, None, None, None)), &hse_input(1_000_000)),
        Err(PllError::VcoOutOfRange(500_000_000))
    );
    // 2 MHz reference: 500 MHz is in the wide range.
    let r = init_pll(1, Some(pll(1, 250, None, None, None)), &hse_input(2_000_000)).unwrap();
    match r.registers {
        PllRegisters::On(s) => assert_eq!(s.vcosel, Pllvcosel::WIDEVCO),
        PllRegisters::Off => panic!("PLL should run"),
    }
    assert_eq!(
        init_pll(1, Some(pll(1, 100, None, None, None)), &hse_input(1_000_000)),
        Err(PllError::VcoOutOfRange(100_000_000))
    );
    assert_eq!(
        init_pll(1, Some(pll(1, 500, None, None, None)), &hse_input(2_000_000)),
        Err(PllError::VcoOutOfRange(1_000_000_000))
    );
    // A product that does not fit 32 bits is out of range as well.
    assert_eq!(
        init_pll(1, Some(pll(1, 512, None, None, None)), &hse_input(16_000_000)),
        Err(PllError::VcoOutOfRange(8_192_000_000))
    );
}

#[test]
fn pll_prescaler_zero_and_missing_source() {
    assert_eq!(
        init_pll(0, Some(pll(0, 100, None, None, None)), &hse_input(8_000_000)),
        Err(PllError::PrescalerOff)
    );
    let input = PllInput { hsi: Some(Hertz(64_000_000)), hse: None, csi: None, source: PllSource::Csi };
    assert_eq!(
        init_pll(0, Some(pll(4, 100, None, None, None)), &input),
        Err(PllError::SourceDisabled)
    );
}

#[test]
fn pll1_needs_even_p_divider() {
    let input = hse_input(25_000_000);
    assert_eq!(init_pll(0, Some(pll(5, 160, Some(1), None, None)), &input), Err(PllError::OddPll1Divp));
    assert_eq!(init_pll(0, Some(pll(5, 160, Some(3), None, None)), &input), Err(PllError::OddPll1Divp));
    assert!(init_pll(0, Some(pll(5, 160, Some(2), None, None)), &input).is_ok());
    // PLL2 and PLL3 take odd dividers.
    assert!(init_pll(1, Some(pll(5, 160, Some(3), None, None)), &input).is_ok());
    // Odd Q and R dividers are fine on PLL1.
    assert!(init_pll(0, Some(pll(5, 160, None, Some(3), Some(5))), &input).is_ok());
}

#[test]
fn flash_table_points() {
    assert_eq!(flash_setup(Hertz(70_000_000), VoltageScale::Scale0), FlashSetting { latency: 0, wrhighfreq: 0 });
    assert_eq!(flash_setup(Hertz(70_000_001), VoltageScale::Scale0), FlashSetting { latency: 1, wrhighfreq: 1 });
    assert_eq!(flash_setup(Hertz(200_000_000), VoltageScale::Scale0), FlashSetting { latency: 2, wrhighfreq: 2 });
    assert_eq!(flash_setup(Hertz(240_000_000), VoltageScale::Scale0), FlashSetting { latency: 4, wrhighfreq: 2 });
    assert_eq!(flash_setup(Hertz(225_000_000), VoltageScale::Scale1), FlashSetting { latency: 3, wrhighfreq: 2 });
    assert_eq!(flash_setup(Hertz(55_000_000), VoltageScale::Scale2), FlashSetting { latency: 0, wrhighfreq: 0 });
    assert_eq!(flash_setup(Hertz(224_000_000), VoltageScale::Scale2), FlashSetting { latency: 3, wrhighfreq: 2 });
    assert_eq!(flash_setup(Hertz(136_000_000), VoltageScale::Scale3), FlashSetting { latency: 3, wrhighfreq: 2 });
    assert_eq!(flash_setup(Hertz(224_000_000), VoltageScale::Scale3), FlashSetting { latency: 4, wrhighfreq: 2 });
}

#[test]
fn flash_latency_never_drops_with_frequency() {
    for vos in [VoltageScale::Scale0, VoltageScale::Scale1, VoltageScale::Scale2, VoltageScale::Scale3] {
        let mut prev = FlashSetting { latency: 0, wrhighfreq: 0 };
        let mut f = 0u32;
        while f <= 224_000_000 {
            let s = flash_setup(Hertz(f), vos);
            assert!(s.latency >= prev.latency && s.wrhighfreq >= prev.wrhighfreq);
            prev = s;
            f += 1_000_000;
        }
    }
}

#[test]
fn timer_clocks() {
    let clk = Hertz(200_000_000);
    let x2 = TimerPrescaler::DefaultX2;
    let x4 = TimerPrescaler::DefaultX4;
    assert_eq!(apb_div_tim(&APBPrescaler::DIV1, clk, x2), clk);
    assert_eq!(apb_div_tim(&APBPrescaler::DIV2, clk, x2), clk);
    assert_eq!(apb_div_tim(&APBPrescaler::DIV4, clk, x2), Hertz(100_000_000));
    assert_eq!(apb_div_tim(&APBPrescaler::DIV8, clk, x2), Hertz(50_000_000));
    assert_eq!(apb_div_tim(&APBPrescaler::DIV16, clk, x2), Hertz(25_000_000));
    assert_eq!(apb_div_tim(&APBPrescaler::DIV4, clk, x4), clk);
    assert_eq!(apb_div_tim(&APBPrescaler::DIV8, clk, x4), Hertz(100_000_000));
    assert_eq!(apb_div_tim(&APBPrescaler::DIV16, clk, x4), Hertz(50_000_000));
    // Timer clock is twice (or four times) the APB clock past the threshold.
    for apb in [APBPrescaler::DIV4, APBPrescaler::DIV8, APBPrescaler::DIV16] {
        let pclk = clk.0 / apb.divisor();
        assert_eq!(apb_div_tim(&apb, clk, x2).0, 2 * pclk);
    }
}

#[test]
fn timer_prescaler_into_register_value() {
    assert_eq!(Timpre::from(TimerPrescaler::DefaultX2), Timpre::DEFAULTX2);
    assert_eq!(Timpre::from(TimerPrescaler::DefaultX4), Timpre::DEFAULTX4);
}

#[test]
fn register_field_widths() {
    assert_eq!(PllPreDiv::from_bits(65).to_bits(), 1);
    assert_eq!(PllMul::from_bits(513).to_bits(), 1);
    assert_eq!(PllMul::from_bits(159).multiplier(), 160);
    assert_eq!(PllDiv::from_bits(129).to_bits(), 1);
    assert_eq!(PllDiv::from_bits(1).divider(), 2);
    assert_eq!(AHBPrescaler::DIV512.divisor(), 512);
}

#[test]
fn bus_clocks_never_exceed_their_parent() {
    let plan = plan_clocks(&fast_config()).unwrap();
    let c = plan.clocks;
    assert!(c.ahb1.0 <= c.sys.0);
    for f in [c.apb1, c.apb2, c.apb3, c.apb4] {
        assert!(f.0 <= c.ahb1.0);
    }
    assert!(c.apb1_tim.0 >= c.apb1.0 && c.apb1_tim.0 <= c.ahb1.0);
}

#[test]
fn reported_clocks_carry_the_rtc_clock() {
    let plan = plan_clocks(&fast_config()).unwrap();
    let with_lse = finish_clocks(&plan, Some(Hertz(32_768)));
    assert_eq!(with_lse.rtc, Some(Hertz(32_768)));
    assert_eq!(with_lse.sys, plan.clocks.sys);
    assert_eq!(with_lse.ahb1, plan.clocks.ahb1);
    assert_eq!(with_lse.apb4, plan.clocks.apb4);
    assert_eq!(with_lse.apb2_tim, plan.clocks.apb2_tim);
    assert_eq!(with_lse.adc, plan.clocks.adc);
    assert_eq!(finish_clocks(&plan, None).rtc, None);
}

#[test]
fn pll_fields_keep_their_widths() {
    assert_eq!(PllPreDiv::from_bits(64).to_bits(), 0);
    // 599 does not fit the 9-bit multiplier field: it keeps 87, a factor of 88.
    assert_eq!(PllMul::from_bits(599).multiplier(), 88);
    assert_eq!(PllDiv::from_bits(200).divider(), 73);
    // A reference divider of 64 masks to 0, which stops the reference.
    assert_eq!(
        init_pll(1, Some(pll(64, 100, None, None, None)), &hse_input(8_000_000)),
        Err(PllError::PrescalerOff)
    );
}
