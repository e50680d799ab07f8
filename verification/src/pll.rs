//! Setting up one of the three PLLs.
use vstd::prelude::*;
use crate::config::{Pll, PllSource};
use crate::time::Hertz;
use crate::vals::{PllDiv, PllMul, PllPreDiv, Pllrge, Pllsrc, Pllvcosel};

verus! {

/// Lowest VCO frequency of the medium VCO range, in hertz.
pub const VCO_MIN: u64 = 150_000_000;

/// Highest VCO frequency of the medium VCO range, in hertz.
pub const VCO_MAX: u64 = 420_000_000;

/// Lowest VCO frequency of the wide VCO range, in hertz.
pub const VCO_WIDE_MIN: u64 = 192_000_000;

/// Highest VCO frequency of the wide VCO range, in hertz.
pub const VCO_WIDE_MAX: u64 = 960_000_000;

/// Highest PLL reference clock (input clock after DIVM), in hertz.
pub const REF_CLK_MAX: u32 = 16_000_000;

/// The oscillators that can feed the PLLs, with the frequency of each one
/// that runs, and the one selected as PLL source.
#[derive(Clone, Copy, Debug, PartialEq, Eq, Structural)]
pub struct PllInput {
    pub hsi: Option<Hertz>,
    pub hse: Option<Hertz>,
    pub csi: Option<Hertz>,
    pub source: PllSource,
}

/// The frequencies of the three outputs of a PLL; `None` for a disabled
/// output.
#[derive(Clone, Copy, Debug, PartialEq, Eq, Structural)]
pub struct PllOutput {
    pub p: Option<Hertz>,
    pub q: Option<Hertz>,
    pub r: Option<Hertz>,
}

/// The register fields of a running PLL.
#[derive(Clone, Copy, Debug, PartialEq, Eq, Structural)]
pub struct PllSettings {
    /// DIVMx
    pub divm: PllPreDiv,
    /// PLLSRC
    pub src: Pllsrc,
    /// PLLxVCOSEL
    pub vcosel: Pllvcosel,
    /// PLLxRGE
    pub rge: Pllrge,
    /// DIVPxEN, DIVQxEN, DIVRxEN
    pub divpen: bool,
    pub divqen: bool,
    pub divren: bool,
    /// DIVNx
    pub plln: PllMul,
    /// DIVPx, DIVQx, DIVRx (a disabled output keeps a division by 2)
    pub pllp: PllDiv,
    pub pllq: PllDiv,
    pub pllr: PllDiv,
}

/// What is written to a PLL's registers.
#[derive(Clone, Copy, Debug, PartialEq, Eq, Structural)]
pub enum PllRegisters {
    /// The PLL is stopped (PLLxON = 0) and its reference divider set to 0,
    /// which saves power.
    Off,
    /// The PLL is programmed with these fields, then started (PLLxON = 1).
    On(PllSettings),
}

/// The outcome of setting up a PLL: its output frequencies and its register
/// values.
#[derive(Clone, Copy, Debug, PartialEq, Eq, Structural)]
pub struct PllSetup {
    pub output: PllOutput,
    pub registers: PllRegisters,
}

/// Why a PLL configuration cannot be used.
#[derive(Clone, Copy, Debug, PartialEq, Eq, Structural)]
pub enum PllError {
    /// The oscillator selected as PLL source is not running.
    SourceDisabled,
    /// The reference divider is 0, which gives no reference clock.
    PrescalerOff,
    /// The reference clock (in hertz) is above 16 MHz.
    RefClockOutOfRange(u32),
    /// The VCO frequency (in hertz) lies in no VCO range allowed for the
    /// reference clock.
    VcoOutOfRange(u64),
    /// The P divider of PLL1 is odd; PLL1 needs an even one.
    OddPll1Divp,
}

/// The frequency of the oscillator selected as PLL source, if it runs.
pub open spec fn pll_input_clock(input: PllInput) -> Option<Hertz> {
    match input.source {
        PllSource::Hsi => input.hsi,
        PllSource::Hse => input.hse,
        PllSource::Csi => input.csi,
    }
}

/// The PLLSRC value for a PLL source.
pub open spec fn pllsrc_of(source: PllSource) -> Pllsrc {
    match source {
        PllSource::Hsi => Pllsrc::HSI,
        PllSource::Hse => Pllsrc::HSE,
        PllSource::Csi => Pllsrc::CSI,
    }
}

/// The input range that a reference clock falls in; none above 16 MHz.
pub open spec fn ref_range(ref_clk: u32) -> Option<Pllrge> {
    if ref_clk < 2_000_000 {
        Some(Pllrge::RANGE1)
    } else if ref_clk < 4_000_000 {
        Some(Pllrge::RANGE2)
    } else if ref_clk < 8_000_000 {
        Some(Pllrge::RANGE4)
    } else if ref_clk <= REF_CLK_MAX {
        Some(Pllrge::RANGE8)
    } else {
        None
    }
}

/// The VCO range chosen for a VCO frequency: the medium range (150 to 420
/// MHz) where it fits, else the wide one (192 to 960 MHz) where that is
/// allowed and it fits there.
pub open spec fn vco_range(vco: int, wide_allowed: bool) -> Option<Pllvcosel> {
    if VCO_MIN <= vco <= VCO_MAX {
        Some(Pllvcosel::MEDIUMVCO)
    } else if wide_allowed && VCO_WIDE_MIN <= vco <= VCO_WIDE_MAX {
        Some(Pllvcosel::WIDEVCO)
    } else {
        None
    }
}

/// The reference clock of a PLL: the input clock divided by DIVM.
pub open spec fn pll_ref_clk(in_clk: Hertz, config: Pll) -> u32 {
    (in_clk.0 / (config.prediv.bits() as u32)) as u32
}

/// The VCO frequency of a PLL: the reference clock times the multiplier.
pub open spec fn pll_vco(in_clk: Hertz, config: Pll) -> int {
    pll_ref_clk(in_clk, config) * config.mul.spec_multiplier()
}

/// The first reason, in the order they are checked, why `config` cannot run
/// as PLL number `num` (0 for PLL1) on `input`; none if it can.
pub open spec fn pll_failure(num: usize, config: Pll, input: PllInput) -> Option<PllError> {
    match pll_input_clock(input) {
        None => Some(PllError::SourceDisabled),
        Some(in_clk) => if config.prediv.bits() == 0 {
            Some(PllError::PrescalerOff)
        } else {
            let ref_clk = pll_ref_clk(in_clk, config);
            match ref_range(ref_clk) {
                None => Some(PllError::RefClockOutOfRange(ref_clk)),
                Some(rge) => {
                    let vco = pll_vco(in_clk, config);
                    match vco_range(vco, rge != Pllrge::RANGE1) {
                        None => Some(PllError::VcoOutOfRange(vco as u64)),
                        Some(_) => if num == 0 && (config.divp matches Some(d) && d.bits() % 2 == 0) {
                            Some(PllError::OddPll1Divp)
                        } else {
                            None
                        },
                    }
                },
            }
        },
    }
}

/// The frequency of a PLL output: the VCO frequency divided by the output's
/// divider, or none for a disabled output.
pub open spec fn pll_out(vco: int, div: Option<PllDiv>) -> Option<Hertz> {
    match div {
        Some(d) => Some(Hertz((vco / (d.spec_divider() as int)) as u32)),
        None => None,
    }
}

/// The setup of a PLL that passes every check.
pub open spec fn pll_running(config: Pll, input: PllInput) -> PllSetup {
    let in_clk = pll_input_clock(input).unwrap();
    let ref_clk = pll_ref_clk(in_clk, config);
    let rge = ref_range(ref_clk).unwrap();
    let vco = pll_vco(in_clk, config);
    PllSetup {
        output: PllOutput {
            p: pll_out(vco, config.divp),
            q: pll_out(vco, config.divq),
            r: pll_out(vco, config.divr),
        },
        registers: PllRegisters::On(
            PllSettings {
                divm: config.prediv,
                src: pllsrc_of(input.source),
                vcosel: vco_range(vco, rge != Pllrge::RANGE1).unwrap(),
                rge,
                divpen: config.divp is Some,
                divqen: config.divq is Some,
                divren: config.divr is Some,
                plln: config.mul,
                pllp: div_or_two(config.divp),
                pllq: div_or_two(config.divq),
                pllr: div_or_two(config.divr),
            },
        ),
    }
}

/// The divider written for an output: its own, or a division by 2 for a
/// disabled output.
pub open spec fn div_or_two(div: Option<PllDiv>) -> PllDiv {
    match div {
        Some(d) => d,
        None => PllDiv::spec_from_bits(1),
    }
}

/// The setup of a stopped PLL.
pub open spec fn pll_stopped() -> PllSetup {
    PllSetup { output: PllOutput { p: None, q: None, r: None }, registers: PllRegisters::Off }
}

/// What setting up PLL number `num` (0 for PLL1) with `config` on `input`
/// gives.
pub open spec fn pll_result(num: usize, config: Option<Pll>, input: PllInput) -> Result<
    PllSetup,
    PllError,
> {
    match config {
        None => Ok(pll_stopped()),
        Some(c) => match pll_failure(num, c, input) {
            Some(e) => Err(e),
            None => Ok(pll_running(c, input)),
        },
    }
}

fn output_freq(vco_clk: u32, div: Option<PllDiv>) -> (r: Option<Hertz>)
    ensures
        r == pll_out(vco_clk as int, div),
{
    match div {
        Some(d) => Some(Hertz(vco_clk / d.divider())),
        None => None,
    }
}

fn output_div(div: Option<PllDiv>) -> (r: PllDiv)
    ensures
        r == div_or_two(div),
{
    match div {
        Some(d) => d,
        None => PllDiv::from_bits(1),
    }
}

/// Works out PLL number `num` (0 for PLL1, 1 for PLL2, 2 for PLL3): stopped
/// when `config` is `None`, else its reference range, VCO range, output
/// frequencies and register fields, or why the configuration cannot run.
pub fn init_pll(num: usize, config: Option<Pll>, input: &PllInput) -> (r: Result<
    PllSetup,
    PllError,
>)
    requires
        num < 3,
    ensures
        r == pll_result(num, config, *input),
{
    let config = match config {
        None => {
            return Ok(
                PllSetup {
                    output: PllOutput { p: None, q: None, r: None },
                    registers: PllRegisters::Off,
                },
            );
        },
        Some(c) => c,
    };
    let (in_clk, src) = match input.source {
        PllSource::Hsi => match input.hsi {
            Some(f) => (f, Pllsrc::HSI),
            None => {
                return Err(PllError::SourceDisabled);
            },
        },
        PllSource::Hse => match input.hse {
            Some(f) => (f, Pllsrc::HSE),
            None => {
                return Err(PllError::SourceDisabled);
            },
        },
        PllSource::Csi => match input.csi {
            Some(f) => (f, Pllsrc::CSI),
            None => {
                return Err(PllError::SourceDisabled);
            },
        },
    };
    let prediv: u8 = config.prediv.to_bits();
    if prediv == 0 {
        return Err(PllError::PrescalerOff);
    }
    let ref_clk: u32 = in_clk.0 / (prediv as u32);
    let ref_rge = if ref_clk <= 1_999_999 {
        Pllrge::RANGE1
    } else if ref_clk <= 3_999_999 {
        Pllrge::RANGE2
    } else if ref_clk <= 7_999_999 {
        Pllrge::RANGE4
    } else if ref_clk <= REF_CLK_MAX {
        Pllrge::RANGE8
    } else {
        return Err(PllError::RefClockOutOfRange(ref_clk));
    };

    // The smaller range (150 to 420 MHz) must
    // be chosen when the reference clock frequency is lower than 2 MHz.
    let wide_allowed = ref_rge != Pllrge::RANGE1;

    let mul: u32 = config.mul.multiplier();
    assert((ref_clk as u64) * (mul as u64) <= 16_000_000 * 65536) by (nonlinear_arith)
        requires
            ref_clk <= 16_000_000,
            mul <= 65536,
    ;
    let vco: u64 = (ref_clk as u64) * (mul as u64);
    let vcosel = if VCO_MIN <= vco && vco <= VCO_MAX {
        Pllvcosel::MEDIUMVCO
    } else if wide_allowed && VCO_WIDE_MIN <= vco && vco <= VCO_WIDE_MAX {
        Pllvcosel::WIDEVCO
    } else {
        return Err(PllError::VcoOutOfRange(vco));
    };
    let vco_clk: u32 = vco as u32;

    if num == 0 {
        if let Some(div) = config.divp {
            // on PLL1, DIVP must be even.
            // The field value is 1 less than the divider, so check it's odd.
            if div.to_bits() % 2 != 1 {
                return Err(PllError::OddPll1Divp);
            }
        }
    }
    let p = output_freq(vco_clk, config.divp);
    let q = output_freq(vco_clk, config.divq);
    let r = output_freq(vco_clk, config.divr);

    Ok(
        PllSetup {
            output: PllOutput { p, q, r },
            registers: PllRegisters::On(
                PllSettings {
                    divm: config.prediv,
                    src,
                    vcosel,
                    rge: ref_rge,
                    divpen: config.divp.is_some(),
                    divqen: config.divq.is_some(),
                    divren: config.divr.is_some(),
                    plln: config.mul,
                    pllp: output_div(config.divp),
                    pllq: output_div(config.divq),
                    pllr: output_div(config.divr),
                },
            ),
        },
    )
}

} // verus!
