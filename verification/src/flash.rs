//! Flash wait states for a given AXI clock and voltage scale.
use vstd::prelude::*;
use crate::config::VoltageScale;
use crate::time::Hertz;

verus! {

/// The flash access control fields: read latency (wait states) and
/// programming delay.
#[derive(Clone, Copy, Debug, PartialEq, Eq, Structural)]
pub struct FlashSetting {
    /// LATENCY: number of wait states.
    pub latency: u8,
    /// WRHIGHFREQ: programming delay.
    pub wrhighfreq: u8,
}

/// The highest AXI clock, in hertz, that the flash table covers for a
/// voltage scale.
pub open spec fn flash_clk_max(vos: VoltageScale) -> u32 {
    match vos {
        VoltageScale::Scale0 => 240_000_000,
        VoltageScale::Scale1 => 225_000_000,
        VoltageScale::Scale2 => 224_000_000,
        VoltageScale::Scale3 => 224_000_000,
    }
}

/// The flash setting required at AXI clock `clk` (in hertz) under voltage
/// scale `vos`.
pub open spec fn flash_table(vos: VoltageScale, clk: u32) -> FlashSetting {
    let (latency, wrhighfreq): (u8, u8) = match vos {
        // VOS 0 range VCORE 1.26V - 1.40V
        VoltageScale::Scale0 => if clk <= 70_000_000 {
            (0, 0)
        } else if clk <= 140_000_000 {
            (1, 1)
        } else if clk <= 185_000_000 {
            (2, 1)
        } else if clk <= 210_000_000 {
            (2, 2)
        } else if clk <= 225_000_000 {
            (3, 2)
        } else {
            (4, 2)
        },
        // VOS 1 range VCORE 1.15V - 1.26V
        VoltageScale::Scale1 => if clk <= 70_000_000 {
            (0, 0)
        } else if clk <= 140_000_000 {
            (1, 1)
        } else if clk <= 185_000_000 {
            (2, 1)
        } else if clk <= 210_000_000 {
            (2, 2)
        } else {
            (3, 2)
        },
        // VOS 2 range VCORE 1.05V - 1.15V
        VoltageScale::Scale2 => if clk <= 55_000_000 {
            (0, 0)
        } else if clk <= 110_000_000 {
            (1, 1)
        } else if clk <= 165_000_000 {
            (2, 1)
        } else {
            (3, 2)
        },
        // VOS 3 range VCORE 0.95V - 1.05V
        VoltageScale::Scale3 => if clk <= 45_000_000 {
            (0, 0)
        } else if clk <= 90_000_000 {
            (1, 1)
        } else if clk <= 135_000_000 {
            (2, 1)
        } else if clk <= 180_000_000 {
            (3, 2)
        } else {
            (4, 2)
        },
    };
    FlashSetting { latency, wrhighfreq }
}

/// The flash wait states and programming delay for AXI clock `clk` under
/// voltage scale `vos`, which the flash access control register receives.
pub fn flash_setup(clk: Hertz, vos: VoltageScale) -> (r: FlashSetting)
    requires
        clk.0 <= flash_clk_max(vos),
    ensures
        r == flash_table(vos, clk.0),
{
    let c = clk.0;
    let (latency, wrhighfreq): (u8, u8) = match vos {
        // VOS 0 range VCORE 1.26V - 1.40V
        VoltageScale::Scale0 => if c <= 70_000_000 {
            (0, 0)
        } else if c <= 140_000_000 {
            (1, 1)
        } else if c <= 185_000_000 {
            (2, 1)
        } else if c <= 210_000_000 {
            (2, 2)
        } else if c <= 225_000_000 {
            (3, 2)
        } else {
            (4, 2)
        },
        // VOS 1 range VCORE 1.15V - 1.26V
        VoltageScale::Scale1 => if c <= 70_000_000 {
            (0, 0)
        } else if c <= 140_000_000 {
            (1, 1)
        } else if c <= 185_000_000 {
            (2, 1)
        } else if c <= 210_000_000 {
            (2, 2)
        } else {
            (3, 2)
        },
        // VOS 2 range VCORE 1.05V - 1.15V
        VoltageScale::Scale2 => if c <= 55_000_000 {
            (0, 0)
        } else if c <= 110_000_000 {
            (1, 1)
        } else if c <= 165_000_000 {
            (2, 1)
        } else {
            (3, 2)
        },
        // VOS 3 range VCORE 0.95V - 1.05V
        VoltageScale::Scale3 => if c <= 45_000_000 {
            (0, 0)
        } else if c <= 90_000_000 {
            (1, 1)
        } else if c <= 135_000_000 {
            (2, 1)
        } else if c <= 180_000_000 {
            (3, 2)
        } else {
            (4, 2)
        },
    };
    FlashSetting { latency, wrhighfreq }
}

} // verus!
