//! Clock-tree planning for the reset and clock control (RCC) block of the
//! STM32H742/743/750/753 microcontrollers.
//!
//! The library turns a [`config::Config`] into the frequencies of every bus
//! and the register values that bring the clock tree up, and states, in its
//! contracts, the frequency equations and the voltage-scale limits that the
//! hardware imposes.
pub mod time;
pub mod vals;
pub mod config;
pub mod pll;
pub mod flash;
pub mod clocks;
pub mod laws;
