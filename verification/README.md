# stm32h7_rcc

Clock-tree planning for the RCC (reset and clock control) block of the
STM32H742/743/750/753 microcontrollers, verified with Verus.

- `src/` is the verified library. `clocks::plan_clocks` turns a
  `config::Config` into an `InitPlan`: the frequency of every bus clock and
  every register value that brings the clock tree up, or the first reason the
  configuration cannot be used. `pll::init_pll`, `flash::flash_setup` and
  `clocks::apb_div_tim` are its building blocks. `laws` holds the properties
  proved of every configuration (voltage-scale limits, VCO ranges, flash
  wait-state monotonicity, timer clock bounds, ...).
- `app/` performs the plan on the hardware through the `RccRegisters` trait,
  in the order the reference manual asks for, starts the low-speed domain
  through the `LowSpeedConfig` trait, hands its RTC clock to
  `clocks::finish_clocks`, and uses `critical-section` around the SYSCFG
  writes.
- `tests/` exercises the library on concrete configurations.
