[package]
name = "stm32h7_rcc"
version = "0.1.0"
edition = "2021"
publish = false

[dependencies]
critical-section = { version = "1.1", features = ["std"] }
