[package]
name = "stm32f3_adc"
version = "0.1.0"
edition = "2021"
publish = false

[dependencies]
cortex-m = "0.7"
embedded-hal = { version = "0.2.7", features = ["unproven"] }
nb = "1"
stm32f3 = { version = "0.13", features = ["stm32f303"] }
