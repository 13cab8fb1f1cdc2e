[package]
name = "discovery32l476"
version = "0.1.0"
edition = "2021"
publish = false

[dependencies]
stm32l4xx-hal = { version = "=0.7.1", features = ["stm32l476"] }
mfxstm32l152 = "=0.0.1"
