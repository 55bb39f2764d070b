[package]
name = "stopwatch_core"
version = "0.1.0"
edition = "2021"
publish = false

[dependencies]
cortex-m = "0.7"
cortex-m-rt = "0.7"
stm32f4 = { version = "0.15", features = ["stm32f429", "rt"] }
stm32f4xx-hal = { version = "0.20", features = ["stm32f429"] }
