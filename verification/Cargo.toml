[package]
name = "uart_echo"
version = "0.1.0"
edition = "2021"
publish = false

[dependencies]
cortex-m-rt = "=0.7.7"
embedded-hal = "=0.2.7"
panic-halt = "=0.2.0"
stm32f4xx-hal = { version = "=0.13.2", features = ["stm32f401"] }
