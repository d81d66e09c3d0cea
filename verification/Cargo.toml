[package]
name = "at32f4xx_hal"
version = "0.1.0"
edition = "2021"
publish = false

[dependencies]
at32f4xx-pac = { version = "=0.4.0", features = ["at32f415"] }
cortex-m = "=0.7.10"
embedded-hal = "=1.0.0"
embedded-hal-nb = "=1.0.0"
embedded-io = "=0.7.1"
embedded-storage = "=0.3.2"
fugit = "=0.4.0"
fugit-timer = "=0.2.0"
nb = "=1.1.0"
