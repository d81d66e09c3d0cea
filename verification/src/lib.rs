//! Verified peripheral logic for Artery AT32F4xx microcontrollers.
//!
//! Everything in this crate works on plain values: register contents are
//! integers, and a peripheral is reached through a small register-interface
//! trait that reads and writes named registers. The crate implements each
//! such trait for a block of plain memory; the implementations that touch
//! memory-mapped hardware live outside the crate.

pub mod bits;
pub mod i2c;
pub mod nb;
pub mod timer;
pub mod signature;
pub mod adc;
pub mod flash;
pub mod serial;
pub mod crm;
pub mod gpio;
pub mod qei;
