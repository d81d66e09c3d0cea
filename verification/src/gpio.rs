//! General purpose input and output pins.
//!
//! The pins of a port share the port's registers, which a pin is handed when
//! it is to change its settings. The parts come in two register layouts: one
//! with a driver strength and a pull register ([`f4`]), one with
//! configuration registers of four bits for each pin ([`f1`]).

use core::marker::PhantomData;
use vstd::prelude::*;

pub mod f1;
pub mod f4;

verus! {

/// Push-pull output.
pub struct PushPull;

/// Open-drain output.
pub struct OpenDrain;

/// Input.
pub struct Input;

/// Analog input.
pub struct Analog;

/// A pin that is not there.
pub struct NoPin;

/// Slew rate of an output.
#[derive(Clone, Copy, Debug, PartialEq, Eq, Structural)]
pub enum Speed {
    Low,
    Medium,
    High,
    VeryHigh,
}

impl Speed {
    /// The value that stands for the speed in its register field.
    pub open spec fn spec_code(self) -> u32 {
        match self {
            Speed::Low => 0,
            Speed::Medium => 1,
            Speed::High => 2,
            Speed::VeryHigh => 3,
        }
    }

    #[verifier::when_used_as_spec(spec_code)]
    pub fn code(self) -> (c: u32)
        ensures
            c == self.spec_code(),
    {
        match self {
            Speed::Low => 0,
            Speed::Medium => 1,
            Speed::High => 2,
            Speed::VeryHigh => 3,
        }
    }
}

/// Internal resistor of a pin.
#[derive(Clone, Copy, Debug, PartialEq, Eq, Structural)]
pub enum Pull {
    /// No resistor.
    Floating,
    /// Resistor to the supply.
    Up,
    /// Resistor to ground.
    Down,
}

impl Pull {
    /// The value that stands for the resistor in the pull register.
    pub open spec fn spec_code(self) -> u32 {
        match self {
            Pull::Floating => 0,
            Pull::Up => 1,
            Pull::Down => 2,
        }
    }

    #[verifier::when_used_as_spec(spec_code)]
    pub fn code(self) -> (c: u32)
        ensures
            c == self.spec_code(),
    {
        match self {
            Pull::Floating => 0,
            Pull::Up => 1,
            Pull::Down => 2,
        }
    }
}

/// Registers of a port.
#[derive(Clone, Copy, Debug, PartialEq, Eq, Structural)]
pub enum Register {
    /// Configuration of pins 0 to 7.
    Cfglr,
    /// Configuration of pins 8 to 15.
    Cfghr,
    /// Output data.
    Odt,
    /// Driver strength.
    Odrvr,
    /// Pull resistors.
    Pull,
}

/// What the registers of a port hold.
#[derive(Clone, Copy, Debug, PartialEq, Eq, Structural)]
pub struct Registers {
    pub cfglr: u32,
    pub cfghr: u32,
    pub odt: u32,
    pub odrvr: u32,
    pub pull: u32,
}

impl Registers {
    pub open spec fn get(self, r: Register) -> u32 {
        match r {
            Register::Cfglr => self.cfglr,
            Register::Cfghr => self.cfghr,
            Register::Odt => self.odt,
            Register::Odrvr => self.odrvr,
            Register::Pull => self.pull,
        }
    }

    pub open spec fn set(self, r: Register, word: u32) -> Registers {
        match r {
            Register::Cfglr => Registers { cfglr: word, ..self },
            Register::Cfghr => Registers { cfghr: word, ..self },
            Register::Odt => Registers { odt: word, ..self },
            Register::Odrvr => Registers { odrvr: word, ..self },
            Register::Pull => Registers { pull: word, ..self },
        }
    }

    /// A port with all registers zero.
    pub fn new() -> (regs: Registers)
        ensures
            regs == (Registers { cfglr: 0, cfghr: 0, odt: 0, odrvr: 0, pull: 0 }),
    {
        Registers { cfglr: 0, cfghr: 0, odt: 0, odrvr: 0, pull: 0 }
    }
}

/// Access to the registers of one port. `regs` is what the port holds when a
/// call begins. The crate implements the trait for [`Registers`], a port
/// that is plain memory; an implementation for a peripheral reads and writes
/// the memory-mapped registers.
pub trait Instance {
    spec fn regs(&self) -> Registers;

    /// Reads one register.
    fn read(&self, r: Register) -> (word: u32)
        ensures
            word == self.regs().get(r),
    ;

    /// Writes one register.
    fn write(&mut self, r: Register, word: u32)
        ensures
            final(self).regs() == old(self).regs().set(r, word),
    ;
}

impl Instance for Registers {
    open spec fn regs(&self) -> Registers {
        *self
    }

    fn read(&self, r: Register) -> (word: u32) {
        match r {
            Register::Cfglr => self.cfglr,
            Register::Cfghr => self.cfghr,
            Register::Odt => self.odt,
            Register::Odrvr => self.odrvr,
            Register::Pull => self.pull,
        }
    }

    fn write(&mut self, r: Register, word: u32) {
        match r {
            Register::Cfglr => {
                self.cfglr = word;
            },
            Register::Cfghr => {
                self.cfghr = word;
            },
            Register::Odt => {
                self.odt = word;
            },
            Register::Odrvr => {
                self.odrvr = word;
            },
            Register::Pull => {
                self.pull = word;
            },
        }
    }
}

/// Pin `N` of port `P` in mode `MODE`.
pub struct Pin<const P: u8, const N: u8, MODE> {
    pub _mode: PhantomData<MODE>,
}

impl<const P: u8, const N: u8, MODE> Pin<P, N, MODE> {
    pub fn new() -> (pin: Self) {
        Pin { _mode: PhantomData }
    }
}

} // verus!
