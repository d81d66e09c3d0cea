//! Clock and reset management.

use vstd::prelude::*;

pub mod enable;
pub mod pll;

pub use enable::{Bus, Peripheral};
pub use pll::MainPll;

verus! {

/// Registers of the clock unit.
#[derive(Clone, Copy, Debug, PartialEq, Eq, Structural)]
pub enum Register {
    /// Clock configuration.
    Cfg,
    /// PLL configuration.
    Pll,
    /// Clock enable of the peripherals on the AHB.
    Ahben,
    /// Clock enable of the peripherals on the APB1.
    Apb1en,
    /// Clock enable of the peripherals on the APB2.
    Apb2en,
    /// Reset of the peripherals on the AHB.
    Ahbrst,
    /// Reset of the peripherals on the APB1.
    Apb1rst,
    /// Reset of the peripherals on the APB2.
    Apb2rst,
}

/// What the registers of the clock unit hold.
#[derive(Clone, Copy, Debug, PartialEq, Eq, Structural)]
pub struct Registers {
    pub cfg: u32,
    pub pll: u32,
    pub ahben: u32,
    pub apb1en: u32,
    pub apb2en: u32,
    pub ahbrst: u32,
    pub apb1rst: u32,
    pub apb2rst: u32,
}

impl Registers {
    pub open spec fn get(self, r: Register) -> u32 {
        match r {
            Register::Cfg => self.cfg,
            Register::Pll => self.pll,
            Register::Ahben => self.ahben,
            Register::Apb1en => self.apb1en,
            Register::Apb2en => self.apb2en,
            Register::Ahbrst => self.ahbrst,
            Register::Apb1rst => self.apb1rst,
            Register::Apb2rst => self.apb2rst,
        }
    }

    pub open spec fn set(self, r: Register, word: u32) -> Registers {
        match r {
            Register::Cfg => Registers { cfg: word, ..self },
            Register::Pll => Registers { pll: word, ..self },
            Register::Ahben => Registers { ahben: word, ..self },
            Register::Apb1en => Registers { apb1en: word, ..self },
            Register::Apb2en => Registers { apb2en: word, ..self },
            Register::Ahbrst => Registers { ahbrst: word, ..self },
            Register::Apb1rst => Registers { apb1rst: word, ..self },
            Register::Apb2rst => Registers { apb2rst: word, ..self },
        }
    }

    /// A clock unit with all registers zero.
    pub fn new() -> (regs: Registers)
        ensures
            regs == (Registers {
                cfg: 0,
                pll: 0,
                ahben: 0,
                apb1en: 0,
                apb2en: 0,
                ahbrst: 0,
                apb1rst: 0,
                apb2rst: 0,
            }),
    {
        Registers {
            cfg: 0,
            pll: 0,
            ahben: 0,
            apb1en: 0,
            apb2en: 0,
            ahbrst: 0,
            apb1rst: 0,
            apb2rst: 0,
        }
    }
}

/// Access to the registers of the clock unit. `regs` is what they hold when
/// a call begins. The crate implements the trait for [`Registers`], which
/// is plain memory; an implementation for a peripheral reads and writes the
/// memory-mapped registers.
pub trait Instance {
    spec fn regs(&self) -> Registers;

    /// Reads one register.
    fn read(&self, r: Register) -> (word: u32)
        ensures
            word == self.regs().get(r),
    ;

    /// Writes one register.
    fn write(&mut self, r: Register, word: u32)
        ensures
            final(self).regs() == old(self).regs().set(r, word),
    ;
}

impl Instance for Registers {
    open spec fn regs(&self) -> Registers {
        *self
    }

    fn read(&self, r: Register) -> (word: u32) {
        match r {
            Register::Cfg => self.cfg,
            Register::Pll => self.pll,
            Register::Ahben => self.ahben,
            Register::Apb1en => self.apb1en,
            Register::Apb2en => self.apb2en,
            Register::Ahbrst => self.ahbrst,
            Register::Apb1rst => self.apb1rst,
            Register::Apb2rst => self.apb2rst,
        }
    }

    fn write(&mut self, r: Register, word: u32) {
        match r {
            Register::Cfg => {
                self.cfg = word;
            },
            Register::Pll => {
                self.pll = word;
            },
            Register::Ahben => {
                self.ahben = word;
            },
            Register::Apb1en => {
                self.apb1en = word;
            },
            Register::Apb2en => {
                self.apb2en = word;
            },
            Register::Ahbrst => {
                self.ahbrst = word;
            },
            Register::Apb1rst => {
                self.apb1rst = word;
            },
            Register::Apb2rst => {
                self.apb2rst = word;
            },
        }
    }
}

} // verus!
