//! Register accesses that the driver asks its caller to perform.

use vstd::prelude::*;

verus! {

/// CTRL1: peripheral enable.
pub const I2CEN: u32 = 0x0001;
/// CTRL1: generate a START condition.
pub const GENSTART: u32 = 0x0100;
/// CTRL1: generate a STOP condition.
pub const GENSTOP: u32 = 0x0200;
/// CTRL1: acknowledge received bytes.
pub const ACKEN: u32 = 0x0400;
/// STS2: the controller is bus master.
pub const TRMODE: u32 = 0x0001;
/// STS2: the bus is busy.
pub const BUSYF: u32 = 0x0002;

/// Registers of the bus controller that the driver touches.
#[derive(Clone, Copy, Debug, PartialEq, Eq, Structural)]
pub enum Register {
    Ctrl1,
    Ctrl2,
    Clkctrl,
    Tmrise,
    Sts1,
    Sts2,
    Dt,
}

/// One access to one register.
#[derive(Clone, Copy, Debug, PartialEq, Eq, Structural)]
pub enum Request {
    /// Read the register and hand the word back.
    Read(Register),
    /// Write the word to the register.
    Write(Register, u32),
    /// Read the register, clear the bits of the first mask, set the bits of the
    /// second, and write the word back.
    Modify(Register, u32, u32),
}

/// The word that a read-modify-write leaves in a register that held `word`.
pub open spec fn spec_modified(word: u32, clear: u32, set: u32) -> u32 {
    (word & !clear) | set
}

/// Computes the word to write back for a [`Request::Modify`].
#[verifier::when_used_as_spec(spec_modified)]
pub fn modified(word: u32, clear: u32, set: u32) -> (out: u32)
    ensures
        out == spec_modified(word, clear, set),
{
    (word & !clear) | set
}

/// What the registers of a bus controller hold.
#[derive(Clone, Copy, Debug, PartialEq, Eq, Structural)]
pub struct Registers {
    pub ctrl1: u32,
    pub ctrl2: u32,
    pub clkctrl: u32,
    pub tmrise: u32,
    pub sts1: u32,
    pub sts2: u32,
    pub dt: u32,
}

impl Registers {
    pub open spec fn get(self, r: Register) -> u32 {
        match r {
            Register::Ctrl1 => self.ctrl1,
            Register::Ctrl2 => self.ctrl2,
            Register::Clkctrl => self.clkctrl,
            Register::Tmrise => self.tmrise,
            Register::Sts1 => self.sts1,
            Register::Sts2 => self.sts2,
            Register::Dt => self.dt,
        }
    }

    pub open spec fn set(self, r: Register, word: u32) -> Registers {
        match r {
            Register::Ctrl1 => Registers { ctrl1: word, ..self },
            Register::Ctrl2 => Registers { ctrl2: word, ..self },
            Register::Clkctrl => Registers { clkctrl: word, ..self },
            Register::Tmrise => Registers { tmrise: word, ..self },
            Register::Sts1 => Registers { sts1: word, ..self },
            Register::Sts2 => Registers { sts2: word, ..self },
            Register::Dt => Registers { dt: word, ..self },
        }
    }

    /// The word handed back for a request: what was read, or zero.
    pub open spec fn reply(self, request: Request) -> u32 {
        match request {
            Request::Read(r) => self.get(r),
            _ => 0,
        }
    }

    /// The registers after a request was performed on them.
    pub open spec fn after(self, request: Request) -> Registers {
        match request {
            Request::Read(_) => self,
            Request::Write(r, word) => self.set(r, word),
            Request::Modify(r, clear, set) => self.set(r, spec_modified(self.get(r), clear, set)),
        }
    }

    /// What the registers hold after a reset of the controller: the rise time
    /// register holds 2, every other register zero.
    pub open spec fn spec_reset() -> Registers {
        Registers { ctrl1: 0, ctrl2: 0, clkctrl: 0, tmrise: 0x02, sts1: 0, sts2: 0, dt: 0 }
    }

    /// A controller after reset.
    pub fn new() -> (regs: Registers)
        ensures
            regs == Registers::spec_reset(),
    {
        Registers { ctrl1: 0, ctrl2: 0, clkctrl: 0, tmrise: 0x02, sts1: 0, sts2: 0, dt: 0 }
    }
}

/// Access to the registers of one bus controller. `regs` is what the block
/// holds when a call begins. The crate implements the trait for
/// [`Registers`], a block that is plain memory; an implementation for a
/// peripheral reads and writes the memory-mapped registers.
pub trait Instance {
    spec fn regs(&self) -> Registers;

    /// Reads one register.
    fn read(&self, r: Register) -> (word: u32)
        ensures
            word == self.regs().get(r),
    ;

    /// Writes one register.
    fn write(&mut self, r: Register, word: u32)
        ensures
            final(self).regs() == old(self).regs().set(r, word),
    ;

    /// Switches the clock of the controller on. The registers keep what they
    /// hold.
    fn enable(&mut self)
        ensures
            final(self).regs() == old(self).regs(),
    ;

    /// Resets the controller: every register goes back to what it holds
    /// after reset.
    fn reset(&mut self)
        ensures
            final(self).regs() == Registers::spec_reset(),
    ;

    /// Performs one request and hands back what it read, or zero.
    fn perform(&mut self, request: Request) -> (reply: u32)
        ensures
            reply == old(self).regs().reply(request),
            final(self).regs() == old(self).regs().after(request),
    {
        match request {
            Request::Read(r) => self.read(r),
            Request::Write(r, word) => {
                self.write(r, word);
                0
            },
            Request::Modify(r, clear, set) => {
                let word: u32 = self.read(r);
                self.write(r, modified(word, clear, set));
                0
            },
        }
    }
}

impl Instance for Registers {
    open spec fn regs(&self) -> Registers {
        *self
    }

    fn read(&self, r: Register) -> (word: u32) {
        match r {
            Register::Ctrl1 => self.ctrl1,
            Register::Ctrl2 => self.ctrl2,
            Register::Clkctrl => self.clkctrl,
            Register::Tmrise => self.tmrise,
            Register::Sts1 => self.sts1,
            Register::Sts2 => self.sts2,
            Register::Dt => self.dt,
        }
    }

    fn enable(&mut self) {
    }

    fn reset(&mut self) {
        *self = Registers::new();
    }

    fn write(&mut self, r: Register, word: u32) {
        match r {
            Register::Ctrl1 => {
                self.ctrl1 = word;
            },
            Register::Ctrl2 => {
                self.ctrl2 = word;
            },
            Register::Clkctrl => {
                self.clkctrl = word;
            },
            Register::Tmrise => {
                self.tmrise = word;
            },
            Register::Sts1 => {
                self.sts1 = word;
            },
            Register::Sts2 => {
                self.sts2 = word;
            },
            Register::Dt => {
                self.dt = word;
            },
        }
    }
}

/// A request with the word that the caller handed back for it. For a write or a
/// modify the word carries no meaning.
pub struct Exchange {
    pub request: Request,
    pub reply: u32,
}

} // verus!
