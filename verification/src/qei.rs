//! Quadrature encoder interface.

use vstd::prelude::*;
use crate::bits::{spec_with_field, with_field};
use crate::timer::{General, Register, Registers, TMREN};

verus! {

/// Channel input mode word of an encoder: both channels take their own
/// input, each through a filter of length one.
pub const ENCODER_INPUTS: u32 = 0x1111;
/// Channel control word of an encoder: both channels enabled, active high.
pub const ENCODER_CHANNELS: u32 = 0x0011;
/// Subordinate mode of a counter that counts the edges of an encoder.
pub const ENCODER_MODE: u32 = 1;

/// Direction of counting.
#[derive(Clone, Copy, Debug, PartialEq, Eq, Structural)]
pub enum Direction {
    Downcounting,
    Upcounting,
}

/// The registers of a timer that was set up as an encoder interface.
pub open spec fn set_up(regs: Registers) -> Registers {
    regs.set(Register::Cm1, ENCODER_INPUTS).set(Register::Cctrl, ENCODER_CHANNELS).set(
        Register::Stctrl,
        spec_with_field(regs.stctrl, 0, 0x7, ENCODER_MODE),
    ).set(Register::Pr, regs.spec_max_auto_reload()).set(Register::Ctrl1, regs.ctrl1 | TMREN)
}

/// Timers that can serve as encoder interface.
pub trait Instance: General {
    /// Sets the timer up to count the edges of both channels over its whole
    /// range, and starts it.
    fn setup_qei(&mut self)
        ensures
            final(self).regs() == set_up(old(self).regs()),
    {
        self.write(Register::Cm1, ENCODER_INPUTS);
        self.write(Register::Cctrl, ENCODER_CHANNELS);
        let word: u32 = self.read(Register::Stctrl);
        self.write(Register::Stctrl, with_field(word, 0, 0x7, ENCODER_MODE));
        let max: u32 = self.max_auto_reload();
        self.set_auto_reload_unchecked(max);
        self.enable_counter();
    }

    /// True when the counter counts up.
    fn read_direction(&self) -> (up: bool)
        ensures
            up,
    {
        true
    }
}

impl Instance for Registers {

}

/// Building an encoder interface from a timer.
pub trait QeiExt<PINS>: Sized + Instance {
    fn qei(self, pins: PINS) -> Qei<Self, PINS>;
}

impl<TMR: Instance, PINS> QeiExt<PINS> for TMR {
    fn qei(self, pins: PINS) -> (q: Qei<Self, PINS>)
        ensures
            q.pins == pins,
            q.tmr.regs() == set_up(self.regs().spec_reset()),
    {
        Qei::new(self, pins)
    }
}

/// Quadrature encoder interface on a timer.
pub struct Qei<TMR, PINS> {
    pub tmr: TMR,
    pub pins: PINS,
}

impl<TMR: Instance, PINS> Qei<TMR, PINS> {
    /// Takes over a timer and the pins of its first two channels: the clock
    /// of the timer is switched on, the timer is reset and set up as encoder
    /// interface.
    pub fn new(tmr: TMR, pins: PINS) -> (q: Self)
        ensures
            q.pins == pins,
            q.tmr.regs() == set_up(tmr.regs().spec_reset()),
    {
        let mut tmr = tmr;
        tmr.enable();
        tmr.reset();
        tmr.setup_qei();
        Qei { tmr, pins }
    }

    /// Gives the timer and the pins back.
    pub fn release(self) -> (parts: (TMR, PINS))
        ensures
            parts.0 == self.tmr,
            parts.1 == self.pins,
    {
        (self.tmr, self.pins)
    }

    /// Sets the count.
    pub fn set_count(&mut self, value: u32)
        requires
            value <= old(self).tmr.regs().spec_max_auto_reload(),
        ensures
            final(self).pins == old(self).pins,
            final(self).tmr.regs() == old(self).tmr.regs().set(Register::Cval, value),
    {
        self.tmr.write_count(value);
    }

    /// The count.
    pub fn count(&self) -> (count: u32)
        ensures
            count == self.tmr.regs().cval,
    {
        self.tmr.read_count()
    }

    /// The direction of counting.
    pub fn direction(&self) -> (d: Direction)
        ensures
            d == Direction::Upcounting,
    {
        if self.tmr.read_direction() {
            Direction::Upcounting
        } else {
            Direction::Downcounting
        }
    }
}

} // verus!
