//! Pins of ports with a driver strength and a pull register, two bits for
//! each pin.

use vstd::prelude::*;
use super::{Instance, Pin, Pull, Register, Registers, Speed};

verus! {

/// `word` with the two bits of pin `n` replaced by `value`.
pub open spec fn spec_with_pair(word: u32, n: u8, value: u32) -> u32 {
    (word & !(0b11u32 << (2 * n) as u32)) | (value << (2 * n) as u32)
}

#[verifier::when_used_as_spec(spec_with_pair)]
pub fn with_pair(word: u32, n: u8, value: u32) -> (out: u32)
    requires
        n < 16,
    ensures
        out == spec_with_pair(word, n, value),
{
    let offset: u32 = (2 * n) as u32;
    (word & !(0b11u32 << offset)) | (value << offset)
}

impl<const P: u8, const N: u8, MODE> Pin<P, N, MODE> {
    /// Sets the speed of the pin.
    pub fn set_speed<G: Instance>(&mut self, gpio: &mut G, speed: Speed)
        requires
            N < 16,
        ensures
            final(gpio).regs() == old(gpio).regs().set(
                Register::Odrvr,
                spec_with_pair(old(gpio).regs().odrvr, N, speed.spec_code()),
            ),
    {
        let word: u32 = gpio.read(Register::Odrvr);
        gpio.write(Register::Odrvr, with_pair(word, N, speed.code()));
    }

    /// Sets the speed of the pin.
    pub fn speed<G: Instance>(self, gpio: &mut G, speed: Speed) -> (pin: Self)
        requires
            N < 16,
        ensures
            final(gpio).regs() == old(gpio).regs().set(
                Register::Odrvr,
                spec_with_pair(old(gpio).regs().odrvr, N, speed.spec_code()),
            ),
    {
        let mut pin = self;
        pin.set_speed(gpio, speed);
        pin
    }

    /// Sets the internal resistor of the pin.
    pub fn set_internal_resistor<G: Instance>(&mut self, gpio: &mut G, resistor: Pull)
        requires
            N < 16,
        ensures
            final(gpio).regs() == old(gpio).regs().set(
                Register::Pull,
                spec_with_pair(old(gpio).regs().pull, N, resistor.spec_code()),
            ),
    {
        let word: u32 = gpio.read(Register::Pull);
        gpio.write(Register::Pull, with_pair(word, N, resistor.code()));
    }

    /// Sets the internal resistor of the pin.
    pub fn internal_resistor<G: Instance>(self, gpio: &mut G, resistor: Pull) -> (pin: Self)
        requires
            N < 16,
        ensures
            final(gpio).regs() == old(gpio).regs().set(
                Register::Pull,
                spec_with_pair(old(gpio).regs().pull, N, resistor.spec_code()),
            ),
    {
        let mut pin = self;
        pin.set_internal_resistor(gpio, resistor);
        pin
    }

    /// Switches the resistor to the supply on, or all resistors off.
    pub fn internal_pull_up<G: Instance>(self, gpio: &mut G, on: bool) -> (pin: Self)
        requires
            N < 16,
        ensures
            final(gpio).regs() == old(gpio).regs().set(
                Register::Pull,
                spec_with_pair(
                    old(gpio).regs().pull,
                    N,
                    if on {
                        Pull::Up.spec_code()
                    } else {
                        Pull::Floating.spec_code()
                    },
                ),
            ),
    {
        if on {
            self.internal_resistor(gpio, Pull::Up)
        } else {
            self.internal_resistor(gpio, Pull::Floating)
        }
    }

    /// Switches the resistor to ground on, or all resistors off.
    pub fn internal_pull_down<G: Instance>(self, gpio: &mut G, on: bool) -> (pin: Self)
        requires
            N < 16,
        ensures
            final(gpio).regs() == old(gpio).regs().set(
                Register::Pull,
                spec_with_pair(
                    old(gpio).regs().pull,
                    N,
                    if on {
                        Pull::Down.spec_code()
                    } else {
                        Pull::Floating.spec_code()
                    },
                ),
            ),
    {
        if on {
            self.internal_resistor(gpio, Pull::Down)
        } else {
            self.internal_resistor(gpio, Pull::Floating)
        }
    }
}

} // verus!
