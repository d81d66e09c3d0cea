//! Pins of ports with configuration registers of four bits for each pin:
//! two mode bits, which hold the speed of an output, and two function bits.
//! Pins 0 to 7 are served, whose bits lie in the low configuration register.

use vstd::prelude::*;
use super::{Instance, Pull, Register, Registers, Speed};

verus! {

/// The low configuration word with the mode bits of pin `n` replaced by
/// `speed`.
pub open spec fn spec_speed_word(word: u32, n: u8, speed: Speed) -> u32 {
    (word & !(0b11u32 << (4 * n) as u32)) | (speed.spec_code() << (4 * n) as u32)
}

/// The low configuration word of a pin whose resistor is switched off: bit 3
/// of the pin's four bits is cleared.
pub open spec fn spec_floating_word(word: u32, n: u8) -> u32 {
    word & !(0b1u32 << (4 * n + 3) as u32)
}

/// The low configuration word of a pin whose resistor is switched on: the
/// function bits of the pin become `10`.
pub open spec fn spec_pulled_word(word: u32, n: u8) -> u32 {
    word & !(0b11u32 << (4 * n + 2) as u32) | (0b10u32 << (4 * n + 2) as u32)
}

/// The output data word with the bit of pin `n` replaced by `value`, which
/// chooses the resistor: 1 to the supply, 0 to ground.
pub open spec fn spec_level_word(word: u32, n: u8, value: u32) -> u32 {
    word & !(0b1u32 << n as u32) | (value << n as u32)
}

/// The registers after the resistor of pin `n` was set.
pub open spec fn with_resistor(regs: Registers, n: u8, resistor: Pull) -> Registers {
    match resistor {
        Pull::Floating => regs.set(Register::Cfglr, spec_floating_word(regs.cfglr, n)),
        Pull::Up => regs.set(Register::Cfglr, spec_pulled_word(regs.cfglr, n)).set(
            Register::Odt,
            spec_level_word(regs.odt, n, 1),
        ),
        Pull::Down => regs.set(Register::Cfglr, spec_pulled_word(regs.cfglr, n)).set(
            Register::Odt,
            spec_level_word(regs.odt, n, 0),
        ),
    }
}

/// Sets the speed of pin `n`.
pub fn set_speed<G: Instance>(gpio: &mut G, n: u8, speed: Speed)
    requires
        n <= 7,
    ensures
        final(gpio).regs() == old(gpio).regs().set(
            Register::Cfglr,
            spec_speed_word(old(gpio).regs().cfglr, n, speed),
        ),
{
    let offset: u32 = (4 * n) as u32;
    let word: u32 = gpio.read(Register::Cfglr);
    gpio.write(Register::Cfglr, (word & !(0b11u32 << offset)) | (speed.code() << offset));
}

/// Sets the internal resistor of pin `n`: off, or on and, by the output data
/// bit of the pin, to the supply or to ground.
pub fn set_internal_resistor<G: Instance>(gpio: &mut G, n: u8, resistor: Pull)
    requires
        n <= 7,
    ensures
        final(gpio).regs() == with_resistor(old(gpio).regs(), n, resistor),
{
    let offset: u32 = (4 * n) as u32;
    let word: u32 = gpio.read(Register::Cfglr);
    match resistor {
        Pull::Floating => {
            gpio.write(Register::Cfglr, word & !(0b1u32 << (offset + 3)));
        },
        _ => {
            let value: u32 = match resistor {
                Pull::Down => 0,
                _ => 1,
            };
            gpio.write(
                Register::Cfglr,
                word & !(0b11u32 << (offset + 2)) | (0b10u32 << (offset + 2)),
            );
            let level: u32 = gpio.read(Register::Odt);
            gpio.write(Register::Odt, level & !(0b1u32 << n as u32) | (value << n as u32));
        },
    }
}

/// Switches the resistor to the supply of pin `n` on, or its resistors off.
pub fn internal_pull_up<G: Instance>(gpio: &mut G, n: u8, on: bool)
    requires
        n <= 7,
    ensures
        final(gpio).regs() == with_resistor(
            old(gpio).regs(),
            n,
            if on {
                Pull::Up
            } else {
                Pull::Floating
            },
        ),
{
    if on {
        set_internal_resistor(gpio, n, Pull::Up)
    } else {
        set_internal_resistor(gpio, n, Pull::Floating)
    }
}

/// Switches the resistor to ground of pin `n` on, or its resistors off.
pub fn internal_pull_down<G: Instance>(gpio: &mut G, n: u8, on: bool)
    requires
        n <= 7,
    ensures
        final(gpio).regs() == with_resistor(
            old(gpio).regs(),
            n,
            if on {
                Pull::Down
            } else {
                Pull::Floating
            },
        ),
{
    if on {
        set_internal_resistor(gpio, n, Pull::Down)
    } else {
        set_internal_resistor(gpio, n, Pull::Floating)
    }
}

} // verus!
