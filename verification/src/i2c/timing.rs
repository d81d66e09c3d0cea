//! Bus speed: the mode a handle is built with and the register fields derived
//! from it.

use vstd::prelude::*;
use vstd::std_specs::convert::FromSpecImpl;
use super::request::{spec_modified, Registers, I2CEN};

verus! {

/// Ratio of the low to the high clock phase in fast mode.
#[derive(Clone, Copy, Debug, PartialEq, Eq, Structural)]
pub enum DutyCycle {
    Ratio2to1,
    Ratio16to9,
}

/// Bus speed. Frequencies are in hertz.
#[derive(Clone, Copy, Debug, PartialEq, Eq, Structural)]
pub enum Mode {
    Standard { frequency: u32 },
    Fast { frequency: u32, duty_cycle: DutyCycle },
}

/// Highest bus frequency that is still driven in standard mode.
pub const STANDARD_MODE_MAX_HZ: u32 = 100_000;

impl Mode {
    pub fn standard(frequency: u32) -> (m: Mode)
        ensures
            m == (Mode::Standard { frequency }),
    {
        Mode::Standard { frequency }
    }

    pub fn fast(frequency: u32, duty_cycle: DutyCycle) -> (m: Mode)
        ensures
            m == (Mode::Fast { frequency, duty_cycle }),
    {
        Mode::Fast { frequency, duty_cycle }
    }

    pub open spec fn spec_get_frequency(&self) -> u32 {
        match *self {
            Mode::Standard { frequency } => frequency,
            Mode::Fast { frequency, .. } => frequency,
        }
    }

    #[verifier::when_used_as_spec(spec_get_frequency)]
    pub fn get_frequency(&self) -> (f: u32)
        ensures
            f == self.spec_get_frequency(),
    {
        match *self {
            Mode::Standard { frequency } => frequency,
            Mode::Fast { frequency, .. } => frequency,
        }
    }

    /// Number of input clock periods per bus clock period, per unit of the
    /// speed field: 2 in standard mode, 3 at 2:1 and 25 at 16:9.
    pub open spec fn periods(&self) -> int {
        match *self {
            Mode::Standard { .. } => 2,
            Mode::Fast { duty_cycle: DutyCycle::Ratio2to1, .. } => 3,
            Mode::Fast { duty_cycle: DutyCycle::Ratio16to9, .. } => 25,
        }
    }

    /// Smallest speed value the controller accepts in this mode.
    pub open spec fn min_speed(&self) -> int {
        match *self {
            Mode::Standard { .. } => 4,
            Mode::Fast { .. } => 1,
        }
    }

    /// A mode can be applied when its frequency is positive and the divisor
    /// `frequency * periods` fits the 32-bit arithmetic of the controller setup.
    pub open spec fn valid(&self) -> bool {
        &&& self.spec_get_frequency() > 0
        &&& self.spec_get_frequency() * self.periods() <= u32::MAX
    }
}

impl From<u32> for Mode {
    /// Standard mode up to 100 kHz, fast mode at 2:1 above.
    fn from(frequency: u32) -> (m: Mode) {
        if frequency <= STANDARD_MODE_MAX_HZ {
            Mode::Standard { frequency }
        } else {
            Mode::Fast { frequency, duty_cycle: DutyCycle::Ratio2to1 }
        }
    }
}

impl FromSpecImpl<u32> for Mode {
    open spec fn obeys_from_spec() -> bool {
        true
    }

    open spec fn from_spec(frequency: u32) -> Mode {
        if frequency <= STANDARD_MODE_MAX_HZ {
            Mode::Standard { frequency }
        } else {
            Mode::Fast { frequency, duty_cycle: DutyCycle::Ratio2to1 }
        }
    }
}

/// Register fields that select the bus speed.
#[derive(Clone, Copy, Debug, PartialEq, Eq, Structural)]
pub struct Timing {
    /// CTRL2, bits 0 to 7: input clock in MHz.
    pub clkfreq: u8,
    /// TMRISE, bits 0 to 5: maximum rise time in input clock periods, plus one.
    pub risetime: u8,
    /// CLKCTRL, bits 0 to 11: bus clock divider.
    pub speed: u16,
    /// CLKCTRL, bit 14: 16:9 duty cycle.
    pub duty16_9: bool,
    /// CLKCTRL, bit 15: fast mode.
    pub fast: bool,
}

/// Lowest and highest input clock, in MHz, that the controller runs on.
pub open spec fn input_clock_supported(pclk: u32) -> bool {
    2 <= pclk / 1_000_000 <= 50
}

/// The divider before it is cut to the width of the speed field.
pub open spec fn divider(mode: Mode, pclk: u32) -> int {
    let d = pclk as int / (mode.spec_get_frequency() * mode.periods());
    if d < mode.min_speed() {
        mode.min_speed()
    } else {
        d
    }
}

/// The rise time field: in standard mode one period more than the input clock
/// in MHz (1000 ns), in fast mode one more than three tenths of it (300 ns).
pub open spec fn rise_time(mode: Mode, pclk: u32) -> int {
    let mhz = pclk as int / 1_000_000;
    match mode {
        Mode::Standard { .. } => mhz + 1,
        Mode::Fast { .. } => mhz * 300 / 1000 + 1,
    }
}

/// The fields for `mode` on an input clock of `pclk` hertz.
pub open spec fn spec_timing(mode: Mode, pclk: u32) -> Timing {
    Timing {
        clkfreq: (pclk / 1_000_000) as u8,
        risetime: rise_time(mode, pclk) as u8,
        speed: (divider(mode, pclk) % 0x1000) as u16,
        duty16_9: mode matches Mode::Fast { duty_cycle: DutyCycle::Ratio16to9, .. },
        fast: mode is Fast,
    }
}

/// Computes the speed fields for `mode` on an input clock of `pclk` hertz.
#[verifier::when_used_as_spec(spec_timing)]
pub fn timing(mode: Mode, pclk: u32) -> (t: Timing)
    requires
        mode.valid(),
        input_clock_supported(pclk),
    ensures
        t == spec_timing(mode, pclk),
        t.clkfreq as int == pclk as int / 1_000_000,
        t.risetime as int == rise_time(mode, pclk),
        t.speed < 0x1000,
{
    let mhz: u32 = pclk / 1_000_000;
    let clkfreq: u8 = mhz as u8;
    match mode {
        Mode::Standard { frequency } => {
            let raw: u32 = pclk / (frequency * 2);
            let speed: u32 = if raw < 4 { 4 } else { raw };
            Timing {
                clkfreq,
                risetime: (mhz + 1) as u8,
                speed: (speed % 0x1000) as u16,
                duty16_9: false,
                fast: false,
            }
        },
        Mode::Fast { frequency, duty_cycle } => {
            let risetime: u8 = (mhz * 300 / 1000 + 1) as u8;
            match duty_cycle {
                DutyCycle::Ratio2to1 => {
                    let raw: u32 = pclk / (frequency * 3);
                    let speed: u32 = if raw < 1 { 1 } else { raw };
                    Timing {
                        clkfreq,
                        risetime,
                        speed: (speed % 0x1000) as u16,
                        duty16_9: false,
                        fast: true,
                    }
                },
                DutyCycle::Ratio16to9 => {
                    let raw: u32 = pclk / (frequency * 25);
                    let speed: u32 = if raw < 1 { 1 } else { raw };
                    Timing {
                        clkfreq,
                        risetime,
                        speed: (speed % 0x1000) as u16,
                        duty16_9: true,
                        fast: true,
                    }
                },
            }
        },
    }
}

impl Timing {
    /// The CLKCTRL word: divider in bits 0 to 11, duty cycle in bit 14, speed
    /// mode in bit 15.
    pub open spec fn spec_clkctrl(&self) -> u32 {
        (self.speed as u32 & 0x0FFF) | (if self.duty16_9 {
            0x4000u32
        } else {
            0u32
        }) | (if self.fast {
            0x8000u32
        } else {
            0u32
        })
    }

    #[verifier::when_used_as_spec(spec_clkctrl)]
    pub fn clkctrl(&self) -> (word: u32)
        ensures
            word == self.spec_clkctrl(),
    {
        let duty: u32 = if self.duty16_9 { 0x4000 } else { 0 };
        let fast: u32 = if self.fast { 0x8000 } else { 0 };
        (self.speed as u32 & 0x0FFF) | duty | fast
    }

    /// The registers after these fields were applied: CTRL2, TMRISE and
    /// CLKCTRL hold them, the enable bit of CTRL1 is set, and nothing else
    /// has changed.
    pub open spec fn applied(&self, regs: Registers) -> Registers {
        Registers {
            ctrl1: spec_modified(spec_modified(regs.ctrl1, I2CEN, 0), 0, I2CEN),
            ctrl2: self.clkfreq as u32,
            tmrise: self.risetime as u32 & 0x3F,
            clkctrl: self.spec_clkctrl(),
            ..regs
        }
    }
}

} // verus!
