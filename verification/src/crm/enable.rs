//! Clock enable and reset of the peripherals: which bus a peripheral sits
//! on, and which bit of the bus registers is its own.

use vstd::prelude::*;
use super::{Instance, Register, Registers};
use crate::bits::{has_bit, spec_has_bit, spec_with_bit, with_bit};

verus! {

/// Buses that peripherals sit on.
#[derive(Clone, Copy, Debug, PartialEq, Eq, Structural)]
pub enum Bus {
    Ahb,
    Apb1,
    Apb2,
}

impl Bus {
    /// The clock enable register of the bus.
    pub open spec fn spec_enr(self) -> Register {
        match self {
            Bus::Ahb => Register::Ahben,
            Bus::Apb1 => Register::Apb1en,
            Bus::Apb2 => Register::Apb2en,
        }
    }

    #[verifier::when_used_as_spec(spec_enr)]
    pub fn enr(self) -> (r: Register)
        ensures
            r == self.spec_enr(),
    {
        match self {
            Bus::Ahb => Register::Ahben,
            Bus::Apb1 => Register::Apb1en,
            Bus::Apb2 => Register::Apb2en,
        }
    }

    /// The reset register of the bus.
    pub open spec fn spec_rstr(self) -> Register {
        match self {
            Bus::Ahb => Register::Ahbrst,
            Bus::Apb1 => Register::Apb1rst,
            Bus::Apb2 => Register::Apb2rst,
        }
    }

    #[verifier::when_used_as_spec(spec_rstr)]
    pub fn rstr(self) -> (r: Register)
        ensures
            r == self.spec_rstr(),
    {
        match self {
            Bus::Ahb => Register::Ahbrst,
            Bus::Apb1 => Register::Apb1rst,
            Bus::Apb2 => Register::Apb2rst,
        }
    }
}

/// Peripherals with a clock of their own.
#[derive(Clone, Copy, Debug, PartialEq, Eq, Structural)]
pub enum Peripheral {
    Dma1,
    Crc,
    GpioA,
    GpioB,
    GpioC,
    GpioD,
    GpioF,
    Iomux,
    Spi1,
    Spi2,
    I2c1,
    I2c2,
    Usart1,
    Usart2,
    Usart3,
    Adc1,
    Tmr1,
    Tmr2,
    Tmr3,
    Tmr4,
    Tmr5,
    Tmr9,
    Tmr10,
    Tmr11,
}

impl Peripheral {
    /// The bus the peripheral sits on.
    pub open spec fn spec_bus(self) -> Bus {
        match self {
            Peripheral::Dma1 => Bus::Ahb,
            Peripheral::Crc => Bus::Ahb,
            Peripheral::GpioA => Bus::Apb2,
            Peripheral::GpioB => Bus::Apb2,
            Peripheral::GpioC => Bus::Apb2,
            Peripheral::GpioD => Bus::Apb2,
            Peripheral::GpioF => Bus::Apb2,
            Peripheral::Iomux => Bus::Apb2,
            Peripheral::Spi1 => Bus::Apb2,
            Peripheral::Spi2 => Bus::Apb1,
            Peripheral::I2c1 => Bus::Apb1,
            Peripheral::I2c2 => Bus::Apb1,
            Peripheral::Usart1 => Bus::Apb2,
            Peripheral::Usart2 => Bus::Apb1,
            Peripheral::Usart3 => Bus::Apb1,
            Peripheral::Adc1 => Bus::Apb2,
            Peripheral::Tmr1 => Bus::Apb2,
            Peripheral::Tmr2 => Bus::Apb1,
            Peripheral::Tmr3 => Bus::Apb1,
            Peripheral::Tmr4 => Bus::Apb1,
            Peripheral::Tmr5 => Bus::Apb1,
            Peripheral::Tmr9 => Bus::Apb2,
            Peripheral::Tmr10 => Bus::Apb2,
            Peripheral::Tmr11 => Bus::Apb2,
        }
    }

    #[verifier::when_used_as_spec(spec_bus)]
    pub fn bus(self) -> (b: Bus)
        ensures
            b == self.spec_bus(),
    {
        match self {
            Peripheral::Dma1 => Bus::Ahb,
            Peripheral::Crc => Bus::Ahb,
            Peripheral::GpioA => Bus::Apb2,
            Peripheral::GpioB => Bus::Apb2,
            Peripheral::GpioC => Bus::Apb2,
            Peripheral::GpioD => Bus::Apb2,
            Peripheral::GpioF => Bus::Apb2,
            Peripheral::Iomux => Bus::Apb2,
            Peripheral::Spi1 => Bus::Apb2,
            Peripheral::Spi2 => Bus::Apb1,
            Peripheral::I2c1 => Bus::Apb1,
            Peripheral::I2c2 => Bus::Apb1,
            Peripheral::Usart1 => Bus::Apb2,
            Peripheral::Usart2 => Bus::Apb1,
            Peripheral::Usart3 => Bus::Apb1,
            Peripheral::Adc1 => Bus::Apb2,
            Peripheral::Tmr1 => Bus::Apb2,
            Peripheral::Tmr2 => Bus::Apb1,
            Peripheral::Tmr3 => Bus::Apb1,
            Peripheral::Tmr4 => Bus::Apb1,
            Peripheral::Tmr5 => Bus::Apb1,
            Peripheral::Tmr9 => Bus::Apb2,
            Peripheral::Tmr10 => Bus::Apb2,
            Peripheral::Tmr11 => Bus::Apb2,
        }
    }

    /// The bit of the peripheral in the registers of its bus.
    pub open spec fn spec_bit(self) -> u32 {
        match self {
            Peripheral::Dma1 => 0,
            Peripheral::Crc => 6,
            Peripheral::GpioA => 2,
            Peripheral::GpioB => 3,
            Peripheral::GpioC => 4,
            Peripheral::GpioD => 5,
            Peripheral::GpioF => 7,
            Peripheral::Iomux => 0,
            Peripheral::Spi1 => 12,
            Peripheral::Spi2 => 14,
            Peripheral::I2c1 => 21,
            Peripheral::I2c2 => 22,
            Peripheral::Usart1 => 14,
            Peripheral::Usart2 => 17,
            Peripheral::Usart3 => 18,
            Peripheral::Adc1 => 8,
            Peripheral::Tmr1 => 11,
            Peripheral::Tmr2 => 0,
            Peripheral::Tmr3 => 1,
            Peripheral::Tmr4 => 2,
            Peripheral::Tmr5 => 3,
            Peripheral::Tmr9 => 19,
            Peripheral::Tmr10 => 10,
            Peripheral::Tmr11 => 21,
        }
    }

    #[verifier::when_used_as_spec(spec_bit)]
    pub fn bit(self) -> (n: u32)
        ensures
            n == self.spec_bit(),
            n < 32,
    {
        match self {
            Peripheral::Dma1 => 0,
            Peripheral::Crc => 6,
            Peripheral::GpioA => 2,
            Peripheral::GpioB => 3,
            Peripheral::GpioC => 4,
            Peripheral::GpioD => 5,
            Peripheral::GpioF => 7,
            Peripheral::Iomux => 0,
            Peripheral::Spi1 => 12,
            Peripheral::Spi2 => 14,
            Peripheral::I2c1 => 21,
            Peripheral::I2c2 => 22,
            Peripheral::Usart1 => 14,
            Peripheral::Usart2 => 17,
            Peripheral::Usart3 => 18,
            Peripheral::Adc1 => 8,
            Peripheral::Tmr1 => 11,
            Peripheral::Tmr2 => 0,
            Peripheral::Tmr3 => 1,
            Peripheral::Tmr4 => 2,
            Peripheral::Tmr5 => 3,
            Peripheral::Tmr9 => 19,
            Peripheral::Tmr10 => 10,
            Peripheral::Tmr11 => 21,
        }
    }

    /// The registers after the clock of the peripheral was switched on and
    /// the peripheral was reset: its enable bit is set, and its reset bit has
    /// been set and cleared again.
    pub open spec fn enabled_and_reset(self, regs: Registers) -> Registers {
        let on = regs.set(
            self.spec_bus().spec_enr(),
            spec_with_bit(regs.get(self.spec_bus().spec_enr()), self.spec_bit(), true),
        );
        on.set(
            self.spec_bus().spec_rstr(),
            spec_with_bit(
                spec_with_bit(on.get(self.spec_bus().spec_rstr()), self.spec_bit(), true),
                self.spec_bit(),
                false,
            ),
        )
    }

    /// Switches the clock of the peripheral on and resets the peripheral.
    pub fn enable_and_reset<CRM: Instance>(self, crm: &mut CRM)
        ensures
            final(crm).regs() == self.enabled_and_reset(old(crm).regs()),
    {
        self.enable(crm);
        self.reset(crm);
    }

    /// Switches the clock of the peripheral on.
    pub fn enable<CRM: Instance>(self, crm: &mut CRM)
        ensures
            final(crm).regs() == old(crm).regs().set(
                self.spec_bus().spec_enr(),
                spec_with_bit(old(crm).regs().get(self.spec_bus().spec_enr()), self.spec_bit(), true),
            ),
    {
        let r: Register = self.bus().enr();
        let word: u32 = crm.read(r);
        crm.write(r, with_bit(word, self.bit(), true));
    }

    /// Switches the clock of the peripheral off.
    pub fn disable<CRM: Instance>(self, crm: &mut CRM)
        ensures
            final(crm).regs() == old(crm).regs().set(
                self.spec_bus().spec_enr(),
                spec_with_bit(
                    old(crm).regs().get(self.spec_bus().spec_enr()),
                    self.spec_bit(),
                    false,
                ),
            ),
    {
        let r: Register = self.bus().enr();
        let word: u32 = crm.read(r);
        crm.write(r, with_bit(word, self.bit(), false));
    }

    /// True when the clock of the peripheral is on.
    pub fn is_enabled<CRM: Instance>(self, crm: &CRM) -> (on: bool)
        ensures
            on == spec_has_bit(crm.regs().get(self.spec_bus().spec_enr()), self.spec_bit()),
    {
        has_bit(crm.read(self.bus().enr()), self.bit())
    }

    /// Resets the peripheral: its reset bit is set and cleared again.
    pub fn reset<CRM: Instance>(self, crm: &mut CRM)
        ensures
            final(crm).regs() == old(crm).regs().set(
                self.spec_bus().spec_rstr(),
                spec_with_bit(
                    spec_with_bit(
                        old(crm).regs().get(self.spec_bus().spec_rstr()),
                        self.spec_bit(),
                        true,
                    ),
                    self.spec_bit(),
                    false,
                ),
            ),
    {
        let r: Register = self.bus().rstr();
        let word: u32 = crm.read(r);
        crm.write(r, with_bit(word, self.bit(), true));
        let word: u32 = crm.read(r);
        crm.write(r, with_bit(word, self.bit(), false));
    }
}

/// No two peripherals share a bit of one bus.
pub proof fn lemma_bits_are_distinct(a: Peripheral, b: Peripheral)
    requires
        a != b,
    ensures
        a.spec_bus() != b.spec_bus() || a.spec_bit() != b.spec_bit(),
{
}

} // verus!
