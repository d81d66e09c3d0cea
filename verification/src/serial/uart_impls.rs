//! Register-level operations of a serial port.

use vstd::prelude::*;
use super::config::{Config, DmaConfig, InvalidConfig, Parity, StopBits, WordLength};
use super::{Error, Event};
use crate::bits::{spec_with_field, with_field};

verus! {

/// STS: parity error.
pub const PERR: u32 = 0x0001;
/// STS: framing error.
pub const FERR: u32 = 0x0002;
/// STS: noise error.
pub const NERR: u32 = 0x0004;
/// STS: receiver overflow error.
pub const ROERR: u32 = 0x0008;
/// STS: idle line.
pub const IDLEF: u32 = 0x0010;
/// STS: receive data buffer full.
pub const RDBF: u32 = 0x0020;
/// STS: transmit data complete.
pub const TDC: u32 = 0x0040;
/// STS: transmit data buffer empty.
pub const TDBE: u32 = 0x0080;
/// CTRL1: receiver enable.
pub const REN: u32 = 0x0004;
/// CTRL1: transmitter enable.
pub const TEN: u32 = 0x0008;
/// CTRL1: idle interrupt enable.
pub const IDLEIEN: u32 = 0x0010;
/// CTRL1: interrupt enable for a full receive buffer.
pub const RDBFIEN: u32 = 0x0020;
/// CTRL1: interrupt enable for an empty transmit buffer.
pub const TDBEIEN: u32 = 0x0080;
/// CTRL1: odd parity.
pub const PSEL: u32 = 0x0200;
/// CTRL1: parity enable.
pub const PEN: u32 = 0x0400;
/// CTRL1: nine data bits.
pub const DBN: u32 = 0x1000;
/// CTRL1: port enable.
pub const UEN: u32 = 0x2000;
/// CTRL3: DMA for the receiver.
pub const DMAREN: u32 = 0x0040;
/// CTRL3: DMA for the transmitter.
pub const DMATEN: u32 = 0x0080;

/// Registers of a serial port.
#[derive(Clone, Copy, Debug, PartialEq, Eq, Structural)]
pub enum Register {
    Sts,
    Dt,
    Baudr,
    Ctrl1,
    Ctrl2,
    Ctrl3,
}

/// What the registers of a serial port hold.
#[derive(Clone, Copy, Debug, PartialEq, Eq, Structural)]
pub struct Registers {
    pub sts: u32,
    pub dt: u32,
    pub baudr: u32,
    pub ctrl1: u32,
    pub ctrl2: u32,
    pub ctrl3: u32,
}

impl Registers {
    pub open spec fn get(self, r: Register) -> u32 {
        match r {
            Register::Sts => self.sts,
            Register::Dt => self.dt,
            Register::Baudr => self.baudr,
            Register::Ctrl1 => self.ctrl1,
            Register::Ctrl2 => self.ctrl2,
            Register::Ctrl3 => self.ctrl3,
        }
    }

    pub open spec fn set(self, r: Register, word: u32) -> Registers {
        match r {
            Register::Sts => Registers { sts: word, ..self },
            Register::Dt => Registers { dt: word, ..self },
            Register::Baudr => Registers { baudr: word, ..self },
            Register::Ctrl1 => Registers { ctrl1: word, ..self },
            Register::Ctrl2 => Registers { ctrl2: word, ..self },
            Register::Ctrl3 => Registers { ctrl3: word, ..self },
        }
    }

    /// What the registers hold after a reset of the port: nothing to read,
    /// room to write, everything else zero.
    pub open spec fn spec_reset() -> Registers {
        Registers { sts: 0xC0, dt: 0, baudr: 0, ctrl1: 0, ctrl2: 0, ctrl3: 0 }
    }

    /// A port after reset.
    pub fn new() -> (regs: Registers)
        ensures
            regs == Registers::spec_reset(),
    {
        Registers { sts: 0xC0, dt: 0, baudr: 0, ctrl1: 0, ctrl2: 0, ctrl3: 0 }
    }
}

/// Access to the registers of one serial port. `regs` is what the port holds
/// when a call begins. The crate implements the trait for [`Registers`], a
/// port that is plain memory; an implementation for a peripheral reads and
/// writes the memory-mapped registers.
pub trait Instance {
    spec fn regs(&self) -> Registers;

    /// Reads one register.
    fn read(&self, r: Register) -> (word: u32)
        ensures
            word == self.regs().get(r),
    ;

    /// Writes one register.
    fn write(&mut self, r: Register, word: u32)
        ensures
            final(self).regs() == old(self).regs().set(r, word),
    ;

    /// Switches the clock of the port on. The registers keep what they hold.
    fn enable(&mut self)
        ensures
            final(self).regs() == old(self).regs(),
    ;

    /// Resets the port: every register goes back to what it holds after
    /// reset.
    fn reset(&mut self)
        ensures
            final(self).regs() == Registers::spec_reset(),
    ;
}

impl Instance for Registers {
    open spec fn regs(&self) -> Registers {
        *self
    }

    fn read(&self, r: Register) -> (word: u32) {
        match r {
            Register::Sts => self.sts,
            Register::Dt => self.dt,
            Register::Baudr => self.baudr,
            Register::Ctrl1 => self.ctrl1,
            Register::Ctrl2 => self.ctrl2,
            Register::Ctrl3 => self.ctrl3,
        }
    }

    fn enable(&mut self) {
    }

    fn reset(&mut self) {
        *self = Registers::new();
    }

    fn write(&mut self, r: Register, word: u32) {
        match r {
            Register::Sts => {
                self.sts = word;
            },
            Register::Dt => {
                self.dt = word;
            },
            Register::Baudr => {
                self.baudr = word;
            },
            Register::Ctrl1 => {
                self.ctrl1 = word;
            },
            Register::Ctrl2 => {
                self.ctrl2 = word;
            },
            Register::Ctrl3 => {
                self.ctrl3 = word;
            },
        }
    }
}

/// The arithmetic of the divisor stays within 32 bits: the baud rate is not
/// zero, and twice the clock plus half the baud rate fits.
pub open spec fn clock_in_range(pclk: u32, baud: u32) -> bool {
    &&& baud > 0
    &&& 2 * pclk + baud / 2 <= u32::MAX
}

/// The baud rate divisor for a clock of `pclk` hertz, rounded to the nearest.
/// Up to a sixteenth of the clock the port samples each bit 16 times and the
/// divisor is the clock over the baud rate. Up to an eighth it samples 8
/// times: the divisor is twice that, with its lowest four bits, the
/// fraction, halved. Above that there is none.
pub open spec fn spec_divisor(pclk: u32, baud: u32) -> Option<u32> {
    if pclk / 16 >= baud {
        Some(((pclk + baud / 2) / (baud as int)) as u32)
    } else if pclk / 8 >= baud {
        let div = ((2 * pclk + baud / 2) / (baud as int)) as u32;
        Some((div & !0xFu32) | ((div & 0xF) >> 1))
    } else {
        None
    }
}

/// Works out the baud rate divisor.
#[verifier::when_used_as_spec(spec_divisor)]
pub fn divisor(pclk: u32, baud: u32) -> (div: Option<u32>)
    requires
        clock_in_range(pclk, baud),
    ensures
        div == spec_divisor(pclk, baud),
{
    if pclk / 16 >= baud {
        Some((pclk + baud / 2) / baud)
    } else if pclk / 8 >= baud {
        let div: u32 = (pclk * 2 + baud / 2) / baud;
        let frac: u32 = div & 0xF;
        Some((div & !0xFu32) | (frac >> 1))
    } else {
        None
    }
}

/// The CTRL1 word for a frame: port, transmitter and receiver enabled, and
/// the bits for nine data bits, parity and odd parity as `config` asks.
pub open spec fn spec_frame_word(config: Config) -> u32 {
    UEN | TEN | REN | (if config.wordlength == WordLength::DataBits9 {
        DBN
    } else {
        0u32
    }) | (if config.parity != Parity::ParityNone {
        PEN
    } else {
        0u32
    }) | (if config.parity == Parity::ParityOdd {
        PSEL
    } else {
        0u32
    })
}

/// The CTRL3 word for the use of DMA.
pub open spec fn spec_dma_word(dma: DmaConfig) -> u32 {
    match dma {
        DmaConfig::Tx => DMATEN,
        DmaConfig::Rx => DMAREN,
        DmaConfig::TxRx => DMAREN | DMATEN,
        DmaConfig::Disabled => 0,
    }
}

/// The registers after a port was set up for `config` on a clock of `pclk`
/// hertz, where that gives a divisor.
pub open spec fn configured(regs: Registers, config: Config, pclk: u32) -> Registers {
    Registers {
        baudr: spec_divisor(pclk, config.baudrate).unwrap(),
        ctrl1: spec_frame_word(config),
        ctrl2: spec_with_field(0, 12, 0x3, config.stopbits.spec_code()),
        ctrl3: spec_dma_word(config.dma),
        ..regs
    }
}

/// The outcome of a look at the status word for a received word.
pub open spec fn read_u16_result(regs: Registers) -> crate::nb::Result<u16, Error> {
    if regs.sts & PERR != 0 {
        Err(crate::nb::Error::Other(Error::Parity))
    } else if regs.sts & FERR != 0 {
        Err(crate::nb::Error::Other(Error::FrameFormat))
    } else if regs.sts & NERR != 0 {
        Err(crate::nb::Error::Other(Error::Noise))
    } else if regs.sts & ROERR != 0 {
        Err(crate::nb::Error::Other(Error::Overrun))
    } else if regs.sts & RDBF != 0 {
        Ok((regs.dt & 0xFFFF) as u16)
    } else {
        Err(crate::nb::Error::WouldBlock)
    }
}

/// As [`read_u16_result`], with the word cut to eight bits.
pub open spec fn read_u8_result(regs: Registers) -> crate::nb::Result<u8, Error> {
    match read_u16_result(regs) {
        Ok(word) => Ok((word & 0xFF) as u8),
        Err(e) => Err(e),
    }
}

/// The outcome of an attempt to write a word.
pub open spec fn write_result(sts: u32) -> crate::nb::Result<(), Error> {
    if sts & TDBE != 0 {
        Ok(())
    } else {
        Err(crate::nb::Error::WouldBlock)
    }
}

/// The registers after an attempt to write `word`.
pub open spec fn after_write(regs: Registers, word: u16) -> Registers {
    if regs.sts & TDBE != 0 {
        regs.set(Register::Dt, word as u32)
    } else {
        regs
    }
}

/// The outcome of a look at the status word for the end of transmission.
pub open spec fn flush_result(sts: u32) -> crate::nb::Result<(), Error> {
    if sts & TDC != 0 {
        Ok(())
    } else {
        Err(crate::nb::Error::WouldBlock)
    }
}

/// The interrupt enable bit of an event.
pub open spec fn spec_event_enable(event: Event) -> u32 {
    match event {
        Event::Rxne => RDBFIEN,
        Event::Txe => TDBEIEN,
        Event::Idle => IDLEIEN,
    }
}

#[verifier::when_used_as_spec(spec_event_enable)]
pub fn event_enable(event: Event) -> (mask: u32)
    ensures
        mask == spec_event_enable(event),
{
    match event {
        Event::Rxne => RDBFIEN,
        Event::Txe => TDBEIEN,
        Event::Idle => IDLEIEN,
    }
}

/// Operations of a serial port on its registers.
pub trait RegisterBlockImpl: Instance {
    /// Writes the stop bit field, bits 12 and 13 of CTRL2; the rest of the
    /// register is zeroed.
    fn set_stopbits(&mut self, bits: StopBits)
        ensures
            final(self).regs() == old(self).regs().set(
                Register::Ctrl2,
                spec_with_field(0, 12, 0x3, bits.spec_code()),
            ),
    {
        self.write(Register::Ctrl2, with_field(0, 12, 0x3, bits.code()));
    }

    /// Sets the port up for `config` on a clock of `pclk` hertz: divisor,
    /// frame, DMA and stop bits. Settings that give no divisor are refused
    /// and nothing is written.
    fn configure(&mut self, config: Config, pclk: u32) -> (r: Result<(), InvalidConfig>)
        requires
            clock_in_range(pclk, config.baudrate),
        ensures
            spec_divisor(pclk, config.baudrate) is None ==> r is Err && final(self).regs() == old(self).regs(),
            spec_divisor(pclk, config.baudrate) is Some ==> r is Ok && final(self).regs()
                == configured(old(self).regs(), config, pclk),
    {
        let div: u32 = match divisor(pclk, config.baudrate) {
            Some(div) => div,
            None => {
                return Err(InvalidConfig);
            },
        };
        self.write(Register::Baudr, div);
        self.write(Register::Ctrl2, 0);
        self.write(Register::Ctrl3, 0);
        let nine: u32 = match config.wordlength {
            WordLength::DataBits9 => DBN,
            WordLength::DataBits8 => 0,
        };
        let parity: u32 = match config.parity {
            Parity::ParityNone => 0,
            _ => PEN,
        };
        let odd: u32 = match config.parity {
            Parity::ParityOdd => PSEL,
            _ => 0,
        };
        self.write(Register::Ctrl1, UEN | TEN | REN | nine | parity | odd);
        match config.dma {
            DmaConfig::Tx => self.write(Register::Ctrl3, DMATEN),
            DmaConfig::Rx => self.write(Register::Ctrl3, DMAREN),
            DmaConfig::TxRx => self.write(Register::Ctrl3, DMAREN | DMATEN),
            DmaConfig::Disabled => {},
        }
        self.set_stopbits(config.stopbits);
        Ok(())
    }

    /// Reads a word, if one has arrived. An error is reported before a word,
    /// parity first, then framing, noise and overrun; the data register is
    /// read to clear it.
    fn read_u16(&self) -> (r: crate::nb::Result<u16, Error>)
        ensures
            r == read_u16_result(self.regs()),
    {
        let sts: u32 = self.read(Register::Sts);
        if sts & PERR != 0 || sts & FERR != 0 || sts & NERR != 0 || sts & ROERR != 0 {
            let _ = self.read(Register::Dt);
        }
        if sts & PERR != 0 {
            Err(crate::nb::Error::Other(Error::Parity))
        } else if sts & FERR != 0 {
            Err(crate::nb::Error::Other(Error::FrameFormat))
        } else if sts & NERR != 0 {
            Err(crate::nb::Error::Other(Error::Noise))
        } else if sts & ROERR != 0 {
            Err(crate::nb::Error::Other(Error::Overrun))
        } else if sts & RDBF != 0 {
            let raw: u32 = self.read(Register::Dt);
            let low: u32 = raw & 0xFFFF;
            assert(low <= 0xFFFF) by (bit_vector)
                requires
                    low == raw & 0xFFFF,
            ;
            Ok(low as u16)
        } else {
            Err(crate::nb::Error::WouldBlock)
        }
    }

    /// Writes a word, if the transmitter has room.
    fn write_u16(&mut self, word: u16) -> (r: crate::nb::Result<(), Error>)
        ensures
            r == write_result(old(self).regs().sts),
            final(self).regs() == after_write(old(self).regs(), word),
    {
        let sts: u32 = self.read(Register::Sts);
        if sts & TDBE != 0 {
            self.write(Register::Dt, word as u32);
            Ok(())
        } else {
            Err(crate::nb::Error::WouldBlock)
        }
    }

    /// Reads a word and keeps its low eight bits.
    fn read_u8(&self) -> (r: crate::nb::Result<u8, Error>)
        ensures
            r == read_u8_result(self.regs()),
    {
        match self.read_u16() {
            Ok(word) => {
                let low: u16 = word & 0xFF;
                assert(low <= 0xFF) by (bit_vector)
                    requires
                        low == word & 0xFF,
                ;
                Ok(low as u8)
            },
            Err(e) => Err(e),
        }
    }

    /// Writes a word of eight bits.
    fn write_u8(&mut self, word: u8) -> (r: crate::nb::Result<(), Error>)
        ensures
            r == write_result(old(self).regs().sts),
            final(self).regs() == after_write(old(self).regs(), word as u16),
    {
        self.write_u16(word as u16)
    }

    /// Says whether all words have gone out.
    fn flush(&self) -> (r: crate::nb::Result<(), Error>)
        ensures
            r == flush_result(self.regs().sts),
    {
        let sts: u32 = self.read(Register::Sts);
        if sts & TDC != 0 {
            Ok(())
        } else {
            Err(crate::nb::Error::WouldBlock)
        }
    }

    fn is_idle(&self) -> (idle: bool)
        ensures
            idle == (self.regs().sts & IDLEF != 0),
    {
        self.read(Register::Sts) & IDLEF != 0
    }

    fn is_rx_not_empty(&self) -> (full: bool)
        ensures
            full == (self.regs().sts & RDBF != 0),
    {
        self.read(Register::Sts) & RDBF != 0
    }

    /// Clears the idle flag, which reading the status and then the data
    /// register does.
    fn clear_idle_interrupt(&self) {
        let _ = self.read(Register::Sts);
        let _ = self.read(Register::Dt);
    }

    fn is_tx_empty(&self) -> (empty: bool)
        ensures
            empty == (self.regs().sts & TDBE != 0),
    {
        self.read(Register::Sts) & TDBE != 0
    }

    /// Sets bits of CTRL1.
    fn enable_bits(&mut self, mask: u32)
        ensures
            final(self).regs() == old(self).regs().set(
                Register::Ctrl1,
                old(self).regs().ctrl1 | mask,
            ),
    {
        let word: u32 = self.read(Register::Ctrl1);
        self.write(Register::Ctrl1, word | mask);
    }

    /// Clears bits of CTRL1.
    fn disable_bits(&mut self, mask: u32)
        ensures
            final(self).regs() == old(self).regs().set(
                Register::Ctrl1,
                old(self).regs().ctrl1 & !mask,
            ),
    {
        let word: u32 = self.read(Register::Ctrl1);
        self.write(Register::Ctrl1, word & !mask);
    }

    fn listen_rxne(&mut self)
        ensures
            final(self).regs() == old(self).regs().set(
                Register::Ctrl1,
                old(self).regs().ctrl1 | RDBFIEN,
            ),
    {
        self.enable_bits(RDBFIEN)
    }

    fn unlisten_rxne(&mut self)
        ensures
            final(self).regs() == old(self).regs().set(
                Register::Ctrl1,
                old(self).regs().ctrl1 & !RDBFIEN,
            ),
    {
        self.disable_bits(RDBFIEN)
    }

    fn listen_idle(&mut self)
        ensures
            final(self).regs() == old(self).regs().set(
                Register::Ctrl1,
                old(self).regs().ctrl1 | IDLEIEN,
            ),
    {
        self.enable_bits(IDLEIEN)
    }

    fn unlisten_idle(&mut self)
        ensures
            final(self).regs() == old(self).regs().set(
                Register::Ctrl1,
                old(self).regs().ctrl1 & !IDLEIEN,
            ),
    {
        self.disable_bits(IDLEIEN)
    }

    fn listen_txe(&mut self)
        ensures
            final(self).regs() == old(self).regs().set(
                Register::Ctrl1,
                old(self).regs().ctrl1 | TDBEIEN,
            ),
    {
        self.enable_bits(TDBEIEN)
    }

    fn unlisten_txe(&mut self)
        ensures
            final(self).regs() == old(self).regs().set(
                Register::Ctrl1,
                old(self).regs().ctrl1 & !TDBEIEN,
            ),
    {
        self.disable_bits(TDBEIEN)
    }

    /// Switches the interrupt of `event` on.
    fn listen(&mut self, event: Event)
        ensures
            final(self).regs() == old(self).regs().set(
                Register::Ctrl1,
                old(self).regs().ctrl1 | spec_event_enable(event),
            ),
    {
        self.enable_bits(event_enable(event))
    }

    /// Switches the interrupt of `event` off.
    fn unlisten(&mut self, event: Event)
        ensures
            final(self).regs() == old(self).regs().set(
                Register::Ctrl1,
                old(self).regs().ctrl1 & !spec_event_enable(event),
            ),
    {
        self.disable_bits(event_enable(event))
    }
}

impl RegisterBlockImpl for Registers {

}

} // verus!
