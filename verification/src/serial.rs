//! Asynchronous serial communication.
//!
//! A port sends and receives words of eight bits by default. A port set up
//! for nine data bits is turned into one of 16-bit words with
//! [`Serial::with_u16_data`].

use core::marker::PhantomData;
use vstd::prelude::*;

pub mod config;
pub mod uart_impls;

pub use config::{Config, InvalidConfig};
pub use uart_impls::{Instance, Register, RegisterBlockImpl, Registers};

verus! {

/// Receive errors.
#[derive(Clone, Copy, Debug, PartialEq, Eq, Structural)]
pub enum Error {
    /// A word arrived before the one before it was read.
    Overrun,
    /// The frame did not end with a stop bit.
    FrameFormat,
    /// The parity bit did not fit the word.
    Parity,
    /// The line was too noisy.
    Noise,
    /// Another error.
    Other,
}

/// Interrupt events.
#[derive(Clone, Copy, Debug, PartialEq, Eq, Structural)]
pub enum Event {
    /// A word has been received.
    Rxne,
    /// A word can be sent.
    Txe,
    /// The line has gone idle.
    Idle,
}

/// Interrupt handling of a receiver.
pub trait RxISR {
    /// True when the line is idle.
    fn is_idle(&self) -> bool;

    /// True when a word can be read.
    fn is_rx_not_empty(&self) -> bool;

    /// Clears the idle flag.
    fn clear_idle_interrupt(&self);
}

/// Interrupt handling of a transmitter.
pub trait TxISR {
    /// True when a word can be written.
    fn is_tx_empty(&self) -> bool;
}

/// Interrupts of a receiver.
pub trait RxListen {
    /// Switches the interrupt for a received word on.
    fn listen(&mut self);

    /// Switches the interrupt for a received word off.
    fn unlisten(&mut self);

    /// Switches the interrupt for an idle line on.
    fn listen_idle(&mut self);

    /// Switches the interrupt for an idle line off.
    fn unlisten_idle(&mut self);
}

/// Interrupts of a transmitter.
pub trait TxListen {
    /// Switches the interrupt for room in the transmitter on.
    fn listen(&mut self);

    /// Switches the interrupt for room in the transmitter off.
    fn unlisten(&mut self);
}

/// Interrupts of a port.
pub trait Listen {
    /// Switches the interrupt of `event` on.
    fn listen(&mut self, event: Event);

    /// Switches the interrupt of `event` off.
    fn unlisten(&mut self, event: Event);
}

/// Receiver: it holds the receive pin.
pub struct Rx<USART, WORD, RXPIN> {
    pub _word: PhantomData<(USART, WORD)>,
    pub pin: RXPIN,
}

/// Transmitter: it holds the port and the transmit pin.
pub struct Tx<USART, WORD, TXPIN> {
    pub _word: PhantomData<WORD>,
    pub usart: USART,
    pub pin: TXPIN,
}

/// Serial port.
pub struct Serial<USART, WORD, TXPIN, RXPIN> {
    pub tx: Tx<USART, WORD, TXPIN>,
    pub rx: Rx<USART, WORD, RXPIN>,
}

/// Building serial ports from a register block.
pub trait SerialExt<TXPIN, RXPIN>: Sized + RegisterBlockImpl {
    fn serial<WORD>(self, pins: (TXPIN, RXPIN), config: Config, pclk: u32) -> Result<
        Serial<Self, WORD, TXPIN, RXPIN>,
        InvalidConfig,
    >;
}

impl<USART: RegisterBlockImpl, WORD, TXPIN, RXPIN> Serial<USART, WORD, TXPIN, RXPIN> {
    /// What the registers of the port hold.
    pub open spec fn regs(&self) -> Registers {
        self.tx.usart.regs()
    }

    /// Takes over a port and its pins: the clock of the port is switched on,
    /// the port is reset and set up for `config` on a clock of `pclk` hertz.
    /// The settings are refused when the baud rate is more than an eighth of
    /// the clock.
    pub fn new(usart: USART, pins: (TXPIN, RXPIN), config: Config, pclk: u32) -> (r: Result<
        Self,
        InvalidConfig,
    >)
        requires
            uart_impls::clock_in_range(pclk, config.baudrate),
        ensures
            uart_impls::spec_divisor(pclk, config.baudrate) is None ==> r is Err,
            uart_impls::spec_divisor(pclk, config.baudrate) is Some ==> (r matches Ok(s)
                && s.regs() == uart_impls::configured(Registers::spec_reset(), config, pclk)
                && s.tx.pin == pins.0 && s.rx.pin == pins.1),
    {
        let mut usart = usart;
        usart.enable();
        usart.reset();
        match usart.configure(config, pclk) {
            Err(e) => Err(e),
            Ok(_) => Ok(Serial { tx: Tx::new(usart, pins.0), rx: Rx::new(pins.1) }),
        }
    }

    /// The transmitter and the receiver, on their own.
    pub fn split(self) -> (parts: (Tx<USART, WORD, TXPIN>, Rx<USART, WORD, RXPIN>))
        ensures
            parts.0 == self.tx,
            parts.1 == self.rx,
    {
        (self.tx, self.rx)
    }

    /// Gives the port and the pins back.
    pub fn release(self) -> (parts: (USART, (TXPIN, RXPIN)))
        ensures
            parts.0 == self.tx.usart,
            parts.1.0 == self.tx.pin,
            parts.1.1 == self.rx.pin,
    {
        (self.tx.usart, (self.tx.pin, self.rx.pin))
    }

    /// Sets a port up as [`Serial::new`] does and keeps its transmitter.
    pub fn tx(usart: USART, tx_pin: TXPIN, rx_pin: RXPIN, config: Config, pclk: u32) -> (r:
        Result<Tx<USART, WORD, TXPIN>, InvalidConfig>)
        requires
            uart_impls::clock_in_range(pclk, config.baudrate),
        ensures
            uart_impls::spec_divisor(pclk, config.baudrate) is None ==> r is Err,
            uart_impls::spec_divisor(pclk, config.baudrate) is Some ==> (r matches Ok(t)
                && t.usart.regs() == uart_impls::configured(
                Registers::spec_reset(),
                config,
                pclk,
            ) && t.pin == tx_pin),
    {
        match Self::new(usart, (tx_pin, rx_pin), config, pclk) {
            Err(e) => Err(e),
            Ok(s) => Ok(s.split().0),
        }
    }

    /// Sets a port up as [`Serial::new`] does and keeps its receiver. The
    /// port itself is given up.
    pub fn rx(usart: USART, tx_pin: TXPIN, rx_pin: RXPIN, config: Config, pclk: u32) -> (r:
        Result<Rx<USART, WORD, RXPIN>, InvalidConfig>)
        requires
            uart_impls::clock_in_range(pclk, config.baudrate),
        ensures
            uart_impls::spec_divisor(pclk, config.baudrate) is None ==> r is Err,
            uart_impls::spec_divisor(pclk, config.baudrate) is Some ==> (r matches Ok(x) && x.pin
                == rx_pin),
    {
        match Self::new(usart, (tx_pin, rx_pin), config, pclk) {
            Err(e) => Err(e),
            Ok(s) => Ok(s.split().1),
        }
    }

    /// Waits for nothing: says whether all words have gone out.
    pub fn flush(&mut self) -> (r: crate::nb::Result<(), Error>)
        ensures
            final(self).regs() == old(self).regs(),
            r == uart_impls::flush_result(old(self).regs().sts),
    {
        self.tx.usart.flush()
    }
}

impl<USART: RegisterBlockImpl, TXPIN, RXPIN> Serial<USART, u8, TXPIN, RXPIN> {
    /// Turns the port into one that sends and receives 16-bit words, for
    /// frames of nine data bits.
    pub fn with_u16_data(self) -> (s: Serial<USART, u16, TXPIN, RXPIN>)
        ensures
            s.tx.usart == self.tx.usart,
            s.tx.pin == self.tx.pin,
            s.rx.pin == self.rx.pin,
    {
        Serial { tx: self.tx.with_u16_data(), rx: self.rx.with_u16_data() }
    }

    /// Reads a word, if one has arrived.
    pub fn read(&mut self) -> (r: crate::nb::Result<u8, Error>)
        ensures
            final(self).regs() == old(self).regs(),
            r == uart_impls::read_u8_result(old(self).regs()),
    {
        self.tx.usart.read_u8()
    }

    /// Writes a word, if the transmitter has room.
    pub fn write(&mut self, word: u8) -> (r: crate::nb::Result<(), Error>)
        ensures
            r == uart_impls::write_result(old(self).regs().sts),
            final(self).regs() == uart_impls::after_write(old(self).regs(), word as u16),
    {
        self.tx.usart.write_u8(word)
    }
}

impl<USART: RegisterBlockImpl, TXPIN, RXPIN> Serial<USART, u16, TXPIN, RXPIN> {
    /// Turns the port into one that sends and receives 8-bit words.
    pub fn with_u8_data(self) -> (s: Serial<USART, u8, TXPIN, RXPIN>)
        ensures
            s.tx.usart == self.tx.usart,
            s.tx.pin == self.tx.pin,
            s.rx.pin == self.rx.pin,
    {
        Serial { tx: self.tx.with_u8_data(), rx: self.rx.with_u8_data() }
    }

    /// Reads a word, if one has arrived.
    pub fn read(&mut self) -> (r: crate::nb::Result<u16, Error>)
        ensures
            final(self).regs() == old(self).regs(),
            r == uart_impls::read_u16_result(old(self).regs()),
    {
        self.tx.usart.read_u16()
    }

    /// Writes a word, if the transmitter has room.
    pub fn write(&mut self, word: u16) -> (r: crate::nb::Result<(), Error>)
        ensures
            r == uart_impls::write_result(old(self).regs().sts),
            final(self).regs() == uart_impls::after_write(old(self).regs(), word),
    {
        self.tx.usart.write_u16(word)
    }
}

impl<USART, RXPIN> Rx<USART, u8, RXPIN> {
    pub fn with_u16_data(self) -> (r: Rx<USART, u16, RXPIN>)
        ensures
            r.pin == self.pin,
    {
        Rx::new(self.pin)
    }
}

impl<USART, RXPIN> Rx<USART, u16, RXPIN> {
    pub fn with_u8_data(self) -> (r: Rx<USART, u8, RXPIN>)
        ensures
            r.pin == self.pin,
    {
        Rx::new(self.pin)
    }
}

impl<USART, TXPIN> Tx<USART, u8, TXPIN> {
    pub fn with_u16_data(self) -> (t: Tx<USART, u16, TXPIN>)
        ensures
            t.usart == self.usart,
            t.pin == self.pin,
    {
        Tx::new(self.usart, self.pin)
    }
}

impl<USART, TXPIN> Tx<USART, u16, TXPIN> {
    pub fn with_u8_data(self) -> (t: Tx<USART, u8, TXPIN>)
        ensures
            t.usart == self.usart,
            t.pin == self.pin,
    {
        Tx::new(self.usart, self.pin)
    }
}

impl<USART, WORD, RXPIN> Rx<USART, WORD, RXPIN> {
    pub fn new(pin: RXPIN) -> (r: Self)
        ensures
            r.pin == pin,
    {
        Rx { _word: PhantomData, pin }
    }

    /// Puts a receiver and a transmitter together again.
    pub fn join<TXPIN>(self, tx: Tx<USART, WORD, TXPIN>) -> (s: Serial<USART, WORD, TXPIN, RXPIN>)
        ensures
            s.tx == tx,
            s.rx == self,
    {
        Serial { tx, rx: self }
    }
}

impl<USART, WORD, TXPIN> Tx<USART, WORD, TXPIN> {
    pub fn new(usart: USART, pin: TXPIN) -> (t: Self)
        ensures
            t.usart == usart,
            t.pin == pin,
    {
        Tx { _word: PhantomData, usart, pin }
    }

    /// Puts a transmitter and a receiver together again.
    pub fn join<RXPIN>(self, rx: Rx<USART, WORD, RXPIN>) -> (s: Serial<USART, WORD, TXPIN, RXPIN>)
        ensures
            s.tx == self,
            s.rx == rx,
    {
        Serial { tx: self, rx }
    }
}

impl<USART: RegisterBlockImpl, TXPIN> Tx<USART, u8, TXPIN> {
    /// Writes a word, if the transmitter has room.
    pub fn write(&mut self, word: u8) -> (r: crate::nb::Result<(), Error>)
        ensures
            final(self).pin == old(self).pin,
            r == uart_impls::write_result(old(self).usart.regs().sts),
            final(self).usart.regs() == uart_impls::after_write(
                old(self).usart.regs(),
                word as u16,
            ),
    {
        self.usart.write_u8(word)
    }
}

impl<USART: RegisterBlockImpl, TXPIN> Tx<USART, u16, TXPIN> {
    /// Writes a word, if the transmitter has room.
    pub fn write(&mut self, word: u16) -> (r: crate::nb::Result<(), Error>)
        ensures
            final(self).pin == old(self).pin,
            r == uart_impls::write_result(old(self).usart.regs().sts),
            final(self).usart.regs() == uart_impls::after_write(old(self).usart.regs(), word),
    {
        self.usart.write_u16(word)
    }
}

impl<USART: RegisterBlockImpl, WORD, TXPIN> Tx<USART, WORD, TXPIN> {
    /// Says whether all words have gone out.
    pub fn flush(&mut self) -> (r: crate::nb::Result<(), Error>)
        ensures
            final(self).pin == old(self).pin,
            final(self).usart.regs() == old(self).usart.regs(),
            r == uart_impls::flush_result(old(self).usart.regs().sts),
    {
        self.usart.flush()
    }
}

impl<USART: RegisterBlockImpl, WORD, TXPIN> TxISR for Tx<USART, WORD, TXPIN> {
    fn is_tx_empty(&self) -> (empty: bool)
        ensures
            empty == (self.usart.regs().sts & uart_impls::TDBE != 0),
    {
        self.usart.is_tx_empty()
    }
}

impl<USART: RegisterBlockImpl, WORD, TXPIN> TxListen for Tx<USART, WORD, TXPIN> {
    fn listen(&mut self)
        ensures
            final(self).usart.regs() == old(self).usart.regs().set(
                Register::Ctrl1,
                old(self).usart.regs().ctrl1 | uart_impls::TDBEIEN,
            ),
    {
        self.usart.listen_txe()
    }

    fn unlisten(&mut self)
        ensures
            final(self).usart.regs() == old(self).usart.regs().set(
                Register::Ctrl1,
                old(self).usart.regs().ctrl1 & !uart_impls::TDBEIEN,
            ),
    {
        self.usart.unlisten_txe()
    }
}

impl<USART: RegisterBlockImpl, WORD, TXPIN, RXPIN> TxISR for Serial<USART, WORD, TXPIN, RXPIN> {
    fn is_tx_empty(&self) -> (empty: bool)
        ensures
            empty == (self.regs().sts & uart_impls::TDBE != 0),
    {
        self.tx.usart.is_tx_empty()
    }
}

impl<USART: RegisterBlockImpl, WORD, TXPIN, RXPIN> RxISR for Serial<USART, WORD, TXPIN, RXPIN> {
    fn is_idle(&self) -> (idle: bool)
        ensures
            idle == (self.regs().sts & uart_impls::IDLEF != 0),
    {
        self.tx.usart.is_idle()
    }

    fn is_rx_not_empty(&self) -> (full: bool)
        ensures
            full == (self.regs().sts & uart_impls::RDBF != 0),
    {
        self.tx.usart.is_rx_not_empty()
    }

    fn clear_idle_interrupt(&self) {
        self.tx.usart.clear_idle_interrupt();
    }
}

impl<USART: RegisterBlockImpl, WORD, TXPIN, RXPIN> Listen for Serial<USART, WORD, TXPIN, RXPIN> {
    fn listen(&mut self, event: Event)
        ensures
            final(self).regs() == old(self).regs().set(
                Register::Ctrl1,
                old(self).regs().ctrl1 | uart_impls::spec_event_enable(event),
            ),
    {
        self.tx.usart.listen(event)
    }

    fn unlisten(&mut self, event: Event)
        ensures
            final(self).regs() == old(self).regs().set(
                Register::Ctrl1,
                old(self).regs().ctrl1 & !uart_impls::spec_event_enable(event),
            ),
    {
        self.tx.usart.unlisten(event)
    }
}

} // verus!
