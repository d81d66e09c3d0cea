//! Settings of a serial port.

use vstd::prelude::*;

verus! {

/// Number of data bits of a frame.
#[derive(Clone, Copy, Debug, PartialEq, Eq, Structural)]
pub enum WordLength {
    DataBits8,
    DataBits9,
}

/// Parity bit of a frame.
#[derive(Clone, Copy, Debug, PartialEq, Eq, Structural)]
pub enum Parity {
    ParityNone,
    ParityEven,
    ParityOdd,
}

/// Number of stop bits of a frame.
#[derive(Clone, Copy, Debug, PartialEq, Eq, Structural)]
pub enum StopBits {
    /// One stop bit.
    STOP1,
    /// Half a stop bit.
    STOP0P5,
    /// Two stop bits.
    STOP2,
    /// One and a half stop bits.
    STOP1P5,
}

impl StopBits {
    /// The value that stands for the setting in the stop bit field.
    pub open spec fn spec_code(self) -> u32 {
        match self {
            StopBits::STOP1 => 0,
            StopBits::STOP0P5 => 1,
            StopBits::STOP2 => 2,
            StopBits::STOP1P5 => 3,
        }
    }

    #[verifier::when_used_as_spec(spec_code)]
    pub fn code(self) -> (c: u32)
        ensures
            c == self.spec_code(),
    {
        match self {
            StopBits::STOP1 => 0,
            StopBits::STOP0P5 => 1,
            StopBits::STOP2 => 2,
            StopBits::STOP1P5 => 3,
        }
    }
}

/// Use of DMA by a serial port.
#[derive(Clone, Copy, Debug, PartialEq, Eq, Structural)]
pub enum DmaConfig {
    /// No DMA.
    Disabled,
    Tx,
    Rx,
    TxRx,
}

/// Settings of a serial port.
#[derive(Clone, Copy, Debug, PartialEq, Eq, Structural)]
pub struct Config {
    /// Bits per second.
    pub baudrate: u32,
    pub wordlength: WordLength,
    pub parity: Parity,
    pub stopbits: StopBits,
    pub dma: DmaConfig,
}

/// The settings cannot be had on the clock of the port.
#[derive(Clone, Copy, Debug, PartialEq, Eq, Structural)]
pub struct InvalidConfig;

impl Config {
    /// 115200 bits per second, eight data bits, no parity, one stop bit, no
    /// DMA.
    pub open spec fn spec_default() -> Config {
        Config {
            baudrate: 115_200,
            wordlength: WordLength::DataBits8,
            parity: Parity::ParityNone,
            stopbits: StopBits::STOP1,
            dma: DmaConfig::Disabled,
        }
    }

    pub fn baudrate(self, baudrate: u32) -> (c: Self)
        ensures
            c == (Config { baudrate, ..self }),
    {
        let mut c = self;
        c.baudrate = baudrate;
        c
    }

    pub fn parity_none(self) -> (c: Self)
        ensures
            c == (Config { parity: Parity::ParityNone, ..self }),
    {
        let mut c = self;
        c.parity = Parity::ParityNone;
        c
    }

    pub fn parity_even(self) -> (c: Self)
        ensures
            c == (Config { parity: Parity::ParityEven, ..self }),
    {
        let mut c = self;
        c.parity = Parity::ParityEven;
        c
    }

    pub fn parity_odd(self) -> (c: Self)
        ensures
            c == (Config { parity: Parity::ParityOdd, ..self }),
    {
        let mut c = self;
        c.parity = Parity::ParityOdd;
        c
    }

    pub fn wordlength_8(self) -> (c: Self)
        ensures
            c == (Config { wordlength: WordLength::DataBits8, ..self }),
    {
        let mut c = self;
        c.wordlength = WordLength::DataBits8;
        c
    }

    pub fn wordlength_9(self) -> (c: Self)
        ensures
            c == (Config { wordlength: WordLength::DataBits9, ..self }),
    {
        let mut c = self;
        c.wordlength = WordLength::DataBits9;
        c
    }

    pub fn stopbits(self, stopbits: StopBits) -> (c: Self)
        ensures
            c == (Config { stopbits, ..self }),
    {
        let mut c = self;
        c.stopbits = stopbits;
        c
    }

    pub fn dma(self, dma: DmaConfig) -> (c: Self)
        ensures
            c == (Config { dma, ..self }),
    {
        let mut c = self;
        c.dma = dma;
        c
    }
}

impl Default for Config {
    fn default() -> (c: Self)
        ensures
            c == Config::spec_default(),
    {
        Config {
            baudrate: 115_200,
            wordlength: WordLength::DataBits8,
            parity: Parity::ParityNone,
            stopbits: StopBits::STOP1,
            dma: DmaConfig::Disabled,
        }
    }
}

} // verus!
