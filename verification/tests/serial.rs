use at32f4xx_hal::nb;
use at32f4xx_hal::serial::config::{DmaConfig, Parity, StopBits, WordLength};
use at32f4xx_hal::serial::uart_impls::{divisor, event_enable};
use at32f4xx_hal::serial::{
    Config, Error, Event, Instance, InvalidConfig, Listen, Register, RegisterBlockImpl, Registers,
    Rx, RxISR, Serial, Tx, TxISR, TxListen,
};

type Port = Serial<Registers, u8, &'static str, &'static str>;

fn port(config: Config) -> Port {
    match Serial::new(Registers::new(), ("PA9", "PA10"), config, 36_000_000) {
        Ok(s) => s,
        Err(_) => panic!("the settings fit the clock"),
    }
}

#[test]
fn default_serial_settings() {
    let c = Config::default();
    assert_eq!(
        c,
        Config {
            baudrate: 115_200,
            wordlength: WordLength::DataBits8,
            parity: Parity::ParityNone,
            stopbits: StopBits::STOP1,
            dma: DmaConfig::Disabled
        }
    );
    let d = c
        .baudrate(9600)
        .wordlength_9()
        .parity_odd()
        .stopbits(StopBits::STOP2)
        .dma(DmaConfig::TxRx);
    assert_eq!(
        d,
        Config {
            baudrate: 9600,
            wordlength: WordLength::DataBits9,
            parity: Parity::ParityOdd,
            stopbits: StopBits::STOP2,
            dma: DmaConfig::TxRx
        }
    );
    assert_eq!(d.parity_even().parity, Parity::ParityEven);
    assert_eq!(d.parity_none().parity, Parity::ParityNone);
    assert_eq!(d.wordlength_8().wordlength, WordLength::DataBits8);
    assert_eq!(StopBits::STOP1.code(), 0);
    assert_eq!(StopBits::STOP0P5.code(), 1);
    assert_eq!(StopBits::STOP2.code(), 2);
    assert_eq!(StopBits::STOP1P5.code(), 3);
}

#[test]
fn divisor_is_rounded_to_the_nearest() {
    assert_eq!(divisor(36_000_000, 115_200), Some(313));
    assert_eq!(divisor(36_000_000, 9600), Some(3750));
    assert_eq!(divisor(16, 1), Some(16));
    assert_eq!(divisor(1_600_000, 100_000), Some(16));
    assert_eq!(divisor(1_640_000, 100_000), Some(16));
    assert_eq!(divisor(1_650_000, 100_000), Some(17));
}

#[test]
fn divisor_halves_the_fraction_when_sampling_eight_times() {
    assert_eq!(divisor(1_000_000, 100_000), Some(18));
    assert_eq!(divisor(1_599_999, 100_000), Some(0x20));
    assert_eq!(divisor(8, 1), Some(0x10));
    assert_eq!(divisor(15, 1), Some(0x17));
    assert_eq!(divisor(800_000, 100_000), Some(0x10));
}

#[test]
fn divisor_needs_an_eighth_of_the_clock() {
    assert_eq!(divisor(799_999, 100_000), None);
    assert_eq!(divisor(7, 1), None);
    assert_eq!(divisor(0, 1), None);
    let r: Result<Port, InvalidConfig> =
        Serial::new(Registers::new(), ("tx", "rx"), Config::default().baudrate(5_000_000), 36_000_000);
    assert!(matches!(r, Err(InvalidConfig)));
    let mut regs = Registers::new();
    regs.ctrl1 = 0x55;
    assert_eq!(regs.configure(Config::default(), 100_000), Err(InvalidConfig));
    assert_eq!(regs.ctrl1, 0x55);
    assert_eq!(regs.baudr, 0);
}

#[test]
fn setup_writes_divisor_frame_and_stop_bits() {
    let s = port(Config::default());
    assert_eq!(
        s.tx.usart,
        Registers { sts: 0xC0, dt: 0, baudr: 313, ctrl1: 0x200C, ctrl2: 0, ctrl3: 0 }
    );
    let s = port(
        Config::default()
            .wordlength_9()
            .parity_odd()
            .stopbits(StopBits::STOP1P5)
            .dma(DmaConfig::Rx),
    );
    assert_eq!(s.tx.usart.ctrl1, 0x200C | 0x1000 | 0x400 | 0x200);
    assert_eq!(s.tx.usart.ctrl2, 0x3000);
    assert_eq!(s.tx.usart.ctrl3, 0x40);
    let s = port(Config::default().parity_even().stopbits(StopBits::STOP2).dma(DmaConfig::Tx));
    assert_eq!(s.tx.usart.ctrl1, 0x200C | 0x400);
    assert_eq!(s.tx.usart.ctrl2, 0x2000);
    assert_eq!(s.tx.usart.ctrl3, 0x80);
    let s = port(Config::default().stopbits(StopBits::STOP0P5).dma(DmaConfig::TxRx));
    assert_eq!(s.tx.usart.ctrl2, 0x1000);
    assert_eq!(s.tx.usart.ctrl3, 0xC0);
    let mut regs = Registers::new();
    regs.ctrl2 = 0xFFFF;
    regs.ctrl3 = 0xFFFF;
    regs.ctrl1 = 0xFFFF;
    assert_eq!(regs.configure(Config::default(), 36_000_000), Ok(()));
    assert_eq!((regs.ctrl1, regs.ctrl2, regs.ctrl3), (0x200C, 0, 0));
}

#[test]
fn port_is_reset_before_it_is_set_up() {
    let mut regs = Registers::new();
    regs.ctrl3 = 0x700;
    regs.dt = 0x55;
    regs.sts = 0;
    let s: Port = match Serial::new(regs, ("tx", "rx"), Config::default(), 36_000_000) {
        Ok(s) => s,
        Err(_) => panic!("the settings fit the clock"),
    };
    assert_eq!(
        s.tx.usart,
        Registers { sts: 0xC0, dt: 0, baudr: 313, ctrl1: 0x200C, ctrl2: 0, ctrl3: 0 }
    );
}

#[test]
fn received_words_come_after_errors() {
    let mut regs = Registers::new();
    regs.dt = 0x1_01A5;
    regs.sts = 0;
    assert_eq!(regs.read_u16(), Err(nb::Error::WouldBlock));
    regs.sts = 0x20;
    assert_eq!(regs.read_u16(), Ok(0x01A5));
    assert_eq!(regs.read_u8(), Ok(0xA5));
    regs.sts = 0x28;
    assert_eq!(regs.read_u16(), Err(nb::Error::Other(Error::Overrun)));
    regs.sts = 0x2C;
    assert_eq!(regs.read_u16(), Err(nb::Error::Other(Error::Noise)));
    regs.sts = 0x2E;
    assert_eq!(regs.read_u16(), Err(nb::Error::Other(Error::FrameFormat)));
    regs.sts = 0x2F;
    assert_eq!(regs.read_u16(), Err(nb::Error::Other(Error::Parity)));
    assert_eq!(regs.read_u8(), Err(nb::Error::Other(Error::Parity)));
}

#[test]
fn words_are_written_when_there_is_room() {
    let mut regs = Registers::new();
    regs.sts = 0x40;
    assert_eq!(regs.write_u16(0x155), Err(nb::Error::WouldBlock));
    assert_eq!(regs.dt, 0);
    regs.sts = 0x80;
    assert_eq!(regs.write_u16(0x155), Ok(()));
    assert_eq!(regs.dt, 0x155);
    assert_eq!(regs.write_u8(0x41), Ok(()));
    assert_eq!(regs.dt, 0x41);
    assert_eq!(regs.flush(), Err(nb::Error::WouldBlock));
    regs.sts = 0x40;
    assert_eq!(regs.flush(), Ok(()));
}

#[test]
fn status_flags_are_told_apart() {
    let mut regs = Registers::new();
    assert!(regs.is_tx_empty());
    assert!(!regs.is_idle());
    assert!(!regs.is_rx_not_empty());
    regs.sts = 0x30;
    assert!(!regs.is_tx_empty());
    assert!(regs.is_idle());
    assert!(regs.is_rx_not_empty());
    regs.clear_idle_interrupt();
    assert_eq!(regs.sts, 0x30);
}

#[test]
fn interrupts_are_switched_in_ctrl1() {
    let mut regs = Registers::new();
    regs.listen_rxne();
    assert_eq!(regs.ctrl1, 0x20);
    regs.listen_idle();
    assert_eq!(regs.ctrl1, 0x30);
    regs.listen_txe();
    assert_eq!(regs.ctrl1, 0xB0);
    regs.unlisten_rxne();
    assert_eq!(regs.ctrl1, 0x90);
    regs.unlisten_idle();
    assert_eq!(regs.ctrl1, 0x80);
    regs.unlisten_txe();
    assert_eq!(regs.ctrl1, 0);
    assert_eq!(event_enable(Event::Rxne), 0x20);
    assert_eq!(event_enable(Event::Txe), 0x80);
    assert_eq!(event_enable(Event::Idle), 0x10);
    RegisterBlockImpl::listen(&mut regs, Event::Idle);
    RegisterBlockImpl::listen(&mut regs, Event::Rxne);
    assert_eq!(regs.ctrl1, 0x30);
    RegisterBlockImpl::unlisten(&mut regs, Event::Idle);
    assert_eq!(regs.ctrl1, 0x20);
    regs.set_stopbits(StopBits::STOP2);
    assert_eq!(regs.ctrl2, 0x2000);
    regs.write(Register::Baudr, 5);
    assert_eq!(regs.read(Register::Baudr), 5);
}

#[test]
fn port_reads_writes_and_listens() {
    let mut s = port(Config::default());
    assert_eq!(s.read(), Err(nb::Error::WouldBlock));
    s.tx.usart.sts = 0xE0;
    s.tx.usart.dt = 0x1FF;
    assert_eq!(s.read(), Ok(0xFF));
    assert_eq!(s.write(0x31), Ok(()));
    assert_eq!(s.tx.usart.dt, 0x31);
    assert_eq!(s.flush(), Ok(()));
    assert!(s.is_tx_empty());
    assert!(s.is_rx_not_empty());
    assert!(!s.is_idle());
    s.clear_idle_interrupt();
    s.listen(Event::Txe);
    assert_eq!(s.tx.usart.ctrl1, 0x200C | 0x80);
    s.unlisten(Event::Txe);
    assert_eq!(s.tx.usart.ctrl1, 0x200C);
    let mut wide = s.with_u16_data();
    wide.tx.usart.dt = 0x1FF;
    assert_eq!(wide.read(), Ok(0x1FF));
    assert_eq!(wide.write(0x100), Ok(()));
    assert_eq!(wide.tx.usart.dt, 0x100);
    let narrow = wide.with_u8_data();
    let (usart, pins) = narrow.release();
    assert_eq!(usart.baudr, 313);
    assert_eq!(pins, ("PA9", "PA10"));
}

#[test]
fn port_splits_and_joins() {
    let s = port(Config::default());
    let (mut tx, rx): (Tx<Registers, u8, &str>, Rx<Registers, u8, &str>) = s.split();
    assert_eq!(tx.pin, "PA9");
    assert_eq!(rx.pin, "PA10");
    assert_eq!(tx.write(7), Ok(()));
    assert_eq!(tx.usart.dt, 7);
    assert_eq!(tx.flush(), Ok(()));
    assert!(tx.is_tx_empty());
    tx.listen();
    assert_eq!(tx.usart.ctrl1, 0x200C | 0x80);
    tx.unlisten();
    assert_eq!(tx.usart.ctrl1, 0x200C);
    let s = rx.join(tx);
    let (tx, rx) = s.split();
    let mut tx = tx.with_u16_data();
    let rx = rx.with_u16_data();
    assert_eq!(tx.write(0x1AB), Ok(()));
    assert_eq!(tx.usart.dt, 0x1AB);
    let s = tx.with_u8_data().join(rx.with_u8_data());
    assert_eq!(s.release().1, ("PA9", "PA10"));
}

#[test]
fn single_ends_of_a_port() {
    let tx: Tx<Registers, u8, u8> =
        match Serial::<Registers, u8, u8, ()>::tx(Registers::new(), 9, (), Config::default(), 8_000_000) {
            Ok(tx) => tx,
            Err(_) => panic!("the settings fit the clock"),
        };
    assert_eq!(tx.pin, 9);
    assert_eq!(tx.usart.baudr, 69);
    let rx: Rx<Registers, u16, u8> =
        match Serial::<Registers, u16, (), u8>::rx(Registers::new(), (), 10, Config::default(), 8_000_000) {
            Ok(rx) => rx,
            Err(_) => panic!("the settings fit the clock"),
        };
    assert_eq!(rx.pin, 10);
    assert!(Serial::<Registers, u8, u8, ()>::tx(Registers::new(), 9, (), Config::default(), 900_000)
        .is_err());
    assert!(Serial::<Registers, u8, (), u8>::rx(Registers::new(), (), 9, Config::default(), 900_000)
        .is_err());
}
