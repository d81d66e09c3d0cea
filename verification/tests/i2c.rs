use at32f4xx_hal::i2c::request::{ACKEN, BUSYF, GENSTART, GENSTOP, I2CEN, TRMODE};
use at32f4xx_hal::i2c::status::{
    ACKFAIL, ADDR7F, ARLOST, BUSERR, OUF, PECERR, RDBF, STARTF, TDBE, TDC, TMOUT,
};
use at32f4xx_hal::i2c::{
    check_and_clear_error_flags, modified, timing, DutyCycle, Error, I2c, Instance, Mode,
    NoAcknowledgeSource, Operation, Poll, Register, Registers, Request, Timing, Transfer,
};
use std::cell::RefCell;

/// A simulated bus controller with one obliging target behind it.
struct Bus {
    ctrl1: u32,
    sts1: u32,
    sts2: u32,
    /// Bytes the target will hand out.
    incoming: Vec<u8>,
    /// Words written to the data register, address bytes included.
    written: Vec<u32>,
    /// Status reads that show nothing new after each command.
    lag: u32,
    quiet: u32,
    /// Index of the data register write that the target does not acknowledge.
    nack_at: Option<usize>,
    /// Flags raised together with the start flag.
    raise_on_start: u32,
    expecting_address: bool,
    reading: bool,
    clocked: bool,
    resets: u32,
    log: Vec<Request>,
}

impl Bus {
    fn new(incoming: &[u8]) -> Bus {
        Bus {
            ctrl1: I2CEN,
            sts1: 0,
            sts2: 0,
            incoming: incoming.to_vec(),
            written: Vec::new(),
            lag: 0,
            quiet: 0,
            nack_at: None,
            raise_on_start: 0,
            expecting_address: false,
            reading: false,
            clocked: false,
            resets: 0,
            log: Vec::new(),
        }
    }

    fn load(&mut self) {
        if self.reading && !self.incoming.is_empty() {
            self.sts1 |= RDBF;
        }
    }

    fn perform(&mut self, request: Request) -> u32 {
        self.log.push(request);
        match request {
            Request::Read(Register::Ctrl1) => self.ctrl1,
            Request::Read(Register::Sts1) => {
                if self.quiet > 0 {
                    self.quiet -= 1;
                    self.sts1 & (BUSERR | ARLOST | ACKFAIL | OUF | PECERR | TMOUT)
                } else {
                    self.sts1
                }
            }
            Request::Read(Register::Sts2) => {
                let word = self.sts2;
                if self.sts1 & ADDR7F != 0 {
                    self.sts1 &= !ADDR7F;
                    if self.reading {
                        self.load();
                    } else {
                        self.sts1 |= TDBE;
                    }
                }
                word
            }
            Request::Read(Register::Dt) => {
                let byte = self.incoming.remove(0);
                self.sts1 &= !RDBF;
                self.load();
                self.quiet = self.lag;
                0xABCD_EF00 | byte as u32
            }
            Request::Read(_) => 0,
            Request::Write(Register::Dt, word) => {
                let refused = self.nack_at == Some(self.written.len());
                self.written.push(word);
                self.sts1 &= !(STARTF | TDC | TDBE);
                if refused {
                    self.sts1 |= ACKFAIL;
                } else if self.expecting_address {
                    self.reading = word & 1 == 1;
                    self.sts1 |= ADDR7F;
                } else {
                    self.sts1 |= TDC | TDBE;
                }
                self.expecting_address = false;
                self.quiet = self.lag;
                0
            }
            Request::Write(Register::Ctrl1, word) => self.perform_ctrl1(word, word),
            Request::Write(Register::Sts1, word) => {
                self.sts1 = word;
                0
            }
            Request::Write(_, _) => 0,
            Request::Modify(Register::Ctrl1, clear, set) => {
                let word = modified(self.ctrl1, clear, set);
                self.perform_ctrl1(word, set)
            }
            Request::Modify(Register::Sts1, clear, set) => {
                self.sts1 = modified(self.sts1, clear, set);
                0
            }
            Request::Modify(_, _, _) => 0,
        }
    }

    fn perform_ctrl1(&mut self, word: u32, set: u32) -> u32 {
        {
            {
                self.ctrl1 = word;
                if set & GENSTART != 0 {
                    self.ctrl1 &= !GENSTART;
                    self.sts1 &= !(TDC | TDBE | RDBF);
                    self.sts1 |= STARTF | self.raise_on_start;
                    self.sts2 = (self.sts2 | TRMODE) & !BUSYF;
                    self.expecting_address = true;
                }
                if set & GENSTOP != 0 {
                    self.ctrl1 &= !GENSTOP;
                }
                self.quiet = self.lag;
                0
            }
        }
    }

    /// Performs what the transfer asks for until it is done.
    fn drive(&mut self, transfer: &mut Transfer) -> Result<(), Error> {
        for _ in 0..10_000 {
            match transfer.poll() {
                Poll::Ready(result) => return result,
                Poll::Pending(request) => {
                    let reply = self.perform(request);
                    transfer.advance(reply);
                }
            }
        }
        panic!("the transfer did not come to an end");
    }

    /// The accesses that act on the bus: changes of CTRL1 and every access
    /// to the data register.
    fn commands(&self) -> Vec<Request> {
        self.log
            .iter()
            .copied()
            .filter(|r| {
                matches!(
                    r,
                    Request::Modify(Register::Ctrl1, _, _)
                        | Request::Write(Register::Dt, _)
                        | Request::Read(Register::Dt)
                )
            })
            .collect()
    }

    fn starts(&self) -> usize {
        self.log
            .iter()
            .filter(|r| matches!(r, Request::Modify(Register::Ctrl1, _, set) if set & GENSTART != 0))
            .count()
    }

    fn stops(&self) -> usize {
        self.log
            .iter()
            .filter(|r| matches!(r, Request::Modify(Register::Ctrl1, _, set) if set & GENSTOP != 0))
            .count()
    }
}

const START_WRITE: Request = Request::Modify(Register::Ctrl1, 0, GENSTART);
const START_READ: Request = Request::Modify(Register::Ctrl1, 0, GENSTART | ACKEN);
const NACK_STOP: Request = Request::Modify(Register::Ctrl1, ACKEN, GENSTOP);
const STOP: Request = Request::Modify(Register::Ctrl1, 0, GENSTOP);
const CLOCK_IN: Request = Request::Read(Register::Dt);

fn send(word: u32) -> Request {
    Request::Write(Register::Dt, word)
}

fn handle() -> I2c<Registers, (u8, u8)> {
    I2c::new(Registers::new(), (6, 7), Mode::standard(100_000), 36_000_000)
}

fn bind<I: Instance, P>(i2c: I, pins: P, mode: Mode, pclk: u32) -> I2c<I, P> {
    I2c::new(i2c, pins, mode, pclk)
}

/// Registers of plain memory whose status words have every awaited flag up,
/// reset or not.
struct Still(Registers);

impl Still {
    fn new() -> Still {
        let mut regs = Registers::new();
        regs.sts1 = STARTF | ADDR7F | TDBE | TDC;
        regs.sts2 = TRMODE;
        Still(regs)
    }
}

impl Instance for Still {
    fn enable(&mut self) {}

    fn reset(&mut self) {
        *self = Still::new();
    }

    fn regs(&self) -> Registers {
        self.0
    }

    fn read(&self, r: Register) -> u32 {
        self.0.read(r)
    }

    fn write(&mut self, r: Register, word: u32) {
        self.0.write(r, word)
    }
}

/// The simulated controller behind the register interface of the driver.
struct Wired(RefCell<Bus>);

impl Instance for Wired {
    fn enable(&mut self) {
        self.0.borrow_mut().clocked = true;
    }

    fn reset(&mut self) {
        let mut bus = self.0.borrow_mut();
        assert!(bus.clocked);
        bus.ctrl1 = 0;
        bus.sts1 = 0;
        bus.sts2 = 0;
        bus.resets += 1;
    }

    fn regs(&self) -> Registers {
        let bus = self.0.borrow();
        Registers {
            ctrl1: bus.ctrl1,
            ctrl2: 0,
            clkctrl: 0,
            tmrise: 0,
            sts1: bus.sts1,
            sts2: bus.sts2,
            dt: 0,
        }
    }

    fn read(&self, r: Register) -> u32 {
        self.0.borrow_mut().perform(Request::Read(r))
    }

    fn write(&mut self, r: Register, word: u32) {
        self.0.borrow_mut().perform(Request::Write(r, word));
    }
}

fn read_buffer(op: &Operation) -> Vec<u8> {
    match op {
        Operation::Read(buffer) => buffer.clone(),
        Operation::Write(_) => panic!("a write holds no read buffer"),
    }
}

#[test]
fn status_without_flags_is_handed_back() {
    let out = check_and_clear_error_flags(STARTF | TDBE);
    assert_eq!(out.result, Ok(STARTF | TDBE));
    assert_eq!(out.clear, 0);
}

#[test]
fn each_fault_flag_gives_its_error_and_is_the_one_cleared() {
    let cases = [
        (TMOUT, Error::Timeout),
        (PECERR, Error::Crc),
        (OUF, Error::Overrun),
        (ACKFAIL, Error::NoAcknowledge(NoAcknowledgeSource::Unknown)),
        (ARLOST, Error::ArbitrationLoss),
    ];
    for (flag, error) in cases {
        let out = check_and_clear_error_flags(flag | TDBE | BUSERR);
        assert_eq!(out.result, Err(error));
        assert_eq!(out.clear, flag);
    }
}

#[test]
fn faults_are_reported_by_priority() {
    let all = TMOUT | PECERR | OUF | ACKFAIL | ARLOST | BUSERR;
    assert_eq!(check_and_clear_error_flags(all).result, Err(Error::Timeout));
    assert_eq!(check_and_clear_error_flags(all).clear, TMOUT);
    let all = all & !TMOUT;
    assert_eq!(check_and_clear_error_flags(all).result, Err(Error::Crc));
    let all = all & !PECERR;
    assert_eq!(check_and_clear_error_flags(all).result, Err(Error::Overrun));
    let all = all & !OUF;
    assert_eq!(
        check_and_clear_error_flags(all).result,
        Err(Error::NoAcknowledge(NoAcknowledgeSource::Unknown))
    );
    let all = all & !ACKFAIL;
    assert_eq!(check_and_clear_error_flags(all).result, Err(Error::ArbitrationLoss));
    assert_eq!(check_and_clear_error_flags(all).clear, ARLOST);
}

#[test]
fn bus_error_alone_is_cleared_and_not_reported() {
    let out = check_and_clear_error_flags(BUSERR);
    assert_eq!(out.result, Ok(BUSERR));
    assert_eq!(out.clear, BUSERR);
    let out = check_and_clear_error_flags(BUSERR | ADDR7F | TDBE);
    assert_eq!(out.result, Ok(BUSERR | ADDR7F | TDBE));
    assert_eq!(out.clear, BUSERR);
    // Clearing that flag leaves every other bit of the register alone.
    assert_eq!(modified(BUSERR | ADDR7F | TDBE, out.clear, 0), ADDR7F | TDBE);
}

#[test]
fn acknowledge_failure_is_retagged_only_when_unknown() {
    let unknown = Error::NoAcknowledge(NoAcknowledgeSource::Unknown);
    assert_eq!(unknown.nack_addr(), Error::NoAcknowledge(NoAcknowledgeSource::Address));
    assert_eq!(unknown.nack_data(), Error::NoAcknowledge(NoAcknowledgeSource::Data));
    let data = Error::NoAcknowledge(NoAcknowledgeSource::Data);
    assert_eq!(data.nack_addr(), data);
    assert_eq!(Error::Timeout.nack_addr(), Error::Timeout);
    assert_eq!(Error::ArbitrationLoss.nack_data(), Error::ArbitrationLoss);
}

#[test]
fn mode_from_frequency_switches_above_100_khz() {
    assert_eq!(Mode::from(100_000), Mode::Standard { frequency: 100_000 });
    assert_eq!(
        Mode::from(100_001),
        Mode::Fast { frequency: 100_001, duty_cycle: DutyCycle::Ratio2to1 }
    );
    assert_eq!(Mode::standard(50_000).get_frequency(), 50_000);
    assert_eq!(Mode::fast(400_000, DutyCycle::Ratio16to9).get_frequency(), 400_000);
}

#[test]
fn timing_of_standard_mode() {
    let t = timing(Mode::standard(100_000), 36_000_000);
    assert_eq!(
        t,
        Timing { clkfreq: 36, risetime: 37, speed: 180, duty16_9: false, fast: false }
    );
    assert_eq!(t.clkctrl(), 180);
}

#[test]
fn timing_of_fast_mode() {
    let t = timing(Mode::fast(400_000, DutyCycle::Ratio2to1), 36_000_000);
    assert_eq!(t, Timing { clkfreq: 36, risetime: 11, speed: 30, duty16_9: false, fast: true });
    assert_eq!(t.clkctrl(), 0x8000 | 30);
    let t = timing(Mode::fast(400_000, DutyCycle::Ratio16to9), 36_000_000);
    assert_eq!(t, Timing { clkfreq: 36, risetime: 11, speed: 3, duty16_9: true, fast: true });
    assert_eq!(t.clkctrl(), 0xC000 | 3);
}

#[test]
fn timing_keeps_the_divider_above_its_minimum() {
    assert_eq!(timing(Mode::standard(1_000_000), 2_000_000).speed, 4);
    assert_eq!(timing(Mode::fast(1_000_000, DutyCycle::Ratio2to1), 2_000_000).speed, 1);
    assert_eq!(timing(Mode::fast(1_000_000, DutyCycle::Ratio16to9), 50_999_999).speed, 2);
    assert_eq!(timing(Mode::standard(1), 50_000_000).speed, (25_000_000 % 4096) as u16);
}

#[test]
fn new_resets_writes_the_speed_fields_and_enables() {
    let mut regs = Registers::new();
    regs.ctrl1 = 0x8000 | I2CEN;
    regs.sts1 = TDBE;
    regs.clkctrl = 0x0FFF;
    let i2c = bind(regs, (), Mode::fast(400_000, DutyCycle::Ratio16to9), 8_000_000);
    let (regs, ()) = i2c.release();
    assert_eq!(
        regs,
        Registers {
            ctrl1: I2CEN,
            ctrl2: 8,
            clkctrl: 0xC000 | 1,
            tmrise: 3,
            sts1: 0,
            sts2: 0,
            dt: 0
        }
    );
    assert_eq!(Registers::new().tmrise, 2);
}

#[test]
fn new_disables_the_controller_while_it_sets_it_up() {
    let bus = Wired(RefCell::new(Bus::new(&[])));
    let i2c = bind(bus, (), Mode::standard(100_000), 36_000_000);
    let (bus, ()) = i2c.release();
    let bus = bus.0.into_inner();
    assert!(bus.clocked);
    assert_eq!(bus.resets, 1);
    assert_eq!(
        bus.log,
        vec![
            Request::Read(Register::Ctrl1),
            Request::Write(Register::Ctrl1, 0),
            Request::Write(Register::Ctrl2, 36),
            Request::Write(Register::Tmrise, 37),
            Request::Write(Register::Clkctrl, 180),
            Request::Read(Register::Ctrl1),
            Request::Write(Register::Ctrl1, I2CEN),
        ]
    );
}

#[test]
fn release_gives_the_parts_back() {
    let i2c = bind(Registers::new(), (6u8, 7u8), Mode::standard(100_000), 36_000_000);
    let (regs, pins) = i2c.release();
    assert_eq!(regs.ctrl2, 36);
    assert_eq!(pins, (6, 7));
}

#[test]
fn step_performs_the_accesses_on_the_controller() {
    let bus = Wired(RefCell::new(Bus::new(&[0x77, 0x88])));
    let mut i2c = bind(bus, (), Mode::standard(100_000), 36_000_000);
    let mut transfer = i2c.write_read(0x50, &[0x01], vec![0, 0]);
    let mut result = None;
    for _ in 0..1000 {
        result = i2c.step(&mut transfer);
        if result.is_some() {
            break;
        }
    }
    assert_eq!(result, Some(Ok(())));
    assert_eq!(i2c.step(&mut transfer), Some(Ok(())));
    let (bus, ()) = i2c.release();
    assert_eq!(bus.0.into_inner().written, vec![0xA0, 0x01, 0xA1]);
    assert_eq!(read_buffer(&transfer.into_operations()[1]), vec![0x77, 0x88]);
}

#[test]
fn step_on_registers_that_never_change() {
    // A block of plain memory with every awaited flag up lets a write run
    // through, and a fault flag that is up ends it.
    let mut i2c = bind(Still::new(), (), Mode::standard(100_000), 36_000_000);
    let mut transfer = i2c.write(0x10, &[1, 2, 3]);
    let mut result = None;
    for _ in 0..100 {
        result = i2c.step(&mut transfer);
        if result.is_some() {
            break;
        }
    }
    assert_eq!(result, Some(Ok(())));
    let (still, ()) = i2c.release();
    assert_eq!(still.0.dt, 3);
    assert_eq!(still.0.ctrl1, I2CEN | GENSTART | GENSTOP);
}

#[test]
fn read_into_an_empty_buffer_is_an_overrun_without_start() {
    let mut i2c = handle();
    assert!(matches!(i2c.read(0x50, Vec::new()), Err(Error::Overrun)));
}

#[test]
fn empty_transaction_succeeds_without_bus_activity() {
    let mut i2c = handle();
    let mut bus = Bus::new(&[]);
    let mut transfer = i2c.transaction(0x50, Vec::new());
    assert!(transfer.is_ready());
    assert!(matches!(transfer.poll(), Poll::Ready(Ok(()))));
    assert_eq!(bus.drive(&mut transfer), Ok(()));
    assert!(bus.log.is_empty());
    // A transfer that is done ignores what it is handed.
    transfer.advance(0xFFFF_FFFF);
    assert!(matches!(transfer.poll(), Poll::Ready(Ok(()))));
}

#[test]
fn write_sends_start_address_bytes_stop() {
    let mut i2c = handle();
    let mut bus = Bus::new(&[]);
    let mut transfer = i2c.write(0x50, &[0x10, 0x20, 0x30]);
    assert_eq!(bus.drive(&mut transfer), Ok(()));
    assert_eq!(
        bus.commands(),
        vec![START_WRITE, send(0xA0), send(0x10), send(0x20), send(0x30), STOP]
    );
}

#[test]
fn first_accesses_of_a_write_follow_the_address_phase() {
    let mut i2c = handle();
    let mut bus = Bus::new(&[]);
    let mut transfer = i2c.write(0x21, &[0x01]);
    assert_eq!(bus.drive(&mut transfer), Ok(()));
    assert_eq!(
        bus.log,
        vec![
            Request::Read(Register::Ctrl1),
            START_WRITE,
            Request::Read(Register::Sts1),
            Request::Read(Register::Sts1),
            Request::Read(Register::Sts2),
            send(0x42),
            Request::Read(Register::Sts1),
            Request::Read(Register::Sts2),
            Request::Read(Register::Sts1),
            send(0x01),
            Request::Read(Register::Sts1),
            STOP,
        ]
    );
}

#[test]
fn address_byte_is_the_address_shifted_with_the_direction_bit() {
    let mut i2c = handle();
    let mut bus = Bus::new(&[0]);
    let mut transfer = i2c.read(0x7F, vec![0]).unwrap();
    assert_eq!(bus.drive(&mut transfer), Ok(()));
    assert_eq!(bus.written, vec![0xFF]);
    let mut bus = Bus::new(&[]);
    let mut transfer = i2c.write(0x7F, &[]);
    assert_eq!(bus.drive(&mut transfer), Ok(()));
    assert_eq!(bus.written, vec![0xFE]);
    assert_eq!(bus.commands(), vec![START_WRITE, send(0xFE), STOP]);
}

#[test]
fn read_arms_stop_just_before_the_last_byte() {
    for n in 1..6usize {
        let data: Vec<u8> = (0..n as u8).map(|b| 0x80 + b).collect();
        let mut i2c = handle();
        let mut bus = Bus::new(&data);
        bus.lag = 2;
        let mut transfer = i2c.read(0x50, vec![0; n]).unwrap();
        assert_eq!(bus.drive(&mut transfer), Ok(()));
        let mut expected = vec![START_READ, send(0xA1)];
        expected.extend(std::iter::repeat(CLOCK_IN).take(n - 1));
        expected.push(NACK_STOP);
        expected.push(CLOCK_IN);
        assert_eq!(bus.commands(), expected);
        assert_eq!(bus.commands().iter().filter(|r| **r == NACK_STOP).count(), 1);
        assert_eq!(read_buffer(&transfer.into_operations()[0]), data);
    }
}

#[test]
fn read_keeps_the_low_byte_of_the_data_register() {
    let mut i2c = handle();
    let mut bus = Bus::new(&[0x12, 0x34]);
    let mut transfer = i2c.read(0x50, vec![0xFF, 0xFF]).unwrap();
    assert_eq!(bus.drive(&mut transfer), Ok(()));
    assert_eq!(read_buffer(&transfer.into_operations()[0]), vec![0x12, 0x34]);
}

#[test]
fn two_writes_share_one_start_and_one_stop() {
    let mut i2c = handle();
    let mut bus = Bus::new(&[]);
    bus.lag = 1;
    let ops = vec![Operation::Write(vec![1, 2]), Operation::Write(vec![3, 4, 5])];
    let mut transfer = i2c.transaction(0x50, ops);
    assert_eq!(bus.drive(&mut transfer), Ok(()));
    assert_eq!(
        bus.commands(),
        vec![START_WRITE, send(0xA0), send(1), send(2), send(3), send(4), send(5), STOP]
    );
    assert_eq!(bus.starts(), 1);
    assert_eq!(bus.stops(), 1);
}

#[test]
fn write_then_read_repeats_start_once() {
    let mut i2c = handle();
    let mut bus = Bus::new(&[0xDE, 0xAD]);
    let ops = vec![Operation::Write(vec![0x07]), Operation::Read(vec![0, 0])];
    let mut transfer = i2c.transaction(0x50, ops);
    assert_eq!(bus.drive(&mut transfer), Ok(()));
    assert_eq!(
        bus.commands(),
        vec![START_WRITE, send(0xA0), send(0x07), START_READ, send(0xA1), CLOCK_IN, NACK_STOP, CLOCK_IN]
    );
    assert_eq!(bus.starts(), 2);
    assert_eq!(bus.stops(), 1);
    assert_eq!(read_buffer(&transfer.into_operations()[1]), vec![0xDE, 0xAD]);
}

#[test]
fn write_read_is_the_transaction_of_a_write_and_a_read() {
    let mut i2c = handle();
    let mut one = Bus::new(&[9, 8, 7]);
    let mut transfer = i2c.write_read(0x33, &[0xAA, 0xBB], vec![0; 3]);
    assert_eq!(one.drive(&mut transfer), Ok(()));
    let mut two = Bus::new(&[9, 8, 7]);
    let ops = vec![Operation::Write(vec![0xAA, 0xBB]), Operation::Read(vec![0; 3])];
    let mut general = i2c.transaction(0x33, ops);
    assert_eq!(two.drive(&mut general), Ok(()));
    assert_eq!(one.log, two.log);
    assert_eq!(
        read_buffer(&transfer.into_operations()[1]),
        read_buffer(&general.into_operations()[1])
    );
    let mut three = Bus::new(&[9, 8, 7]);
    let mut owned = i2c.write_iter_read(0x33, vec![0xAA, 0xBB], vec![0; 3]);
    assert_eq!(three.drive(&mut owned), Ok(()));
    assert_eq!(one.log, three.log);
}

#[test]
fn write_iter_is_write() {
    let mut i2c = handle();
    let mut one = Bus::new(&[]);
    let mut transfer = i2c.write(0x11, &[5, 6]);
    assert_eq!(one.drive(&mut transfer), Ok(()));
    let mut two = Bus::new(&[]);
    let mut owned = i2c.write_iter(0x11, vec![5, 6]);
    assert_eq!(two.drive(&mut owned), Ok(()));
    assert_eq!(one.log, two.log);
}

#[test]
fn transaction_slice_is_transaction() {
    let mut i2c = handle();
    let ops = vec![Operation::Read(vec![0; 2]), Operation::Write(vec![1])];
    let mut one = Bus::new(&[4, 5]);
    let mut copied = i2c.transaction_slice(0x11, &ops);
    assert_eq!(one.drive(&mut copied), Ok(()));
    let mut two = Bus::new(&[4, 5]);
    let mut moved = i2c.transaction(0x11, ops);
    assert_eq!(two.drive(&mut moved), Ok(()));
    assert_eq!(one.log, two.log);
    // A read that is not in last place is not cut short: no acknowledge is
    // withheld, and STOP follows the write.
    assert_eq!(
        one.commands(),
        vec![START_READ, send(0x23), CLOCK_IN, CLOCK_IN, START_WRITE, send(0x22), send(1), STOP]
    );
    assert_eq!(read_buffer(&copied.into_operations()[0]), vec![4, 5]);
}

#[test]
fn reads_in_a_row_share_one_address_phase() {
    let mut i2c = handle();
    let mut bus = Bus::new(&[1, 2, 3]);
    let ops = vec![Operation::Read(vec![0; 2]), Operation::Read(vec![0; 1])];
    let mut transfer = i2c.transaction(0x50, ops);
    assert_eq!(bus.drive(&mut transfer), Ok(()));
    assert_eq!(
        bus.commands(),
        vec![START_READ, send(0xA1), CLOCK_IN, CLOCK_IN, NACK_STOP, CLOCK_IN]
    );
    let ops = transfer.into_operations();
    assert_eq!(read_buffer(&ops[0]), vec![1, 2]);
    assert_eq!(read_buffer(&ops[1]), vec![3]);
}

#[test]
fn empty_operations_are_passed_over() {
    let mut i2c = handle();
    let mut bus = Bus::new(&[0x55]);
    let ops = vec![
        Operation::Write(vec![]),
        Operation::Write(vec![]),
        Operation::Read(vec![]),
        Operation::Write(vec![9]),
        Operation::Read(vec![0]),
    ];
    let mut transfer = i2c.transaction(0x08, ops);
    assert_eq!(bus.drive(&mut transfer), Ok(()));
    assert_eq!(
        bus.commands(),
        vec![
            START_WRITE,
            send(0x10),
            START_READ,
            send(0x11),
            START_WRITE,
            send(0x10),
            send(9),
            START_READ,
            send(0x11),
            NACK_STOP,
            CLOCK_IN,
        ]
    );
}

#[test]
fn empty_read_in_last_place_is_an_overrun_after_the_address_phase() {
    let mut i2c = handle();
    let mut bus = Bus::new(&[]);
    let ops = vec![Operation::Write(vec![1]), Operation::Read(vec![])];
    let mut transfer = i2c.transaction(0x50, ops);
    assert_eq!(bus.drive(&mut transfer), Err(Error::Overrun));
    assert_eq!(bus.commands(), vec![START_WRITE, send(0xA0), send(1), START_READ, send(0xA1)]);
    assert_eq!(bus.stops(), 0);
    let mut bus = Bus::new(&[]);
    let mut transfer = i2c.write_read(0x50, &[1], vec![]);
    assert_eq!(bus.drive(&mut transfer), Err(Error::Overrun));
    assert_eq!(bus.starts(), 2);
}

#[test]
fn missing_acknowledge_of_the_address_is_tagged_address() {
    let mut i2c = handle();
    let mut bus = Bus::new(&[]);
    bus.nack_at = Some(0);
    let mut transfer = i2c.write(0x50, &[1, 2]);
    assert_eq!(
        bus.drive(&mut transfer),
        Err(Error::NoAcknowledge(NoAcknowledgeSource::Address))
    );
    assert_eq!(bus.commands(), vec![START_WRITE, send(0xA0)]);
    assert_eq!(bus.log.last(), Some(&Request::Modify(Register::Sts1, ACKFAIL, 0)));
    assert_eq!(bus.sts1 & ACKFAIL, 0);

    let mut bus = Bus::new(&[1]);
    bus.nack_at = Some(0);
    let mut transfer = i2c.read(0x50, vec![0]).unwrap();
    assert_eq!(
        bus.drive(&mut transfer),
        Err(Error::NoAcknowledge(NoAcknowledgeSource::Address))
    );
}

#[test]
fn missing_acknowledge_of_a_byte_is_tagged_data() {
    let mut i2c = handle();
    let mut bus = Bus::new(&[]);
    bus.nack_at = Some(2);
    let mut transfer = i2c.write(0x50, &[1, 2, 3]);
    assert_eq!(bus.drive(&mut transfer), Err(Error::NoAcknowledge(NoAcknowledgeSource::Data)));
    assert_eq!(bus.commands(), vec![START_WRITE, send(0xA0), send(1), send(2)]);
    assert_eq!(bus.stops(), 0);
}

#[test]
fn fault_while_waiting_for_start_keeps_its_unknown_phase() {
    let mut i2c = handle();
    let mut bus = Bus::new(&[]);
    bus.raise_on_start = ACKFAIL;
    let mut transfer = i2c.write(0x50, &[1]);
    assert_eq!(
        bus.drive(&mut transfer),
        Err(Error::NoAcknowledge(NoAcknowledgeSource::Unknown))
    );
    // The read direction consults the monitor in the same place.
    let mut bus = Bus::new(&[1]);
    bus.raise_on_start = ARLOST;
    let mut transfer = i2c.read(0x50, vec![0]).unwrap();
    assert_eq!(bus.drive(&mut transfer), Err(Error::ArbitrationLoss));
    assert_eq!(bus.commands(), vec![START_READ]);
}

#[test]
fn every_fault_flag_ends_a_transfer_with_its_error() {
    let cases = [
        (TMOUT, Error::Timeout),
        (PECERR, Error::Crc),
        (OUF, Error::Overrun),
        (ARLOST, Error::ArbitrationLoss),
    ];
    for (flag, error) in cases {
        let mut i2c = handle();
        let mut bus = Bus::new(&[]);
        bus.raise_on_start = flag;
        let mut transfer = i2c.write(0x50, &[1]);
        assert_eq!(bus.drive(&mut transfer), Err(error));
        assert_eq!(bus.sts1 & flag, 0);
        assert_eq!(bus.log.last(), Some(&Request::Modify(Register::Sts1, flag, 0)));
    }
}

#[test]
fn bus_error_during_a_transfer_is_cleared_and_ignored() {
    let mut i2c = handle();
    let mut bus = Bus::new(&[]);
    bus.raise_on_start = BUSERR;
    let mut transfer = i2c.write(0x50, &[1]);
    assert_eq!(bus.drive(&mut transfer), Ok(()));
    assert_eq!(bus.commands(), vec![START_WRITE, send(0xA0), send(1), STOP]);
    let clears: Vec<&Request> =
        bus.log.iter().filter(|r| matches!(r, Request::Modify(Register::Sts1, _, _))).collect();
    assert_eq!(clears, vec![&Request::Modify(Register::Sts1, BUSERR, 0)]);
    assert_eq!(bus.sts1 & BUSERR, 0);
}

#[test]
fn transfer_waits_for_an_earlier_stop() {
    let mut i2c = handle();
    let mut transfer = i2c.write(0x50, &[]);
    for _ in 0..5 {
        assert!(matches!(transfer.poll(), Poll::Pending(Request::Read(Register::Ctrl1))));
        transfer.advance(I2CEN | GENSTOP);
    }
    transfer.advance(I2CEN);
    assert!(matches!(transfer.poll(), Poll::Pending(START_WRITE)));
}

#[test]
fn transfer_waits_for_the_master_role() {
    let mut i2c = handle();
    let mut transfer = i2c.write(0x50, &[]);
    transfer.advance(0);
    transfer.advance(0);
    // No start flag yet.
    transfer.advance(0);
    assert!(matches!(transfer.poll(), Poll::Pending(Request::Read(Register::Sts1))));
    transfer.advance(STARTF);
    transfer.advance(STARTF);
    assert!(matches!(transfer.poll(), Poll::Pending(Request::Read(Register::Sts2))));
    // Not master yet: look again, at STS1 first.
    transfer.advance(0);
    assert!(matches!(transfer.poll(), Poll::Pending(Request::Read(Register::Sts1))));
    transfer.advance(STARTF);
    // Master, but the bus is still busy.
    transfer.advance(TRMODE | BUSYF);
    assert!(matches!(transfer.poll(), Poll::Pending(Request::Read(Register::Sts1))));
    transfer.advance(STARTF);
    transfer.advance(BUSYF);
    assert!(matches!(transfer.poll(), Poll::Pending(Request::Read(Register::Sts1))));
    transfer.advance(STARTF);
    transfer.advance(TRMODE);
    assert!(matches!(transfer.poll(), Poll::Pending(Request::Write(Register::Dt, 0xA0))));
}

#[test]
fn run_stops_when_the_budget_is_spent_or_the_transfer_is_done() {
    let bus = Wired(RefCell::new(Bus::new(&[0x42])));
    let mut i2c = bind(bus, (), Mode::standard(100_000), 36_000_000);
    let mut transfer = i2c.read(0x50, vec![0]).unwrap();
    assert_eq!(i2c.run(&mut transfer, 0), None);
    assert_eq!(i2c.run(&mut transfer, 3), None);
    // CTRL1 read, START as read and write of CTRL1, and one look at STS1.
    assert!(matches!(transfer.poll(), Poll::Pending(Request::Read(Register::Sts1))));
    assert_eq!(i2c.run(&mut transfer, 1000), Some(Ok(())));
    assert_eq!(i2c.run(&mut transfer, 1000), Some(Ok(())));
    let (bus, ()) = i2c.release();
    let bus = bus.0.into_inner();
    assert_eq!(bus.written, vec![0xA1]);
    assert_eq!(read_buffer(&transfer.into_operations()[0]), vec![0x42]);
}
