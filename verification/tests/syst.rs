use at32f4xx_hal::nb;
use at32f4xx_hal::timer::syst::{Register, Registers};
use at32f4xx_hal::timer::{Error, SysCounter, SysEvent, SysTick, Timer};

fn idle() -> Registers {
    Registers { csr: 0, rvr: 0, cvr: 0 }
}

#[test]
fn system_timer_runs_on_the_core_clock_or_an_eighth_of_it() {
    let t = Timer::syst(idle(), 72_000_000);
    assert_eq!((t.clk, t.tmr.0.csr), (72_000_000, 4));
    let mut t = Timer::syst_external(Registers { csr: 0x7, rvr: 1, cvr: 2 }, 72_000_001);
    assert_eq!((t.clk, t.tmr.0.csr), (9_000_000, 3));
    t.configure(8_000_000);
    assert_eq!((t.clk, t.tmr.0.csr), (8_000_000, 7));
    t.configure_external(8_000_000);
    assert_eq!((t.clk, t.tmr.0.csr), (1_000_000, 3));
    t.unlisten(SysEvent::Update);
    assert_eq!(t.tmr.0.csr, 1);
    t.listen(SysEvent::Update);
    assert_eq!(t.tmr.0.csr, 3);
    assert_eq!(t.release(), Registers { csr: 3, rvr: 1, cvr: 2 });
}

#[test]
fn system_timer_registers() {
    let mut regs = idle();
    regs.write(Register::Rvr, 5);
    regs.write(Register::Cvr, 6);
    regs.write(Register::Csr, 7);
    assert_eq!((regs.read(Register::Csr), regs.read(Register::Rvr), regs.read(Register::Cvr)), (7, 5, 6));
    regs.restart(99);
    assert_eq!(regs, Registers { csr: 7, rvr: 99, cvr: 0 });
    regs.csr = 0x1_0000;
    assert!(regs.has_wrapped());
    assert!(!regs.is_counter_enabled());
    regs.set_clock_source(true);
    regs.enable_interrupt();
    assert_eq!(regs.csr, 0x1_0006);
    regs.disable_interrupt();
    regs.set_clock_source(false);
    assert_eq!(regs.csr, 0x1_0000);
}

#[test]
fn counter_by_frequency() {
    let mut c = Timer::syst(idle(), 72_000_000).counter_hz();
    assert_eq!(c.start(1000), Ok(()));
    assert_eq!(c.0.tmr.0, Registers { csr: 5, rvr: 71_999, cvr: 0 });
    assert_eq!(c.start(4), Err(Error::WrongAutoReload));
    assert_eq!(c.0.tmr.0.rvr, 71_999);
    // 72 MHz over 5 Hz is 14.4 million counts, which 24 bits hold; over 4 Hz
    // it is 18 million, which they do not.
    assert_eq!(c.start(5), Ok(()));
    assert_eq!(c.0.tmr.0.rvr, 14_399_999);
    assert_eq!(c.start(72_000_000), Ok(()));
    assert_eq!(c.0.tmr.0.rvr, 0);
    assert_eq!(c.wait(), Err(nb::Error::WouldBlock));
    c.0.tmr.0.csr |= 0x1_0000;
    assert_eq!(c.wait(), Ok(()));
    assert_eq!(c.cancel(), Ok(()));
    assert_eq!(c.0.tmr.0.csr, 0x1_0004);
    assert_eq!(c.cancel(), Err(Error::Disabled));
}

#[test]
fn counter_by_ticks() {
    let mut c: SysCounter<Registers, 1_000_000> = Timer::syst(idle(), 72_000_000).counter();
    assert_eq!(c.start(1000), Ok(()));
    assert_eq!(c.0.tmr.0, Registers { csr: 5, rvr: 71_999, cvr: 0 });
    c.0.tmr.0.cvr = 71_999 - 720;
    assert_eq!(c.now(), 10);
    c.0.tmr.0.cvr = 71_999 - 71;
    assert_eq!(c.now(), 0);
    assert_eq!(c.start(233_016), Ok(()));
    assert_eq!(c.0.tmr.0.rvr, 16_777_151);
    assert_eq!(c.start(233_017), Err(Error::WrongAutoReload));
    assert_eq!(c.0.tmr.0.rvr, 16_777_151);
    assert_eq!(c.wait(), Err(nb::Error::WouldBlock));
    c.0.tmr.0.csr |= 0x1_0000;
    assert_eq!(c.wait(), Ok(()));
    c.listen(SysEvent::Update);
    assert_eq!(c.0.tmr.0.csr, 0x1_0007);
    c.unlisten(SysEvent::Update);
    assert_eq!(c.cancel(), Ok(()));
    assert_eq!(c.cancel(), Err(Error::Disabled));
    let us = Timer::syst(idle(), 1_000_000).counter_us();
    assert_eq!(us.0.clk, 1_000_000);
}

#[test]
fn delay_runs_in_pieces_of_24_bits() {
    let mut d = Timer::syst_external(idle(), 64_000_000).delay();
    assert_eq!(d.timer.clk, 8_000_000);
    d.delay(5_000_000);
    // 40 million counts: two full pieces and a rest.
    assert_eq!(d.timer.tmr.0, Registers { csr: 1, rvr: 0xFF_FFFF, cvr: 0 });
    assert_eq!(d.remaining, 40_000_000 - 0xFF_FFFF);
    assert!(!d.wait());
    assert_eq!(d.remaining, 40_000_000 - 0xFF_FFFF);
    d.timer.tmr.0.csr |= 0x1_0000;
    assert!(!d.wait());
    assert_eq!(d.remaining, 40_000_000 - 2 * 0xFF_FFFF);
    d.timer.tmr.0.csr |= 0x1_0000;
    assert!(!d.wait());
    assert_eq!(d.remaining, 0);
    assert_eq!(d.timer.tmr.0.rvr, 40_000_000 - 2 * 0xFF_FFFF);
    d.timer.tmr.0.csr = 1;
    assert!(!d.wait());
    d.timer.tmr.0.csr = 0x1_0001;
    assert!(d.wait());
    assert_eq!(d.timer.tmr.0.csr, 0x1_0000);
    assert!(d.wait());
    d.delay(0);
    assert_eq!(d.remaining, 0);
    assert!(d.wait());
    d.delay_ns(3);
    assert_eq!(d.timer.tmr.0.rvr, 24);
    assert_eq!(d.release().clk, 8_000_000);
}
