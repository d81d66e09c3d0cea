//! The system timer of the core as counter and as delay.
//!
//! The system timer counts down from its reload value, 24 bits wide, and
//! raises a flag when it passes zero.

use vstd::prelude::*;
use super::{Error, SysEvent, Timer};

verus! {

/// CSR: counter enable.
pub const ENABLE: u32 = 0x0000_0001;
/// CSR: interrupt when the count passes zero.
pub const TICKINT: u32 = 0x0000_0002;
/// CSR: the timer runs on the core clock, not on the external reference.
pub const CLKSOURCE: u32 = 0x0000_0004;
/// CSR: the count has passed zero since the register was last read.
pub const COUNTFLAG: u32 = 0x0001_0000;
/// Largest reload value.
pub const MAX_RVR: u32 = 0x00FF_FFFF;

/// Registers of the system timer.
#[derive(Clone, Copy, Debug, PartialEq, Eq, Structural)]
pub enum Register {
    /// Control and status.
    Csr,
    /// Reload value.
    Rvr,
    /// Current value.
    Cvr,
}

/// What the registers of the system timer hold.
#[derive(Clone, Copy, Debug, PartialEq, Eq, Structural)]
pub struct Registers {
    pub csr: u32,
    pub rvr: u32,
    pub cvr: u32,
}

impl Registers {
    pub open spec fn get(self, r: Register) -> u32 {
        match r {
            Register::Csr => self.csr,
            Register::Rvr => self.rvr,
            Register::Cvr => self.cvr,
        }
    }

    pub open spec fn set(self, r: Register, word: u32) -> Registers {
        match r {
            Register::Csr => Registers { csr: word, ..self },
            Register::Rvr => Registers { rvr: word, ..self },
            Register::Cvr => Registers { cvr: word, ..self },
        }
    }

    /// The timer started anew with reload value `rvr`.
    pub open spec fn started(self, rvr: u32) -> Registers {
        Registers { csr: self.csr | ENABLE, rvr, cvr: 0 }
    }
}

/// Access to the registers of the system timer. `regs` is what they hold
/// when a call begins. The crate implements the trait for [`Registers`],
/// which is plain memory; an implementation for the core reads and writes
/// the registers themselves.
pub trait SysTick {
    spec fn regs(&self) -> Registers;

    /// Reads one register.
    fn read(&self, r: Register) -> (word: u32)
        ensures
            word == self.regs().get(r),
    ;

    /// Writes one register.
    fn write(&mut self, r: Register, word: u32)
        ensures
            final(self).regs() == old(self).regs().set(r, word),
    ;

    /// Chooses the clock of the timer: the core clock, or the external
    /// reference.
    fn set_clock_source(&mut self, core: bool)
        ensures
            final(self).regs() == old(self).regs().set(
                Register::Csr,
                if core {
                    old(self).regs().csr | CLKSOURCE
                } else {
                    old(self).regs().csr & !CLKSOURCE
                },
            ),
    {
        let word: u32 = self.read(Register::Csr);
        if core {
            self.write(Register::Csr, word | CLKSOURCE);
        } else {
            self.write(Register::Csr, word & !CLKSOURCE);
        }
    }

    /// Switches the interrupt at zero on.
    fn enable_interrupt(&mut self)
        ensures
            final(self).regs() == old(self).regs().set(
                Register::Csr,
                old(self).regs().csr | TICKINT,
            ),
    {
        let word: u32 = self.read(Register::Csr);
        self.write(Register::Csr, word | TICKINT);
    }

    /// Switches the interrupt at zero off.
    fn disable_interrupt(&mut self)
        ensures
            final(self).regs() == old(self).regs().set(
                Register::Csr,
                old(self).regs().csr & !TICKINT,
            ),
    {
        let word: u32 = self.read(Register::Csr);
        self.write(Register::Csr, word & !TICKINT);
    }

    /// Starts the timer anew with reload value `rvr`.
    fn restart(&mut self, rvr: u32)
        ensures
            final(self).regs() == old(self).regs().started(rvr),
    {
        self.write(Register::Rvr, rvr);
        self.write(Register::Cvr, 0);
        let word: u32 = self.read(Register::Csr);
        self.write(Register::Csr, word | ENABLE);
    }

    /// Stops the timer.
    fn disable_counter(&mut self)
        ensures
            final(self).regs() == old(self).regs().set(
                Register::Csr,
                old(self).regs().csr & !ENABLE,
            ),
    {
        let word: u32 = self.read(Register::Csr);
        self.write(Register::Csr, word & !ENABLE);
    }

    /// True when the count has passed zero.
    fn has_wrapped(&self) -> (wrapped: bool)
        ensures
            wrapped == (self.regs().csr & COUNTFLAG != 0),
    {
        self.read(Register::Csr) & COUNTFLAG != 0
    }

    /// True when the timer runs.
    fn is_counter_enabled(&self) -> (on: bool)
        ensures
            on == (self.regs().csr & ENABLE != 0),
    {
        self.read(Register::Csr) & ENABLE != 0
    }
}

impl SysTick for Registers {
    open spec fn regs(&self) -> Registers {
        *self
    }

    fn read(&self, r: Register) -> (word: u32) {
        match r {
            Register::Csr => self.csr,
            Register::Rvr => self.rvr,
            Register::Cvr => self.cvr,
        }
    }

    fn write(&mut self, r: Register, word: u32) {
        match r {
            Register::Csr => {
                self.csr = word;
            },
            Register::Rvr => {
                self.rvr = word;
            },
            Register::Cvr => {
                self.cvr = word;
            },
        }
    }
}

/// The system timer, as a timer of this module.
pub struct Syst<S>(pub S);

/// Counter on the system timer that takes its period as a frequency.
pub struct SysCounterHz<S>(pub Timer<Syst<S>>);

/// Counter on the system timer that takes its period in ticks of
/// `1 / FREQ` seconds.
pub struct SysCounter<S, const FREQ: u32>(pub Timer<Syst<S>>);

/// `SysCounter` that counts microseconds.
pub type SysCounterUs<S> = SysCounter<S, 1_000_000>;

/// Delay on the system timer.
pub struct SysDelay<S> {
    pub timer: Timer<Syst<S>>,
    /// Counts of the timer that are still to be waited for after the piece
    /// that runs.
    pub remaining: u32,
}

impl<S: SysTick> Timer<Syst<S>> {
    /// What the registers of the system timer hold.
    pub open spec fn syst_regs(&self) -> Registers {
        self.tmr.0.regs()
    }

    /// The system timer on the core clock of `hclk` hertz.
    pub fn syst(tmr: S, hclk: u32) -> (t: Self)
        ensures
            t.clk == hclk,
            t.syst_regs() == tmr.regs().set(Register::Csr, tmr.regs().csr | CLKSOURCE),
    {
        let mut tmr = tmr;
        tmr.set_clock_source(true);
        Timer { tmr: Syst(tmr), clk: hclk }
    }

    /// The system timer on the external reference, an eighth of the core
    /// clock of `hclk` hertz.
    pub fn syst_external(tmr: S, hclk: u32) -> (t: Self)
        ensures
            t.clk == hclk / 8,
            t.syst_regs() == tmr.regs().set(Register::Csr, tmr.regs().csr & !CLKSOURCE),
    {
        let mut tmr = tmr;
        tmr.set_clock_source(false);
        Timer { tmr: Syst(tmr), clk: hclk / 8 }
    }

    /// Puts the timer on the core clock of `hclk` hertz.
    pub fn configure(&mut self, hclk: u32)
        ensures
            final(self).clk == hclk,
            final(self).syst_regs() == old(self).syst_regs().set(
                Register::Csr,
                old(self).syst_regs().csr | CLKSOURCE,
            ),
    {
        self.tmr.0.set_clock_source(true);
        self.clk = hclk;
    }

    /// Puts the timer on the external reference, an eighth of the core clock
    /// of `hclk` hertz.
    pub fn configure_external(&mut self, hclk: u32)
        ensures
            final(self).clk == hclk / 8,
            final(self).syst_regs() == old(self).syst_regs().set(
                Register::Csr,
                old(self).syst_regs().csr & !CLKSOURCE,
            ),
    {
        self.tmr.0.set_clock_source(false);
        self.clk = hclk / 8;
    }

    pub fn release(self) -> (tmr: S)
        ensures
            tmr == self.tmr.0,
    {
        self.tmr.0
    }

    /// Switches the interrupt of `event` on.
    pub fn listen(&mut self, event: SysEvent)
        ensures
            final(self).clk == old(self).clk,
            final(self).syst_regs() == old(self).syst_regs().set(
                Register::Csr,
                old(self).syst_regs().csr | TICKINT,
            ),
    {
        match event {
            SysEvent::Update => self.tmr.0.enable_interrupt(),
        }
    }

    /// Switches the interrupt of `event` off.
    pub fn unlisten(&mut self, event: SysEvent)
        ensures
            final(self).clk == old(self).clk,
            final(self).syst_regs() == old(self).syst_regs().set(
                Register::Csr,
                old(self).syst_regs().csr & !TICKINT,
            ),
    {
        match event {
            SysEvent::Update => self.tmr.0.disable_interrupt(),
        }
    }

    pub fn counter_hz(self) -> (c: SysCounterHz<S>)
        ensures
            c.0 == self,
    {
        SysCounterHz(self)
    }

    pub fn counter<const FREQ: u32>(self) -> (c: SysCounter<S, FREQ>)
        ensures
            c.0 == self,
    {
        SysCounter(self)
    }

    pub fn counter_us(self) -> (c: SysCounterUs<S>)
        ensures
            c.0 == self,
    {
        SysCounter(self)
    }

    pub fn delay(self) -> (d: SysDelay<S>)
        ensures
            d.timer == self,
            d.remaining == 0,
    {
        SysDelay { timer: self, remaining: 0 }
    }
}

/// The result of a look at the count flag.
pub open spec fn wait_result(regs: Registers) -> crate::nb::Result<(), Error> {
    if regs.csr & COUNTFLAG != 0 {
        Ok(())
    } else {
        Err(crate::nb::Error::WouldBlock)
    }
}

/// The result of an attempt to stop the timer.
pub open spec fn cancel_result(regs: Registers) -> Result<(), Error> {
    if regs.csr & ENABLE != 0 {
        Ok(())
    } else {
        Err(Error::Disabled)
    }
}

/// The registers after an attempt to stop the timer.
pub open spec fn after_cancel(regs: Registers) -> Registers {
    if regs.csr & ENABLE != 0 {
        regs.set(Register::Csr, regs.csr & !ENABLE)
    } else {
        regs
    }
}

impl<S: SysTick> SysCounterHz<S> {
    /// Starts the timer anew at `timeout` hertz, which is neither zero nor
    /// above the clock of the timer. A period that 24 bits cannot hold is
    /// refused.
    pub fn start(&mut self, timeout: u32) -> (r: Result<(), Error>)
        requires
            0 < timeout <= old(self).0.clk,
        ensures
            final(self).0.clk == old(self).0.clk,
            old(self).0.clk / timeout - 1 > MAX_RVR ==> r == Err::<(), Error>(
                Error::WrongAutoReload,
            ) && final(self).0.syst_regs() == old(self).0.syst_regs(),
            old(self).0.clk / timeout - 1 <= MAX_RVR ==> r is Ok && final(self).0.syst_regs()
                == old(self).0.syst_regs().started((old(self).0.clk / timeout - 1) as u32),
    {
        let ticks: u32 = self.0.clk / timeout;
        assert(ticks >= 1) by (nonlinear_arith)
            requires
                ticks == self.0.clk / timeout,
                0 < timeout <= self.0.clk,
        ;
        let rvr: u32 = ticks - 1;
        if rvr > MAX_RVR {
            return Err(Error::WrongAutoReload);
        }
        self.0.tmr.0.restart(rvr);
        Ok(())
    }

    /// Succeeds once the count has passed zero.
    pub fn wait(&mut self) -> (r: crate::nb::Result<(), Error>)
        ensures
            *final(self) == *old(self),
            r == wait_result(old(self).0.syst_regs()),
    {
        if self.0.tmr.0.has_wrapped() {
            Ok(())
        } else {
            Err(crate::nb::Error::WouldBlock)
        }
    }

    /// Stops a running timer; a stopped one is an error.
    pub fn cancel(&mut self) -> (r: Result<(), Error>)
        ensures
            final(self).0.clk == old(self).0.clk,
            r == cancel_result(old(self).0.syst_regs()),
            final(self).0.syst_regs() == after_cancel(old(self).0.syst_regs()),
    {
        if !self.0.tmr.0.is_counter_enabled() {
            return Err(Error::Disabled);
        }
        self.0.tmr.0.disable_counter();
        Ok(())
    }
}

impl<S: SysTick, const FREQ: u32> SysCounter<S, FREQ> {
    /// Switches the interrupt of `event` on.
    pub fn listen(&mut self, event: SysEvent)
        ensures
            final(self).0.clk == old(self).0.clk,
            final(self).0.syst_regs() == old(self).0.syst_regs().set(
                Register::Csr,
                old(self).0.syst_regs().csr | TICKINT,
            ),
    {
        self.0.listen(event)
    }

    /// Switches the interrupt of `event` off.
    pub fn unlisten(&mut self, event: SysEvent)
        ensures
            final(self).0.clk == old(self).0.clk,
            final(self).0.syst_regs() == old(self).0.syst_regs().set(
                Register::Csr,
                old(self).0.syst_regs().csr & !TICKINT,
            ),
    {
        self.0.unlisten(event)
    }

    /// The time since the timer was started, in ticks: the counts that have
    /// gone by, over the counts of one tick.
    pub fn now(&self) -> (ticks: u32)
        requires
            FREQ > 0,
            self.0.clk >= FREQ,
            self.0.syst_regs().cvr <= self.0.syst_regs().rvr,
        ensures
            ticks as int == (self.0.syst_regs().rvr - self.0.syst_regs().cvr) / (self.0.clk as int
                / FREQ as int),
    {
        let per_tick: u32 = self.0.clk / FREQ;
        assert(per_tick >= 1) by (nonlinear_arith)
            requires
                per_tick == self.0.clk / FREQ,
                0 < FREQ <= self.0.clk,
        ;
        (self.0.tmr.0.read(Register::Rvr) - self.0.tmr.0.read(Register::Cvr)) / per_tick
    }

    /// Starts the timer anew for `timeout` ticks, which come to at least one
    /// count and fit 32 bits as counts. A period that 24 bits cannot hold is
    /// refused.
    pub fn start(&mut self, timeout: u32) -> (r: Result<(), Error>)
        requires
            FREQ > 0,
            1 <= timeout * (old(self).0.clk as int / FREQ as int) <= u32::MAX,
        ensures
            final(self).0.clk == old(self).0.clk,
            timeout * (old(self).0.clk as int / FREQ as int) - 1 > MAX_RVR ==> r == Err::<
                (),
                Error,
            >(Error::WrongAutoReload) && final(self).0.syst_regs() == old(self).0.syst_regs(),
            timeout * (old(self).0.clk as int / FREQ as int) - 1 <= MAX_RVR ==> r is Ok
                && final(self).0.syst_regs() == old(self).0.syst_regs().started(
                (timeout * (old(self).0.clk as int / FREQ as int) - 1) as u32,
            ),
    {
        let rvr: u32 = timeout * (self.0.clk / FREQ) - 1;
        if rvr > MAX_RVR {
            return Err(Error::WrongAutoReload);
        }
        self.0.tmr.0.restart(rvr);
        Ok(())
    }

    /// Succeeds once the count has passed zero.
    pub fn wait(&mut self) -> (r: crate::nb::Result<(), Error>)
        ensures
            *final(self) == *old(self),
            r == wait_result(old(self).0.syst_regs()),
    {
        if self.0.tmr.0.has_wrapped() {
            Ok(())
        } else {
            Err(crate::nb::Error::WouldBlock)
        }
    }

    /// Stops a running timer; a stopped one is an error.
    pub fn cancel(&mut self) -> (r: Result<(), Error>)
        ensures
            final(self).0.clk == old(self).0.clk,
            r == cancel_result(old(self).0.syst_regs()),
            final(self).0.syst_regs() == after_cancel(old(self).0.syst_regs()),
    {
        if !self.0.tmr.0.is_counter_enabled() {
            return Err(Error::Disabled);
        }
        self.0.tmr.0.disable_counter();
        Ok(())
    }
}

/// The next piece of `counts`: all of them, or as many as 24 bits hold.
pub open spec fn piece(counts: u32) -> u32 {
    if counts <= MAX_RVR {
        counts
    } else {
        MAX_RVR
    }
}

impl<S: SysTick> SysDelay<S> {
    /// What the registers of the system timer hold.
    pub open spec fn regs(&self) -> Registers {
        self.timer.tmr.0.regs()
    }

    /// Gives the timer back.
    pub fn release(self) -> (t: Timer<Syst<S>>)
        ensures
            t == self.timer,
    {
        self.timer
    }

    /// Starts the next piece of the counts that are left, if any.
    fn start_piece(&mut self)
        ensures
            final(self).timer.clk == old(self).timer.clk,
            old(self).remaining == 0 ==> final(self).remaining == 0 && final(self).regs() == old(self).regs(),
            old(self).remaining != 0 ==> final(self).remaining == old(self).remaining - piece(
                old(self).remaining,
            ) && final(self).regs() == old(self).regs().started(piece(old(self).remaining)),
    {
        if self.remaining != 0 {
            let current: u32 = if self.remaining <= MAX_RVR {
                self.remaining
            } else {
                MAX_RVR
            };
            self.timer.tmr.0.restart(current);
            self.remaining = self.remaining - current;
        }
    }

    /// Starts a delay of `us` microseconds, which fit 32 bits as counts of
    /// the timer: the timer is set to run the first piece. A delay of no
    /// counts starts nothing.
    pub fn delay(&mut self, us: u32)
        requires
            us * (old(self).timer.clk / 1_000_000) <= u32::MAX,
        ensures
            final(self).timer.clk == old(self).timer.clk,
            ({
                let total = (us * (old(self).timer.clk / 1_000_000)) as u32;
                &&& total == 0 ==> final(self).remaining == 0 && final(self).regs() == old(self).regs()
                &&& total != 0 ==> final(self).remaining == total - piece(total) && final(self).regs() == old(self).regs().started(piece(total))
            }),
    {
        self.remaining = us * (self.timer.clk / 1_000_000);
        self.start_piece();
    }

    /// Starts a delay of as many counts as `ns` times the clock in MHz,
    /// which fit 32 bits.
    pub fn delay_ns(&mut self, ns: u32)
        requires
            ns * (old(self).timer.clk / 1_000_000) <= u32::MAX,
        ensures
            final(self).timer.clk == old(self).timer.clk,
            ({
                let total = (ns * (old(self).timer.clk / 1_000_000)) as u32;
                &&& total == 0 ==> final(self).remaining == 0 && final(self).regs() == old(self).regs()
                &&& total != 0 ==> final(self).remaining == total - piece(total) && final(self).regs() == old(self).regs().started(piece(total))
            }),
    {
        self.delay(ns)
    }

    /// True once the delay is over. Before the first look, and while the
    /// count of a piece has not passed zero, nothing happens; when it has,
    /// the next piece is started, or the timer stopped when none is left.
    pub fn wait(&mut self) -> (done: bool)
        ensures
            final(self).timer.clk == old(self).timer.clk,
            old(self).regs().csr & ENABLE == 0 ==> done && *final(self) == *old(self),
            old(self).regs().csr & ENABLE != 0 && old(self).regs().csr & COUNTFLAG == 0 ==> !done
                && *final(self) == *old(self),
            old(self).regs().csr & ENABLE != 0 && old(self).regs().csr & COUNTFLAG != 0 && old(self).remaining == 0 ==> done && final(self).remaining == 0 && final(self).regs() == old(self).regs().set(Register::Csr, old(self).regs().csr & !ENABLE),
            old(self).regs().csr & ENABLE != 0 && old(self).regs().csr & COUNTFLAG != 0 && old(self).remaining != 0 ==> !done && final(self).remaining == old(self).remaining - piece(
                old(self).remaining,
            ) && final(self).regs() == old(self).regs().set(
                Register::Csr,
                old(self).regs().csr & !ENABLE,
            ).started(piece(old(self).remaining)),
    {
        if !self.timer.tmr.0.is_counter_enabled() {
            true
        } else if !self.timer.tmr.0.has_wrapped() {
            false
        } else {
            self.timer.tmr.0.disable_counter();
            if self.remaining == 0 {
                true
            } else {
                self.start_piece();
                false
            }
        }
    }
}

} // verus!
