//! Timers as counters that are started and then asked whether they are done.

use vstd::prelude::*;
use super::{Error, Event, FTimer, General, Register, Registers, Timer, OVFS, OVFSWTR, TMREN};

verus! {

/// Counter on a [`Timer`].
pub struct CounterHz<TMR>(pub Timer<TMR>);

/// The registers after a look at the overflow flag: where it was up, it has
/// been cleared.
pub open spec fn after_wait(regs: Registers) -> Registers {
    if regs.ists & 0x1F & 0x01 == 0x01 {
        regs.set(Register::Ists, 0xFFFF & !0x01u32)
    } else {
        regs
    }
}

/// The result of a look at the overflow flag.
pub open spec fn wait_result(regs: Registers) -> crate::nb::Result<(), Error> {
    if regs.ists & 0x1F & 0x01 == 0x01 {
        Ok(())
    } else {
        Err(crate::nb::Error::WouldBlock)
    }
}

/// The registers after an attempt to stop the counter.
pub open spec fn after_cancel(regs: Registers) -> Registers {
    if regs.ctrl1 & TMREN != 0 {
        regs.set(Register::Ctrl1, regs.ctrl1 & !TMREN)
    } else {
        regs
    }
}

impl<TMR: General> CounterHz<TMR> {
    /// Stops the counter and gives the timer back: CTRL1 is reset.
    pub fn release(self) -> (t: Timer<TMR>)
        ensures
            t.clk == self.0.clk,
            t.regs() == self.0.regs().set(Register::Ctrl1, 0),
    {
        let mut timer = self.0;
        timer.tmr.ctrl1_reset();
        timer
    }

    /// Succeeds once the counter has overflowed, and clears the flag then.
    pub fn wait(&mut self) -> (r: crate::nb::Result<(), Error>)
        ensures
            final(self).0.clk == old(self).0.clk,
            r == wait_result(old(self).0.regs()),
            final(self).0.regs() == after_wait(old(self).0.regs()),
    {
        if self.0.tmr.get_interrupt_flag().contains(Event::update()) {
            self.0.tmr.clear_interrupt_flag(Event::update());
            Ok(())
        } else {
            Err(crate::nb::Error::WouldBlock)
        }
    }

    /// Stops a running counter; a stopped one is an error.
    pub fn cancel(&mut self) -> (r: Result<(), Error>)
        ensures
            final(self).0.clk == old(self).0.clk,
            r == if old(self).0.regs().ctrl1 & TMREN != 0 {
                Ok::<(), Error>(())
            } else {
                Err::<(), Error>(Error::Disabled)
            },
            final(self).0.regs() == after_cancel(old(self).0.regs()),
    {
        if !self.0.tmr.is_counter_enabled() {
            return Err(Error::Disabled);
        }
        self.0.tmr.disable_counter();
        Ok(())
    }
}

/// Counter on an [`FTimer`]: times are in ticks of `1 / FREQ` seconds.
pub struct Counter<TMR, const FREQ: u32>(pub FTimer<TMR, FREQ>);

/// `Counter` that counts microseconds.
pub type CounterUs<TMR> = Counter<TMR, 1_000_000>;

/// `Counter` that counts milliseconds.
pub type CounterMs<TMR> = Counter<TMR, 1_000>;

/// The registers after a counter was started for a period that the counter
/// can run: the counter is stopped and zeroed, the overflow flag cleared, the
/// period written and loaded by a software overflow, and the counter enabled.
pub open spec fn after_start(regs: Registers, timeout: u32) -> Registers {
    let stopped = (regs.ctrl1 & !TMREN);
    regs.set(Register::Cval, 0).set(Register::Ists, 0xFFFF & !0x01u32).set(
        Register::Pr,
        (timeout - 1) as u32,
    ).set(Register::Swevt, OVFSWTR).set(Register::Ctrl1, ((stopped | OVFS) & !OVFS) | TMREN)
}

/// The registers after a counter was refused a period: the counter is
/// stopped and zeroed and the overflow flag cleared.
pub open spec fn after_refused_start(regs: Registers) -> Registers {
    regs.set(Register::Ctrl1, regs.ctrl1 & !TMREN).set(Register::Cval, 0).set(
        Register::Ists,
        0xFFFF & !0x01u32,
    )
}

impl<TMR: General, const FREQ: u32> Counter<TMR, FREQ> {
    /// Stops the counter and gives the timer back: CTRL1 is reset.
    pub fn release(self) -> (t: FTimer<TMR, FREQ>)
        ensures
            t.regs() == self.0.regs().set(Register::Ctrl1, 0),
    {
        let mut timer = self.0;
        timer.tmr.ctrl1_reset();
        timer
    }

    /// The count, in ticks.
    pub fn now(&self) -> (ticks: u32)
        ensures
            ticks == self.0.regs().cval,
    {
        self.0.tmr.read_count()
    }

    /// Starts the counter anew for `timeout` ticks. A period of one tick, or
    /// one that the counter cannot hold, is refused.
    pub fn start(&mut self, timeout: u32) -> (r: Result<(), Error>)
        requires
            timeout >= 1,
        ensures
            2 <= timeout <= old(self).0.regs().spec_max_auto_reload() as int + 1 ==> r is Ok && final(self).0.regs() == after_start(old(self).0.regs(), timeout),
            !(2 <= timeout <= old(self).0.regs().spec_max_auto_reload() as int + 1) ==> r == Err::<
                (),
                Error,
            >(Error::WrongAutoReload) && final(self).0.regs() == after_refused_start(
                old(self).0.regs(),
            ),
    {
        self.0.tmr.disable_counter();
        self.0.tmr.reset_counter();
        self.0.tmr.clear_interrupt_flag(Event::update());
        match self.0.tmr.set_auto_reload(timeout - 1) {
            Err(e) => {
                return Err(e);
            },
            Ok(_) => {},
        }
        self.0.tmr.trigger_update();
        self.0.tmr.enable_counter();
        Ok(())
    }

    /// Succeeds once the counter has overflowed, and clears the flag then.
    pub fn wait(&mut self) -> (r: crate::nb::Result<(), Error>)
        ensures
            r == wait_result(old(self).0.regs()),
            final(self).0.regs() == after_wait(old(self).0.regs()),
    {
        if self.0.tmr.get_interrupt_flag().contains(Event::update()) {
            self.0.tmr.clear_interrupt_flag(Event::update());
            Ok(())
        } else {
            Err(crate::nb::Error::WouldBlock)
        }
    }

    /// Stops a running counter; a stopped one is an error.
    pub fn cancel(&mut self) -> (r: Result<(), Error>)
        ensures
            r == if old(self).0.regs().ctrl1 & TMREN != 0 {
                Ok::<(), Error>(())
            } else {
                Err::<(), Error>(Error::Disabled)
            },
            final(self).0.regs() == after_cancel(old(self).0.regs()),
    {
        if !self.0.tmr.is_counter_enabled() {
            return Err(Error::Disabled);
        }
        self.0.tmr.disable_counter();
        Ok(())
    }
}

} // verus!
