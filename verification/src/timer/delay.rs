//! Timers as delays.
//!
//! A delay longer than the counter can hold is run in pieces. Waiting is left
//! to the caller: [`Delay::delay`] starts the first piece, and
//! [`Delay::wait`] says whether the whole delay is over, starting the next
//! piece where one is left.

use vstd::prelude::*;
use super::{FTimer, General, Register, Registers, OCMEN, OVFS, OVFSWTR, TMREN};

verus! {

/// Delay on an [`FTimer`]: times are in ticks of `1 / FREQ` seconds.
pub struct Delay<TMR, const FREQ: u32> {
    pub timer: FTimer<TMR, FREQ>,
    /// Ticks that are still to be waited for after the piece that runs.
    pub remaining: u32,
}

/// `Delay` that counts microseconds.
pub type DelayUs<TMR> = Delay<TMR, 1_000_000>;

/// `Delay` that counts milliseconds.
pub type DelayMs<TMR> = Delay<TMR, 1_000>;

/// Number of ticks that the counter runs for a delay of `time` ticks: one
/// less, and none for a delay of no ticks.
pub open spec fn counted(time: u32) -> u32 {
    if time <= 1 {
        0
    } else {
        (time - 1) as u32
    }
}

/// The next piece of `ticks`: all of them, or as many as the counter holds.
pub open spec fn piece(ticks: u32, max: u32) -> u32 {
    if ticks <= max {
        ticks
    } else {
        max
    }
}

/// The registers after a piece of `reload` ticks was started: the period is
/// written and loaded by a software overflow, and the counter runs for one
/// period.
pub open spec fn after_piece(regs: Registers, reload: u32) -> Registers {
    regs.set(Register::Pr, reload).set(Register::Swevt, OVFSWTR).set(
        Register::Ctrl1,
        OCMEN | TMREN,
    )
}

impl<TMR: General, const FREQ: u32> Delay<TMR, FREQ> {
    /// What the registers of the timer hold.
    pub open spec fn regs(&self) -> Registers {
        self.timer.tmr.regs()
    }

    /// Starts the next piece of the ticks that are left, if any.
    fn start_piece(&mut self)
        ensures
            old(self).remaining == 0 ==> final(self).remaining == 0 && final(self).regs() == old(self).regs(),
            old(self).remaining != 0 ==> final(self).remaining == old(self).remaining - piece(
                old(self).remaining,
                old(self).regs().spec_max_auto_reload(),
            ) && final(self).regs() == after_piece(
                old(self).regs(),
                piece(old(self).remaining, old(self).regs().spec_max_auto_reload()),
            ),
    {
        if self.remaining != 0 {
            let max: u32 = self.timer.tmr.max_auto_reload();
            let reload: u32 = if self.remaining <= max {
                self.remaining
            } else {
                max
            };
            self.timer.tmr.set_auto_reload_unchecked(reload);
            self.timer.tmr.trigger_update();
            self.timer.tmr.start_one_pulse();
            self.remaining = self.remaining - reload;
        }
    }

    /// Starts a delay of `time` ticks: the counter is set to run the first
    /// piece of `time - 1` ticks. A delay of at most one tick starts nothing.
    pub fn delay(&mut self, time: u32)
        ensures
            counted(time) == 0 ==> final(self).remaining == 0 && final(self).regs() == old(self).regs(),
            counted(time) != 0 ==> final(self).remaining == counted(time) - piece(
                counted(time),
                old(self).regs().spec_max_auto_reload(),
            ) && final(self).regs() == after_piece(
                old(self).regs(),
                piece(counted(time), old(self).regs().spec_max_auto_reload()),
            ),
    {
        self.remaining = if time <= 1 {
            0
        } else {
            time - 1
        };
        self.start_piece();
    }

    /// True once the delay is over. While the counter runs, nothing happens;
    /// when it has stopped and ticks are left, the next piece is started.
    pub fn wait(&mut self) -> (done: bool)
        ensures
            done == (old(self).regs().ctrl1 & TMREN == 0 && old(self).remaining == 0),
            old(self).regs().ctrl1 & TMREN != 0 || old(self).remaining == 0 ==> final(self).remaining == old(self).remaining && final(self).regs() == old(self).regs(),
            old(self).regs().ctrl1 & TMREN == 0 && old(self).remaining != 0 ==> final(self).remaining == old(self).remaining - piece(
                old(self).remaining,
                old(self).regs().spec_max_auto_reload(),
            ) && final(self).regs() == after_piece(
                old(self).regs(),
                piece(old(self).remaining, old(self).regs().spec_max_auto_reload()),
            ),
    {
        if self.timer.tmr.is_counter_enabled() {
            false
        } else if self.remaining == 0 {
            true
        } else {
            self.start_piece();
            false
        }
    }

    /// Longest piece that the counter can run, in ticks.
    pub fn max_delay(&self) -> (ticks: u32)
        ensures
            ticks == self.regs().spec_max_auto_reload(),
    {
        self.timer.tmr.max_auto_reload()
    }

    /// Stops the counter and gives the timer back: CTRL1 is reset.
    pub fn release(self) -> (t: FTimer<TMR, FREQ>)
        ensures
            t.regs() == self.regs().set(Register::Ctrl1, 0),
    {
        let mut timer = self.timer;
        timer.tmr.ctrl1_reset();
        timer
    }
}

} // verus!
