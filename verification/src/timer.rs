//! Timers.
//!
//! The drivers are written against [`Instance`], which reads and writes the
//! registers of one timer, and against the traits built on it, which hold the
//! register-level operations of every timer ([`General`]), of timers with
//! output channels ([`WithPwmCommon`], [`WithPwm`]), of advanced timers
//! ([`Advanced`]) and of timers that can drive others ([`MasterTimer`]).

use vstd::prelude::*;
use crate::bits::{has_bit, with_bit, with_field};

pub mod counter;
pub mod delay;

pub use counter::{Counter, CounterHz, CounterMs, CounterUs};
pub use delay::{Delay, DelayMs, DelayUs};
pub use syst::{SysCounter, SysCounterHz, SysCounterUs, SysDelay, SysTick, Syst};
pub mod pwm;
pub mod syst;

pub use pwm::{
    pack_ceil_dead_time, unpack_dead_time, ChannelBuilder, Pins, Pwm, PwmChannel, PwmHz, Split,
};

verus! {

/// CTRL1: counter enable.
pub const TMREN: u32 = 0x0001;
/// CTRL1: only an overflow raises the overflow event.
pub const OVFS: u32 = 0x0004;
/// CTRL1: one cycle mode.
pub const OCMEN: u32 = 0x0008;
/// CTRL1: period buffer enable.
pub const PRBEN: u32 = 0x0080;
/// SWEVT: overflow event triggered by software.
pub const OVFSWTR: u32 = 0x0001;
/// BRK: automatic output enable.
pub const AOEN: u32 = 0x4000;
/// BRK: output enable.
pub const OEN: u32 = 0x8000;

/// Registers of a timer.
#[derive(Clone, Copy, Debug, PartialEq, Eq, Structural)]
pub enum Register {
    Ctrl1,
    Ctrl2,
    Stctrl,
    Iden,
    Ists,
    Swevt,
    Cm1,
    Cm2,
    Cctrl,
    Cval,
    Div,
    Pr,
    C1dt,
    C2dt,
    C3dt,
    C4dt,
    Brk,
}

/// What the registers of a timer hold, and what the timer is built like.
#[derive(Clone, Copy, Debug, PartialEq, Eq, Structural)]
pub struct Registers {
    pub ctrl1: u32,
    pub ctrl2: u32,
    pub stctrl: u32,
    pub iden: u32,
    pub ists: u32,
    pub swevt: u32,
    pub cm1: u32,
    pub cm2: u32,
    pub cctrl: u32,
    pub cval: u32,
    pub div: u32,
    pub pr: u32,
    pub c1dt: u32,
    pub c2dt: u32,
    pub c3dt: u32,
    pub c4dt: u32,
    pub brk: u32,
    /// The counter is 32 bits wide, not 16.
    pub wide: bool,
    /// Number of output channels.
    pub channels: u8,
    /// The timer has complementary outputs, dead time and a brake input.
    pub advanced: bool,
}

impl Registers {
    pub open spec fn get(self, r: Register) -> u32 {
        match r {
            Register::Ctrl1 => self.ctrl1,
            Register::Ctrl2 => self.ctrl2,
            Register::Stctrl => self.stctrl,
            Register::Iden => self.iden,
            Register::Ists => self.ists,
            Register::Swevt => self.swevt,
            Register::Cm1 => self.cm1,
            Register::Cm2 => self.cm2,
            Register::Cctrl => self.cctrl,
            Register::Cval => self.cval,
            Register::Div => self.div,
            Register::Pr => self.pr,
            Register::C1dt => self.c1dt,
            Register::C2dt => self.c2dt,
            Register::C3dt => self.c3dt,
            Register::C4dt => self.c4dt,
            Register::Brk => self.brk,
        }
    }

    pub open spec fn set(self, r: Register, word: u32) -> Registers {
        match r {
            Register::Ctrl1 => Registers { ctrl1: word, ..self },
            Register::Ctrl2 => Registers { ctrl2: word, ..self },
            Register::Stctrl => Registers { stctrl: word, ..self },
            Register::Iden => Registers { iden: word, ..self },
            Register::Ists => Registers { ists: word, ..self },
            Register::Swevt => Registers { swevt: word, ..self },
            Register::Cm1 => Registers { cm1: word, ..self },
            Register::Cm2 => Registers { cm2: word, ..self },
            Register::Cctrl => Registers { cctrl: word, ..self },
            Register::Cval => Registers { cval: word, ..self },
            Register::Div => Registers { div: word, ..self },
            Register::Pr => Registers { pr: word, ..self },
            Register::C1dt => Registers { c1dt: word, ..self },
            Register::C2dt => Registers { c2dt: word, ..self },
            Register::C3dt => Registers { c3dt: word, ..self },
            Register::C4dt => Registers { c4dt: word, ..self },
            Register::Brk => Registers { brk: word, ..self },
        }
    }

    /// Largest value of the counter and of the period register.
    pub open spec fn spec_max_auto_reload(self) -> u32 {
        if self.wide {
            0xFFFF_FFFF
        } else {
            0xFFFF
        }
    }

    /// What the registers hold after a reset of the timer: zero, all of
    /// them. What the timer is built like stays.
    pub open spec fn spec_reset(self) -> Registers {
        Registers {
            ctrl1: 0,
            ctrl2: 0,
            stctrl: 0,
            iden: 0,
            ists: 0,
            swevt: 0,
            cm1: 0,
            cm2: 0,
            cctrl: 0,
            cval: 0,
            div: 0,
            pr: 0,
            c1dt: 0,
            c2dt: 0,
            c3dt: 0,
            c4dt: 0,
            brk: 0,
            ..self
        }
    }

    /// A timer after reset.
    pub fn new(wide: bool, channels: u8, advanced: bool) -> (regs: Registers)
        ensures
            regs == (Registers {
                ctrl1: 0,
                ctrl2: 0,
                stctrl: 0,
                iden: 0,
                ists: 0,
                swevt: 0,
                cm1: 0,
                cm2: 0,
                cctrl: 0,
                cval: 0,
                div: 0,
                pr: 0,
                c1dt: 0,
                c2dt: 0,
                c3dt: 0,
                c4dt: 0,
                brk: 0,
                wide,
                channels,
                advanced,
            }),
    {
        Registers {
            ctrl1: 0,
            ctrl2: 0,
            stctrl: 0,
            iden: 0,
            ists: 0,
            swevt: 0,
            cm1: 0,
            cm2: 0,
            cctrl: 0,
            cval: 0,
            div: 0,
            pr: 0,
            c1dt: 0,
            c2dt: 0,
            c3dt: 0,
            c4dt: 0,
            brk: 0,
            wide,
            channels,
            advanced,
        }
    }
}

/// The compare register of channel `c`, counted from zero.
pub open spec fn spec_compare_register(c: u8) -> Register {
    if c == 0 {
        Register::C1dt
    } else if c == 1 {
        Register::C2dt
    } else if c == 2 {
        Register::C3dt
    } else {
        Register::C4dt
    }
}

#[verifier::when_used_as_spec(spec_compare_register)]
pub fn compare_register(c: u8) -> (r: Register)
    ensures
        r == spec_compare_register(c),
{
    if c == 0 {
        Register::C1dt
    } else if c == 1 {
        Register::C2dt
    } else if c == 2 {
        Register::C3dt
    } else {
        Register::C4dt
    }
}

/// Output channels.
#[derive(Clone, Copy, Debug, PartialEq, Eq, Structural)]
pub enum Channel {
    C1,
    C2,
    C3,
    C4,
}

impl Channel {
    /// The channel's number, counted from zero.
    pub open spec fn spec_index(self) -> u8 {
        match self {
            Channel::C1 => 0,
            Channel::C2 => 1,
            Channel::C3 => 2,
            Channel::C4 => 3,
        }
    }

    #[verifier::when_used_as_spec(spec_index)]
    pub fn index(self) -> (c: u8)
        ensures
            c == self.spec_index(),
            c < 4,
    {
        match self {
            Channel::C1 => 0,
            Channel::C2 => 1,
            Channel::C3 => 2,
            Channel::C4 => 3,
        }
    }
}

/// Channel wrapper.
pub struct Ch<const C: u8, const COMP: bool>;

pub const C1: u8 = 0;

pub const C2: u8 = 1;

pub const C3: u8 = 2;

pub const C4: u8 = 3;

/// Polarity of an output.
#[derive(Clone, Copy, Debug, PartialEq, Eq, Structural)]
pub enum Polarity {
    ActiveHigh,
    ActiveLow,
}

/// Idle state of an output.
#[derive(Clone, Copy, Debug, PartialEq, Eq, Structural)]
pub enum IdleState {
    /// The output is low while idle.
    Reset,
    /// The output is high while idle.
    Raised,
}

/// A set of timer events: overflow and the four channels.
#[derive(Clone, Copy, Debug, PartialEq, Eq, Structural)]
pub struct Event {
    bits: u32,
}

impl Event {
    /// All bits that stand for an event.
    pub const ALL: u32 = 0x1F;

    pub closed spec fn spec_bits(&self) -> u32 {
        self.bits
    }

    /// The events of this set, one bit each: overflow in bit 0, channel `n`
    /// in bit `n`.
    #[verifier::when_used_as_spec(spec_bits)]
    pub fn bits(&self) -> (b: u32)
        ensures
            b == self.spec_bits(),
    {
        self.bits
    }

    /// The set of the events whose bits are set in `bits`; other bits are
    /// dropped.
    pub fn from_bits_truncate(bits: u32) -> (e: Event)
        ensures
            e.spec_bits() == bits & 0x1F,
    {
        Event { bits: bits & 0x1F }
    }

    /// Overflow of the counter.
    pub fn update() -> (e: Event)
        ensures
            e.spec_bits() == 0x01,
    {
        Event { bits: 0x01 }
    }

    pub fn c1() -> (e: Event)
        ensures
            e.spec_bits() == 0x02,
    {
        Event { bits: 0x02 }
    }

    pub fn c2() -> (e: Event)
        ensures
            e.spec_bits() == 0x04,
    {
        Event { bits: 0x04 }
    }

    pub fn c3() -> (e: Event)
        ensures
            e.spec_bits() == 0x08,
    {
        Event { bits: 0x08 }
    }

    pub fn c4() -> (e: Event)
        ensures
            e.spec_bits() == 0x10,
    {
        Event { bits: 0x10 }
    }

    /// The events of both sets.
    pub fn union(self, other: Event) -> (e: Event)
        ensures
            e.spec_bits() == self.spec_bits() | other.spec_bits(),
    {
        Event { bits: self.bits | other.bits }
    }

    /// True when every event of `other` is in this set.
    pub fn contains(&self, other: Event) -> (all: bool)
        ensures
            all == (self.spec_bits() & other.spec_bits() == other.spec_bits()),
    {
        self.bits & other.bits == other.bits
    }
}

/// Timer errors.
#[derive(Clone, Copy, Debug, PartialEq, Eq, Structural)]
pub enum Error {
    /// The timer is disabled.
    Disabled,
    /// The period is zero or does not fit the counter.
    WrongAutoReload,
}

/// Events of the system timer.
#[derive(Clone, Copy, Debug, PartialEq, Eq, Structural)]
pub enum SysEvent {
    /// The count ended.
    Update,
}

/// Output control modes of a channel.
#[derive(Clone, Copy, Debug, PartialEq, Eq, Structural)]
pub enum Ocm {
    Frozen,
    ActiveOnMatch,
    InactiveOnMatch,
    Toggle,
    ForceInactive,
    ForceActive,
    PwmMode1,
    PwmMode2,
}

impl Ocm {
    /// The value of the mode in the output control field.
    pub open spec fn spec_code(self) -> u32 {
        match self {
            Ocm::Frozen => 0,
            Ocm::ActiveOnMatch => 1,
            Ocm::InactiveOnMatch => 2,
            Ocm::Toggle => 3,
            Ocm::ForceInactive => 4,
            Ocm::ForceActive => 5,
            Ocm::PwmMode1 => 6,
            Ocm::PwmMode2 => 7,
        }
    }

    #[verifier::when_used_as_spec(spec_code)]
    pub fn code(self) -> (c: u32)
        ensures
            c == self.spec_code(),
    {
        match self {
            Ocm::Frozen => 0,
            Ocm::ActiveOnMatch => 1,
            Ocm::InactiveOnMatch => 2,
            Ocm::Toggle => 3,
            Ocm::ForceInactive => 4,
            Ocm::ForceActive => 5,
            Ocm::PwmMode1 => 6,
            Ocm::PwmMode2 => 7,
        }
    }
}

/// Access to the registers of one timer. `regs` is what the timer holds when
/// a call begins. The crate implements the trait for [`Registers`], a timer
/// that is plain memory; an implementation for a peripheral reads and writes
/// the memory-mapped registers.
pub trait Instance {
    spec fn regs(&self) -> Registers;

    /// Reads one register.
    fn read(&self, r: Register) -> (word: u32)
        ensures
            word == self.regs().get(r),
    ;

    /// Writes one register.
    fn write(&mut self, r: Register, word: u32)
        ensures
            final(self).regs() == old(self).regs().set(r, word),
    ;

    /// Switches the clock of the timer on. The registers keep what they
    /// hold.
    fn enable(&mut self)
        ensures
            final(self).regs() == old(self).regs(),
    ;

    /// Resets the timer: every register goes back to zero.
    fn reset(&mut self)
        ensures
            final(self).regs() == old(self).regs().spec_reset(),
    ;

    /// True when the counter is 32 bits wide.
    fn wide(&self) -> (w: bool)
        ensures
            w == self.regs().wide,
    ;

    /// Number of output channels.
    fn ch_number(&self) -> (n: u8)
        ensures
            n == self.regs().channels,
    ;

    /// True for a timer with complementary outputs.
    fn is_advanced(&self) -> (a: bool)
        ensures
            a == self.regs().advanced,
    ;
}

impl Instance for Registers {
    open spec fn regs(&self) -> Registers {
        *self
    }

    fn read(&self, r: Register) -> (word: u32) {
        match r {
            Register::Ctrl1 => self.ctrl1,
            Register::Ctrl2 => self.ctrl2,
            Register::Stctrl => self.stctrl,
            Register::Iden => self.iden,
            Register::Ists => self.ists,
            Register::Swevt => self.swevt,
            Register::Cm1 => self.cm1,
            Register::Cm2 => self.cm2,
            Register::Cctrl => self.cctrl,
            Register::Cval => self.cval,
            Register::Div => self.div,
            Register::Pr => self.pr,
            Register::C1dt => self.c1dt,
            Register::C2dt => self.c2dt,
            Register::C3dt => self.c3dt,
            Register::C4dt => self.c4dt,
            Register::Brk => self.brk,
        }
    }

    fn write(&mut self, r: Register, word: u32) {
        match r {
            Register::Ctrl1 => {
                self.ctrl1 = word;
            },
            Register::Ctrl2 => {
                self.ctrl2 = word;
            },
            Register::Stctrl => {
                self.stctrl = word;
            },
            Register::Iden => {
                self.iden = word;
            },
            Register::Ists => {
                self.ists = word;
            },
            Register::Swevt => {
                self.swevt = word;
            },
            Register::Cm1 => {
                self.cm1 = word;
            },
            Register::Cm2 => {
                self.cm2 = word;
            },
            Register::Cctrl => {
                self.cctrl = word;
            },
            Register::Cval => {
                self.cval = word;
            },
            Register::Div => {
                self.div = word;
            },
            Register::Pr => {
                self.pr = word;
            },
            Register::C1dt => {
                self.c1dt = word;
            },
            Register::C2dt => {
                self.c2dt = word;
            },
            Register::C3dt => {
                self.c3dt = word;
            },
            Register::C4dt => {
                self.c4dt = word;
            },
            Register::Brk => {
                self.brk = word;
            },
        }
    }

    fn enable(&mut self) {
    }

    fn reset(&mut self) {
        *self = Registers::new(self.wide, self.channels, self.advanced);
    }

    fn wide(&self) -> (w: bool) {
        self.wide
    }

    fn ch_number(&self) -> (n: u8) {
        self.channels
    }

    fn is_advanced(&self) -> (a: bool) {
        self.advanced
    }
}

/// Operations of every timer.
pub trait General: Instance {
    /// Largest period the counter can run.
    fn max_auto_reload(&self) -> (max: u32)
        ensures
            max == self.regs().spec_max_auto_reload(),
    {
        if self.wide() {
            0xFFFF_FFFF
        } else {
            0xFFFF
        }
    }

    /// Writes the period register.
    fn set_auto_reload_unchecked(&mut self, pr: u32)
        requires
            pr <= old(self).regs().spec_max_auto_reload(),
        ensures
            final(self).regs() == old(self).regs().set(Register::Pr, pr),
    {
        self.write(Register::Pr, pr);
    }

    /// Writes the period register, if the period is not zero and fits the
    /// counter.
    fn set_auto_reload(&mut self, pr: u32) -> (r: Result<(), Error>)
        ensures
            0 < pr <= old(self).regs().spec_max_auto_reload() ==> r is Ok && final(self).regs() == old(self).regs().set(Register::Pr, pr),
            !(0 < pr <= old(self).regs().spec_max_auto_reload()) ==> r == Err::<(), Error>(
                Error::WrongAutoReload,
            ) && final(self).regs() == old(self).regs(),
    {
        if pr > 0 && pr <= self.max_auto_reload() {
            self.set_auto_reload_unchecked(pr);
            Ok(())
        } else {
            Err(Error::WrongAutoReload)
        }
    }

    fn read_auto_reload(&self) -> (pr: u32)
        ensures
            pr == self.regs().pr,
    {
        self.read(Register::Pr)
    }

    /// Switches buffering of the period register on or off.
    fn enable_preload(&mut self, b: bool)
        ensures
            final(self).regs() == old(self).regs().set(
                Register::Ctrl1,
                if b {
                    old(self).regs().ctrl1 | PRBEN
                } else {
                    old(self).regs().ctrl1 & !PRBEN
                },
            ),
    {
        let word: u32 = self.read(Register::Ctrl1);
        if b {
            self.write(Register::Ctrl1, word | PRBEN);
        } else {
            self.write(Register::Ctrl1, word & !PRBEN);
        }
    }

    fn enable_counter(&mut self)
        ensures
            final(self).regs() == old(self).regs().set(
                Register::Ctrl1,
                old(self).regs().ctrl1 | TMREN,
            ),
    {
        let word: u32 = self.read(Register::Ctrl1);
        self.write(Register::Ctrl1, word | TMREN);
    }

    fn disable_counter(&mut self)
        ensures
            final(self).regs() == old(self).regs().set(
                Register::Ctrl1,
                old(self).regs().ctrl1 & !TMREN,
            ),
    {
        let word: u32 = self.read(Register::Ctrl1);
        self.write(Register::Ctrl1, word & !TMREN);
    }

    fn is_counter_enabled(&self) -> (on: bool)
        ensures
            on == (self.regs().ctrl1 & TMREN != 0),
    {
        self.read(Register::Ctrl1) & TMREN != 0
    }

    fn reset_counter(&mut self)
        ensures
            final(self).regs() == old(self).regs().set(Register::Cval, 0),
    {
        self.write(Register::Cval, 0);
    }

    fn set_prescaler(&mut self, div: u16)
        ensures
            final(self).regs() == old(self).regs().set(Register::Div, div as u32),
    {
        self.write(Register::Div, div as u32);
    }

    /// The low 16 bits of the divider register.
    fn read_prescaler(&self) -> (div: u16)
        ensures
            div == self.regs().div & 0xFFFF,
    {
        let raw: u32 = self.read(Register::Div);
        let word: u32 = raw & 0xFFFF;
        assert(word <= 0xFFFF) by (bit_vector)
            requires
                word == raw & 0xFFFF,
        ;
        word as u16
    }

    /// Raises an overflow event by software, which loads the buffered
    /// registers, without the event showing as an interrupt: the event source
    /// is narrowed to overflows around the software event.
    fn trigger_update(&mut self)
        ensures
            final(self).regs() == old(self).regs().set(Register::Swevt, OVFSWTR).set(
                Register::Ctrl1,
                (old(self).regs().ctrl1 | OVFS) & !OVFS,
            ),
    {
        let word: u32 = self.read(Register::Ctrl1);
        self.write(Register::Ctrl1, word | OVFS);
        self.write(Register::Swevt, OVFSWTR);
        let word: u32 = self.read(Register::Ctrl1);
        self.write(Register::Ctrl1, word & !OVFS);
    }

    /// Clears the flags of `event` and no other: a flag is cleared by writing
    /// zero to it.
    fn clear_interrupt_flag(&mut self, event: Event)
        ensures
            final(self).regs() == old(self).regs().set(
                Register::Ists,
                0xFFFF & !event.spec_bits(),
            ),
    {
        self.write(Register::Ists, 0xFFFF & !event.bits());
    }

    /// Switches the interrupts of `event` on or off.
    fn listen_interrupt(&mut self, event: Event, b: bool)
        ensures
            final(self).regs() == old(self).regs().set(
                Register::Iden,
                if b {
                    old(self).regs().iden | event.spec_bits()
                } else {
                    old(self).regs().iden & !event.spec_bits()
                },
            ),
    {
        let word: u32 = self.read(Register::Iden);
        if b {
            self.write(Register::Iden, word | event.bits());
        } else {
            self.write(Register::Iden, word & !event.bits());
        }
    }

    /// The events whose flags are up.
    fn get_interrupt_flag(&self) -> (e: Event)
        ensures
            e.spec_bits() == self.regs().ists & 0x1F,
    {
        Event::from_bits_truncate(self.read(Register::Ists))
    }

    fn read_count(&self) -> (count: u32)
        ensures
            count == self.regs().cval,
    {
        self.read(Register::Cval)
    }

    fn write_count(&mut self, value: u32)
        requires
            value <= old(self).regs().spec_max_auto_reload(),
        ensures
            final(self).regs() == old(self).regs().set(Register::Cval, value),
    {
        self.write(Register::Cval, value);
    }

    /// Starts the counter for one period: CTRL1 holds the one cycle mode and
    /// the enable bit and nothing else.
    fn start_one_pulse(&mut self)
        ensures
            final(self).regs() == old(self).regs().set(Register::Ctrl1, OCMEN | TMREN),
    {
        self.write(Register::Ctrl1, OCMEN | TMREN);
    }

    /// Starts the counter; the one cycle mode bit is set unless `update`.
    fn start_free(&mut self, update: bool)
        ensures
            final(self).regs() == old(self).regs().set(
                Register::Ctrl1,
                if update {
                    (old(self).regs().ctrl1 | TMREN) & !OCMEN
                } else {
                    (old(self).regs().ctrl1 | TMREN) | OCMEN
                },
            ),
    {
        let word: u32 = self.read(Register::Ctrl1) | TMREN;
        if update {
            self.write(Register::Ctrl1, word & !OCMEN);
        } else {
            self.write(Register::Ctrl1, word | OCMEN);
        }
    }

    fn ctrl1_reset(&mut self)
        ensures
            final(self).regs() == old(self).regs().set(Register::Ctrl1, 0),
    {
        self.write(Register::Ctrl1, 0);
    }

    fn cnt_reset(&mut self)
        ensures
            final(self).regs() == old(self).regs().set(Register::Cval, 0),
    {
        self.write(Register::Cval, 0);
    }
}

impl General for Registers {

}

/// True when the timer of `regs` has a channel `c`, counted from zero.
pub open spec fn has_channel(regs: Registers, c: u8) -> bool {
    c < regs.channels && c < 4
}

/// Operations of timers with output channels.
pub trait WithPwmCommon: General {
    /// True when the timer has a channel `c`, counted from zero.
    fn has_channel(&self, c: u8) -> (has: bool)
        ensures
            has == has_channel(self.regs(), c),
    {
        c < self.ch_number() && c < 4
    }

    /// The compare value of a channel, zero for a channel the timer lacks.
    fn read_cc_value(&self, channel: u8) -> (value: u32)
        ensures
            value == if has_channel(self.regs(), channel) {
                self.regs().get(spec_compare_register(channel))
            } else {
                0
            },
    {
        if self.has_channel(channel) {
            self.read(compare_register(channel))
        } else {
            0
        }
    }

    /// Writes the compare value of a channel; nothing for a channel the timer
    /// lacks.
    fn set_cc_value(&mut self, channel: u8, value: u32)
        requires
            has_channel(old(self).regs(), channel) ==> value <= old(self).regs().spec_max_auto_reload(),
        ensures
            final(self).regs() == if has_channel(old(self).regs(), channel) {
                old(self).regs().set(spec_compare_register(channel), value)
            } else {
                old(self).regs()
            },
    {
        if self.has_channel(channel) {
            self.write(compare_register(channel), value);
        }
    }

    /// Sets one bit of CCTRL, that of `slot` in the four bits of a channel;
    /// nothing for a channel the timer lacks.
    fn write_channel_bit(&mut self, channel: u8, slot: u8, on: bool)
        requires
            slot < 4,
        ensures
            final(self).regs() == if has_channel(old(self).regs(), channel) {
                old(self).regs().set(
                    Register::Cctrl,
                    crate::bits::spec_with_bit(
                        old(self).regs().cctrl,
                        (channel * 4 + slot) as u32,
                        on,
                    ),
                )
            } else {
                old(self).regs()
            },
    {
        if self.has_channel(channel) {
            let word: u32 = self.read(Register::Cctrl);
            self.write(Register::Cctrl, with_bit(word, (channel * 4 + slot) as u32, on));
        }
    }

    /// Enables or disables the output of a channel: bit `4 * channel` of
    /// CCTRL.
    fn enable_channel(&mut self, channel: u8, b: bool)
        ensures
            final(self).regs() == if has_channel(old(self).regs(), channel) {
                old(self).regs().set(
                    Register::Cctrl,
                    crate::bits::spec_with_bit(old(self).regs().cctrl, (channel * 4) as u32, b),
                )
            } else {
                old(self).regs()
            },
    {
        self.write_channel_bit(channel, 0, b);
    }

    /// Sets the polarity of a channel: bit `4 * channel + 1` of CCTRL, set for
    /// active low.
    fn set_channel_polarity(&mut self, channel: u8, p: Polarity)
        ensures
            final(self).regs() == if has_channel(old(self).regs(), channel) {
                old(self).regs().set(
                    Register::Cctrl,
                    crate::bits::spec_with_bit(
                        old(self).regs().cctrl,
                        (channel * 4 + 1) as u32,
                        p == Polarity::ActiveLow,
                    ),
                )
            } else {
                old(self).regs()
            },
    {
        self.write_channel_bit(channel, 1, p == Polarity::ActiveLow);
    }

    /// Sets the polarity of the complementary output of a channel: bit
    /// `4 * channel + 3` of CCTRL, set for active low.
    fn set_nchannel_polarity(&mut self, channel: u8, p: Polarity)
        ensures
            final(self).regs() == if has_channel(old(self).regs(), channel) {
                old(self).regs().set(
                    Register::Cctrl,
                    crate::bits::spec_with_bit(
                        old(self).regs().cctrl,
                        (channel * 4 + 3) as u32,
                        p == Polarity::ActiveLow,
                    ),
                )
            } else {
                old(self).regs()
            },
    {
        self.write_channel_bit(channel, 3, p == Polarity::ActiveLow);
    }
}

impl WithPwmCommon for Registers {

}

/// Operations of advanced timers.
pub trait Advanced: WithPwmCommon {
    /// Enables or disables the complementary output of a channel: bit
    /// `4 * channel + 2` of CCTRL.
    fn enable_nchannel(&mut self, channel: u8, b: bool)
        ensures
            final(self).regs() == if has_channel(old(self).regs(), channel) {
                old(self).regs().set(
                    Register::Cctrl,
                    crate::bits::spec_with_bit(
                        old(self).regs().cctrl,
                        (channel * 4 + 2) as u32,
                        b,
                    ),
                )
            } else {
                old(self).regs()
            },
    {
        self.write_channel_bit(channel, 2, b);
    }

    /// Writes the dead time field, bits 0 to 7 of BRK.
    fn set_dtc_value(&mut self, value: u8)
        ensures
            final(self).regs() == old(self).regs().set(
                Register::Brk,
                crate::bits::spec_with_field(old(self).regs().brk, 0, 0xFF, value as u32),
            ),
    {
        let word: u32 = self.read(Register::Brk);
        self.write(Register::Brk, with_field(word, 0, 0xFF, value as u32));
    }

    /// The dead time field.
    fn read_dtc_value(&self) -> (value: u8)
        ensures
            value == self.regs().brk & 0xFF,
    {
        let raw: u32 = self.read(Register::Brk);
        let word: u32 = raw & 0xFF;
        assert(word <= 0xFF) by (bit_vector)
            requires
                word == raw & 0xFF,
        ;
        word as u8
    }

    /// Sets the idle state of a channel's output, bit `2 * channel + 8` of
    /// CTRL2, or of its complementary output, one bit higher.
    fn idle_state(&mut self, channel: u8, comp: bool, s: IdleState)
        ensures
            final(self).regs() == if has_channel(old(self).regs(), channel) {
                old(self).regs().set(
                    Register::Ctrl2,
                    crate::bits::spec_with_bit(
                        old(self).regs().ctrl2,
                        (channel * 2 + 8 + if comp {
                            1int
                        } else {
                            0int
                        }) as u32,
                        s == IdleState::Raised,
                    ),
                )
            } else {
                old(self).regs()
            },
    {
        if self.has_channel(channel) {
            let word: u32 = self.read(Register::Ctrl2);
            let n: u32 = if comp {
                (channel * 2 + 9) as u32
            } else {
                (channel * 2 + 8) as u32
            };
            self.write(Register::Ctrl2, with_bit(word, n, s == IdleState::Raised));
        }
    }

    fn enable_output(&mut self)
        ensures
            final(self).regs() == old(self).regs().set(Register::Brk, old(self).regs().brk | OEN),
    {
        let word: u32 = self.read(Register::Brk);
        self.write(Register::Brk, word | OEN);
    }

    fn disable_output(&mut self)
        ensures
            final(self).regs() == old(self).regs().set(
                Register::Brk,
                old(self).regs().brk & !OEN,
            ),
    {
        let word: u32 = self.read(Register::Brk);
        self.write(Register::Brk, word & !OEN);
    }
}

impl Advanced for Registers {

}

/// The channel mode register that holds the output mode of a channel.
pub open spec fn spec_mode_register(channel: Channel) -> Register {
    match channel {
        Channel::C1 | Channel::C2 => Register::Cm1,
        Channel::C3 | Channel::C4 => Register::Cm2,
    }
}

/// Where in its mode register the byte of a channel begins.
pub open spec fn spec_mode_shift(channel: Channel) -> u32 {
    match channel {
        Channel::C1 | Channel::C3 => 0,
        Channel::C2 | Channel::C4 => 8,
    }
}

/// A mode register word with the output buffer of a channel enabled (bit 3 of
/// the channel's byte) and its output control field (bits 4 to 6) set to
/// `mode`.
pub open spec fn spec_preloaded(word: u32, channel: Channel, mode: Ocm) -> u32 {
    crate::bits::spec_with_field(
        word | (0x08u32 << spec_mode_shift(channel)),
        (4 + spec_mode_shift(channel)) as u32,
        0x7,
        mode.spec_code(),
    )
}

/// Operations of timers that can run their channels as PWM outputs.
pub trait WithPwm: WithPwmCommon {
    /// Puts an output channel in `mode` with its compare register buffered;
    /// nothing for a channel the timer lacks.
    fn preload_output_channel_in_mode(&mut self, channel: Channel, mode: Ocm)
        ensures
            final(self).regs() == if has_channel(old(self).regs(), channel.spec_index()) {
                old(self).regs().set(
                    spec_mode_register(channel),
                    spec_preloaded(
                        old(self).regs().get(spec_mode_register(channel)),
                        channel,
                        mode,
                    ),
                )
            } else {
                old(self).regs()
            },
    {
        if self.has_channel(channel.index()) {
            let r: Register = match channel {
                Channel::C1 | Channel::C2 => Register::Cm1,
                Channel::C3 | Channel::C4 => Register::Cm2,
            };
            let shift: u32 = match channel {
                Channel::C1 | Channel::C3 => 0,
                Channel::C2 | Channel::C4 => 8,
            };
            let word: u32 = self.read(r);
            self.write(r, with_field(word | (0x08u32 << shift), 4 + shift, 0x7, mode.code()));
        }
    }

    /// Starts the counter; an advanced timer also lets its outputs follow.
    fn start_pwm(&mut self)
        ensures
            final(self).regs() == old(self).regs().set(
                Register::Brk,
                if old(self).regs().advanced {
                    old(self).regs().brk | AOEN
                } else {
                    old(self).regs().brk
                },
            ).set(Register::Ctrl1, old(self).regs().ctrl1 | TMREN),
    {
        if self.is_advanced() {
            let word: u32 = self.read(Register::Brk);
            self.write(Register::Brk, word | AOEN);
        }
        let word: u32 = self.read(Register::Ctrl1);
        self.write(Register::Ctrl1, word | TMREN);
    }
}

impl WithPwm for Registers {

}

/// Operations of timers whose output can trigger other timers.
pub trait MasterTimer: General {
    /// Selects what the timer hands to its subordinates: bits 4 to 6 of
    /// CTRL2.
    fn master_mode(&mut self, mode: u8)
        ensures
            final(self).regs() == old(self).regs().set(
                Register::Ctrl2,
                crate::bits::spec_with_field(old(self).regs().ctrl2, 4, 0x7, mode as u32),
            ),
    {
        let word: u32 = self.read(Register::Ctrl2);
        self.write(Register::Ctrl2, with_field(word, 4, 0x7, mode as u32));
    }
}

impl MasterTimer for Registers {

}

/// A timer with the frequency of its clock, in hertz.
pub struct Timer<TMR> {
    pub tmr: TMR,
    pub clk: u32,
}

impl<TMR: General> Timer<TMR> {
    /// What the registers of the timer hold.
    pub open spec fn regs(&self) -> Registers {
        self.tmr.regs()
    }

    /// Takes over a timer that runs on a clock of `clk` hertz: its clock is
    /// switched on and it is reset.
    pub fn new(tmr: TMR, clk: u32) -> (t: Self)
        ensures
            t.regs() == tmr.regs().spec_reset(),
            t.clk == clk,
    {
        let mut tmr = tmr;
        tmr.enable();
        tmr.reset();
        Timer { tmr, clk }
    }

    /// Takes note of a new clock frequency.
    pub fn configure(&mut self, clk: u32)
        ensures
            final(self).tmr == old(self).tmr,
            final(self).clk == clk,
    {
        self.clk = clk;
    }

    pub fn counter_hz(self) -> (c: CounterHz<TMR>)
        ensures
            c.0 == self,
    {
        CounterHz(self)
    }

    pub fn release(self) -> (tmr: TMR)
        ensures
            tmr == self.tmr,
    {
        self.tmr
    }

    /// Switches the interrupts of `event` on.
    pub fn listen(&mut self, event: Event)
        ensures
            final(self).clk == old(self).clk,
            final(self).regs() == old(self).regs().set(
                Register::Iden,
                old(self).regs().iden | event.spec_bits(),
            ),
    {
        self.tmr.listen_interrupt(event, true);
    }

    /// Clears the flags of `event`.
    pub fn clear_interrupt(&mut self, event: Event)
        ensures
            final(self).clk == old(self).clk,
            final(self).regs() == old(self).regs().set(
                Register::Ists,
                0xFFFF & !event.spec_bits(),
            ),
    {
        self.tmr.clear_interrupt_flag(event);
    }

    /// Switches the interrupts of `event` off.
    pub fn unlisten(&mut self, event: Event)
        ensures
            final(self).clk == old(self).clk,
            final(self).regs() == old(self).regs().set(
                Register::Iden,
                old(self).regs().iden & !event.spec_bits(),
            ),
    {
        self.tmr.listen_interrupt(event, false);
    }
}

impl<TMR: MasterTimer> Timer<TMR> {
    pub fn set_master_mode(&mut self, mode: u8)
        ensures
            final(self).clk == old(self).clk,
            final(self).tmr.regs() == old(self).tmr.regs().set(
                Register::Ctrl2,
                crate::bits::spec_with_field(old(self).tmr.regs().ctrl2, 4, 0x7, mode as u32),
            ),
    {
        self.tmr.master_mode(mode)
    }
}

/// A timer whose counter runs at `FREQ` hertz.
pub struct FTimer<TMR, const FREQ: u32> {
    pub tmr: TMR,
}

/// `FTimer` that counts microseconds.
pub type FTimerUs<TMR> = FTimer<TMR, 1_000_000>;

/// `FTimer` that counts milliseconds.
pub type FTimerMs<TMR> = FTimer<TMR, 1_000>;

/// A clock of `clk` hertz can be divided down to `freq` hertz by the 16-bit
/// divider of a timer.
pub open spec fn divides_to(clk: u32, freq: u32) -> bool {
    &&& freq > 0
    &&& clk % freq == 0
    &&& 1 <= clk / freq <= 0x1_0000
}

impl<TMR: General, const FREQ: u32> FTimer<TMR, FREQ> {
    /// What the registers of the timer hold.
    pub open spec fn regs(&self) -> Registers {
        self.tmr.regs()
    }

    /// Takes over a timer that runs on a clock of `clk` hertz: its clock is
    /// switched on, it is reset, and its divider is set so that the counter
    /// runs at `FREQ` hertz.
    pub fn new(tmr: TMR, clk: u32) -> (t: Self)
        requires
            divides_to(clk, FREQ),
        ensures
            t.regs() == tmr.regs().spec_reset().set(Register::Div, (clk / FREQ - 1) as u32),
    {
        let mut tmr = tmr;
        tmr.enable();
        tmr.reset();
        let mut t = FTimer { tmr };
        t.configure(clk);
        t
    }

    /// Sets the divider for a clock of `clk` hertz.
    pub fn configure(&mut self, clk: u32)
        requires
            divides_to(clk, FREQ),
        ensures
            final(self).regs() == old(self).regs().set(Register::Div, (clk / FREQ - 1) as u32),
    {
        let psc: u32 = clk / FREQ;
        self.tmr.set_prescaler((psc - 1) as u16);
    }

    pub fn counter(self) -> (c: Counter<TMR, FREQ>)
        ensures
            c.0 == self,
    {
        Counter(self)
    }

    pub fn delay(self) -> (d: Delay<TMR, FREQ>)
        ensures
            d.timer == self,
            d.remaining == 0,
    {
        Delay { timer: self, remaining: 0 }
    }

    pub fn release(self) -> (tmr: TMR)
        ensures
            tmr == self.tmr,
    {
        self.tmr
    }

    /// Switches the interrupts of `event` on.
    pub fn listen(&mut self, event: Event)
        ensures
            final(self).regs() == old(self).regs().set(
                Register::Iden,
                old(self).regs().iden | event.spec_bits(),
            ),
    {
        self.tmr.listen_interrupt(event, true);
    }

    /// Clears the flags of `event`.
    pub fn clear_interrupt(&mut self, event: Event)
        ensures
            final(self).regs() == old(self).regs().set(
                Register::Ists,
                0xFFFF & !event.spec_bits(),
            ),
    {
        self.tmr.clear_interrupt_flag(event);
    }

    /// The events whose flags are up.
    pub fn get_interrupt(&self) -> (e: Event)
        ensures
            e.spec_bits() == self.regs().ists & 0x1F,
    {
        self.tmr.get_interrupt_flag()
    }

    /// Switches the interrupts of `event` off.
    pub fn unlisten(&mut self, event: Event)
        ensures
            final(self).regs() == old(self).regs().set(
                Register::Iden,
                old(self).regs().iden & !event.spec_bits(),
            ),
    {
        self.tmr.listen_interrupt(event, false);
    }
}

impl<TMR: MasterTimer, const FREQ: u32> FTimer<TMR, FREQ> {
    pub fn set_master_mode(&mut self, mode: u8)
        ensures
            final(self).tmr.regs() == old(self).tmr.regs().set(
                Register::Ctrl2,
                crate::bits::spec_with_field(old(self).tmr.regs().ctrl2, 4, 0x7, mode as u32),
            ),
    {
        self.tmr.master_mode(mode)
    }
}

/// The divider, less one, that brings `clock` down far enough for a period of
/// `clock / freq` ticks to fit 16 bits.
pub open spec fn spec_presc(freq: u32, clock: u32) -> int {
    (clock as int / freq as int - 1) / 0x1_0000
}

/// The period, less one, of a counter behind that divider.
pub open spec fn spec_arr(freq: u32, clock: u32) -> int {
    (clock as int / freq as int) / (spec_presc(freq, clock) + 1) - 1
}

/// Splits the `clock / freq` ticks of one period into a divider and a period
/// that fits a 16-bit counter. Both come back less one, as the registers hold
/// them.
pub fn compute_arr_presc(freq: u32, clock: u32) -> (out: (u16, u32))
    requires
        0 < freq <= clock,
    ensures
        out.0 as int == spec_presc(freq, clock),
        out.1 as int == spec_arr(freq, clock),
        out.1 <= 0xFFFF,
{
    let ticks: u32 = clock / freq;
    assert(ticks >= 1) by (nonlinear_arith)
        requires
            ticks == clock / freq,
            0 < freq <= clock,
    ;
    let psc: u32 = (ticks - 1) / 0x1_0000;
    let per: u32 = ticks / (psc + 1);
    assert(1 <= per <= 0x1_0000) by (nonlinear_arith)
        requires
            ticks >= 1,
            psc as int == (ticks as int - 1) / 0x1_0000,
            per as int == ticks as int / (psc as int + 1),
    ;
    (psc as u16, per - 1)
}

} // verus!
