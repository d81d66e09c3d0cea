//! Pulse-width modulation.
//!
//! [`Pwm`] runs on an [`FTimer`], whose counter has a fixed frequency, and
//! takes periods in ticks. [`PwmHz`] runs on a [`Timer`] and takes periods as
//! frequencies, for which it picks divider and period itself. Either can be
//! split into its [`PwmChannel`]s. The channels in use are chosen by a
//! [`ChannelBuilder`] each; several are put in a tuple.

use core::marker::PhantomData;
use vstd::prelude::*;
use super::{
    compute_arr_presc, has_channel, spec_arr, spec_compare_register, spec_mode_register,
    spec_preloaded, spec_presc, Advanced, Channel, FTimer, General, IdleState, Ocm, Polarity,
    Register, Registers, Timer, WithPwm, AOEN, OVFS, OVFSWTR, PRBEN, TMREN,
};
use crate::bits::spec_with_bit;

verus! {

/// Chooses channel `C` of timer `TMR`, with (`COMP`) or without its
/// complementary output, on pins of output type `Otype`.
pub struct ChannelBuilder<TMR, const C: u8, const COMP: bool, Otype> {
    pub _tmr: PhantomData<(TMR, Otype)>,
}

pub type Channel1<TMR, const COMP: bool, Otype> = ChannelBuilder<TMR, 0, COMP, Otype>;

pub type Channel2<TMR, const COMP: bool, Otype> = ChannelBuilder<TMR, 1, COMP, Otype>;

pub type Channel3<TMR, const COMP: bool, Otype> = ChannelBuilder<TMR, 2, COMP, Otype>;

pub type Channel4<TMR, const COMP: bool, Otype> = ChannelBuilder<TMR, 3, COMP, Otype>;

impl<TMR, Otype, const C: u8> ChannelBuilder<TMR, C, false, Otype> {
    /// Chooses the channel, which takes over `pin`.
    pub fn new<PIN>(pin: PIN) -> (b: Self) {
        let _pin = pin;
        ChannelBuilder { _tmr: PhantomData }
    }
}

impl<TMR, Otype, const C: u8, const COMP: bool> ChannelBuilder<TMR, C, COMP, Otype> {
    /// Adds a pin for the complementary output of the channel, which is then
    /// in use.
    pub fn with_complementary<PIN>(self, pin: PIN) -> (b: ChannelBuilder<TMR, C, true, Otype>) {
        let _pin = pin;
        ChannelBuilder { _tmr: PhantomData }
    }

    /// Adds another pin to the channel.
    pub fn with<PIN>(self, pin: PIN) -> (b: Self)
        ensures
            b == self,
    {
        let _pin = pin;
        self
    }
}

/// One output channel of a timer, on its own.
pub struct PwmChannel<TMR, const C: u8, const COMP: bool> {
    pub _tmr: PhantomData<TMR>,
}

/// Channel choices that can be turned into channels.
pub trait Split {
    type Channels;

    /// The channels that the choice stands for.
    spec fn channels() -> Self::Channels;

    /// Turns the choice into its channels.
    fn split() -> (c: Self::Channels)
        ensures
            c == Self::channels(),
    ;
}

impl<TMR, Otype, const C: u8, const COMP: bool> Split for ChannelBuilder<TMR, C, COMP, Otype> {
    type Channels = PwmChannel<TMR, C, COMP>;

    /// The one channel that the builder chose.
    open spec fn channels() -> PwmChannel<TMR, C, COMP> {
        PwmChannel { _tmr: PhantomData }
    }

    fn split() -> (c: PwmChannel<TMR, C, COMP>) {
        PwmChannel::new()
    }
}

impl<T1: Split, T2: Split> Split for (T1, T2) {
    type Channels = (T1::Channels, T2::Channels);

    /// The channels of each member, in the order of the members.
    open spec fn channels() -> (T1::Channels, T2::Channels) {
        (T1::channels(), T2::channels())
    }

    fn split() -> (c: (T1::Channels, T2::Channels)) {
        (T1::split(), T2::split())
    }
}

impl<T1: Split, T2: Split, T3: Split> Split for (T1, T2, T3) {
    type Channels = (T1::Channels, T2::Channels, T3::Channels);

    /// The channels of each member, in the order of the members.
    open spec fn channels() -> (T1::Channels, T2::Channels, T3::Channels) {
        (T1::channels(), T2::channels(), T3::channels())
    }

    fn split() -> (c: (T1::Channels, T2::Channels, T3::Channels)) {
        (T1::split(), T2::split(), T3::split())
    }
}

impl<T1: Split, T2: Split, T3: Split, T4: Split> Split for (T1, T2, T3, T4) {
    type Channels = (T1::Channels, T2::Channels, T3::Channels, T4::Channels);

    /// The channels of each member, in the order of the members.
    open spec fn channels() -> (T1::Channels, T2::Channels, T3::Channels, T4::Channels) {
        (T1::channels(), T2::channels(), T3::channels(), T4::channels())
    }

    fn split() -> (c: (T1::Channels, T2::Channels, T3::Channels, T4::Channels)) {
        (T1::split(), T2::split(), T3::split(), T4::split())
    }
}

/// The channels that a choice of pins puts to use.
pub trait Pins<TMR>: Split {
    /// True when the choice uses `c`.
    spec fn spec_used(c: Channel) -> bool;

    /// True when the choice uses the complementary output of `c`.
    spec fn spec_complementary_used(c: Channel) -> bool;

    fn used(c: Channel) -> (u: bool)
        ensures
            u == Self::spec_used(c),
    ;

    fn complementary_used(c: Channel) -> (u: bool)
        ensures
            u == Self::spec_complementary_used(c),
    ;

    /// Hands a channel through that is in use.
    fn check_used(c: Channel) -> (out: Channel)
        requires
            Self::spec_used(c),
        ensures
            out == c,
    {
        c
    }

    /// Hands a channel through whose complementary output is in use.
    fn check_complementary_used(c: Channel) -> (out: Channel)
        requires
            Self::spec_complementary_used(c),
        ensures
            out == c,
    {
        c
    }
}

impl<TMR, Otype, const C: u8, const COMP: bool> Pins<TMR> for ChannelBuilder<
    TMR,
    C,
    COMP,
    Otype,
> {
    open spec fn spec_used(c: Channel) -> bool {
        c.spec_index() == C
    }

    open spec fn spec_complementary_used(c: Channel) -> bool {
        COMP && c.spec_index() == C
    }

    fn used(c: Channel) -> (u: bool) {
        c.index() == C
    }

    fn complementary_used(c: Channel) -> (u: bool) {
        COMP && c.index() == C
    }
}

impl<TMR, T1: Pins<TMR>, T2: Pins<TMR>> Pins<TMR> for (T1, T2) {
    open spec fn spec_used(c: Channel) -> bool {
        T1::spec_used(c) || T2::spec_used(c)
    }

    open spec fn spec_complementary_used(c: Channel) -> bool {
        T1::spec_complementary_used(c) || T2::spec_complementary_used(c)
    }

    fn used(c: Channel) -> (u: bool) {
        T1::used(c) || T2::used(c)
    }

    fn complementary_used(c: Channel) -> (u: bool) {
        T1::complementary_used(c) || T2::complementary_used(c)
    }
}

impl<TMR, T1: Pins<TMR>, T2: Pins<TMR>, T3: Pins<TMR>> Pins<TMR> for (T1, T2, T3) {
    open spec fn spec_used(c: Channel) -> bool {
        T1::spec_used(c) || T2::spec_used(c) || T3::spec_used(c)
    }

    open spec fn spec_complementary_used(c: Channel) -> bool {
        T1::spec_complementary_used(c) || T2::spec_complementary_used(c)
            || T3::spec_complementary_used(c)
    }

    fn used(c: Channel) -> (u: bool) {
        T1::used(c) || T2::used(c) || T3::used(c)
    }

    fn complementary_used(c: Channel) -> (u: bool) {
        T1::complementary_used(c) || T2::complementary_used(c) || T3::complementary_used(c)
    }
}

impl<TMR, T1: Pins<TMR>, T2: Pins<TMR>, T3: Pins<TMR>, T4: Pins<TMR>> Pins<TMR> for (
    T1,
    T2,
    T3,
    T4,
) {
    open spec fn spec_used(c: Channel) -> bool {
        T1::spec_used(c) || T2::spec_used(c) || T3::spec_used(c) || T4::spec_used(c)
    }

    open spec fn spec_complementary_used(c: Channel) -> bool {
        T1::spec_complementary_used(c) || T2::spec_complementary_used(c)
            || T3::spec_complementary_used(c) || T4::spec_complementary_used(c)
    }

    fn used(c: Channel) -> (u: bool) {
        T1::used(c) || T2::used(c) || T3::used(c) || T4::used(c)
    }

    fn complementary_used(c: Channel) -> (u: bool) {
        T1::complementary_used(c) || T2::complementary_used(c) || T3::complementary_used(c)
            || T4::complementary_used(c)
    }
}

/// The registers with bit `n` of CCTRL set or cleared, where the timer has
/// channel `c`.
pub open spec fn with_channel_bit(regs: Registers, c: u8, n: int, on: bool) -> Registers {
    if has_channel(regs, c) {
        regs.set(Register::Cctrl, spec_with_bit(regs.cctrl, n as u32, on))
    } else {
        regs
    }
}

/// The compare value of channel `c`, zero for a channel the timer lacks.
pub open spec fn cc_value(regs: Registers, c: u8) -> u32 {
    if has_channel(regs, c) {
        regs.get(spec_compare_register(c))
    } else {
        0
    }
}

/// The registers with the compare value of channel `c` written, where the
/// timer has that channel.
pub open spec fn with_cc_value(regs: Registers, c: u8, value: u32) -> Registers {
    if has_channel(regs, c) {
        regs.set(spec_compare_register(c), value)
    } else {
        regs
    }
}

/// The duty of a full period: the low 16 bits of the period register plus
/// one, which is zero for a period of 65536 ticks.
pub open spec fn max_duty(regs: Registers) -> u16 {
    if regs.pr & 0xFFFF == 0xFFFF {
        0
    } else {
        ((regs.pr & 0xFFFF) + 1) as u16
    }
}

/// The low 16 bits of a word.
pub fn low_half(word: u32) -> (out: u16)
    ensures
        out == word & 0xFFFF,
{
    let low: u32 = word & 0xFFFF;
    assert(low <= 0xFFFF) by (bit_vector)
        requires
            low == word & 0xFFFF,
    ;
    low as u16
}

/// Reads the period register and turns it into the duty of a full period.
pub fn read_max_duty<TMR: General>(tmr: &TMR) -> (duty: u16)
    ensures
        duty == max_duty(tmr.regs()),
{
    let low: u16 = low_half(tmr.read_auto_reload());
    if low == 0xFFFF {
        0
    } else {
        low + 1
    }
}

impl<TMR, const C: u8, const COMP: bool> PwmChannel<TMR, C, COMP> {
    pub fn new() -> (ch: Self) {
        PwmChannel { _tmr: PhantomData }
    }
}

impl<TMR: WithPwm, const C: u8, const COMP: bool> PwmChannel<TMR, C, COMP> {
    /// Disables the output of the channel.
    pub fn disable(&mut self, tmr: &mut TMR)
        ensures
            final(tmr).regs() == with_channel_bit(old(tmr).regs(), C, C * 4, false),
    {
        tmr.enable_channel(C, false);
    }

    /// Enables the output of the channel.
    pub fn enable(&mut self, tmr: &mut TMR)
        ensures
            final(tmr).regs() == with_channel_bit(old(tmr).regs(), C, C * 4, true),
    {
        tmr.enable_channel(C, true);
    }

    /// Sets the polarity of the channel.
    pub fn set_polarity(&mut self, tmr: &mut TMR, p: Polarity)
        ensures
            final(tmr).regs() == with_channel_bit(
                old(tmr).regs(),
                C,
                C * 4 + 1,
                p == Polarity::ActiveLow,
            ),
    {
        tmr.set_channel_polarity(C, p);
    }

    /// The duty of the channel: the low 16 bits of its compare value.
    pub fn get_duty(&self, tmr: &TMR) -> (duty: u16)
        ensures
            duty == cc_value(tmr.regs(), C) & 0xFFFF,
    {
        low_half(tmr.read_cc_value(C))
    }

    /// The duty of a full period; zero stands for 65536.
    pub fn get_max_duty(&self, tmr: &TMR) -> (duty: u16)
        ensures
            duty == max_duty(tmr.regs()),
    {
        read_max_duty(tmr)
    }

    /// Sets the duty of the channel.
    pub fn set_duty(&mut self, tmr: &mut TMR, duty: u16)
        ensures
            final(tmr).regs() == with_cc_value(old(tmr).regs(), C, duty as u32),
    {
        tmr.set_cc_value(C, duty as u32)
    }

    /// Sets the polarity of the complementary output of the channel.
    pub fn set_complementary_polarity(&mut self, tmr: &mut TMR, p: Polarity)
        ensures
            final(tmr).regs() == with_channel_bit(
                old(tmr).regs(),
                C,
                C * 4 + 3,
                p == Polarity::ActiveLow,
            ),
    {
        tmr.set_nchannel_polarity(C, p);
    }
}

/// The registers with the idle state bit `n` of CTRL2 set or cleared, where
/// the timer has channel `c`.
pub open spec fn with_idle_bit(regs: Registers, c: u8, n: int, on: bool) -> Registers {
    if has_channel(regs, c) {
        regs.set(Register::Ctrl2, spec_with_bit(regs.ctrl2, n as u32, on))
    } else {
        regs
    }
}

impl<TMR: WithPwm + Advanced, const C: u8> PwmChannel<TMR, C, true> {
    /// Disables the complementary output of the channel.
    pub fn disable_complementary(&mut self, tmr: &mut TMR)
        ensures
            final(tmr).regs() == with_channel_bit(old(tmr).regs(), C, C * 4 + 2, false),
    {
        tmr.enable_nchannel(C, false);
    }

    /// Enables the complementary output of the channel.
    pub fn enable_complementary(&mut self, tmr: &mut TMR)
        ensures
            final(tmr).regs() == with_channel_bit(old(tmr).regs(), C, C * 4 + 2, true),
    {
        tmr.enable_nchannel(C, true);
    }

    /// Sets the idle state of the channel's output.
    pub fn set_idle_state(&mut self, tmr: &mut TMR, s: IdleState)
        ensures
            final(tmr).regs() == with_idle_bit(
                old(tmr).regs(),
                C,
                C * 2 + 8,
                s == IdleState::Raised,
            ),
    {
        tmr.idle_state(C, false, s);
    }

    /// Sets the idle state of the channel's complementary output.
    pub fn set_complementary_idle_state(&mut self, tmr: &mut TMR, s: IdleState)
        ensures
            final(tmr).regs() == with_idle_bit(
                old(tmr).regs(),
                C,
                C * 2 + 9,
                s == IdleState::Raised,
            ),
    {
        tmr.idle_state(C, true, s);
    }
}

/// The registers with channel `c` put in PWM mode 1 with a buffered compare
/// register, where the channel is in use and the timer has it.
pub open spec fn preloaded_if(regs: Registers, used: bool, c: Channel) -> Registers {
    if used && has_channel(regs, c.spec_index()) {
        regs.set(
            spec_mode_register(c),
            spec_preloaded(regs.get(spec_mode_register(c)), c, Ocm::PwmMode1),
        )
    } else {
        regs
    }
}

/// The registers after the channels in use were put in PWM mode and the
/// period register was made buffered.
pub open spec fn prepared(regs: Registers, c1: bool, c2: bool, c3: bool, c4: bool) -> Registers {
    let r = preloaded_if(
        preloaded_if(
            preloaded_if(preloaded_if(regs, c1, Channel::C1), c2, Channel::C2),
            c3,
            Channel::C3,
        ),
        c4,
        Channel::C4,
    );
    r.set(Register::Ctrl1, r.ctrl1 | PRBEN)
}

/// The registers after a software overflow loaded the buffered registers and
/// the counter was started for PWM.
pub open spec fn launched(regs: Registers) -> Registers {
    let r = regs.set(Register::Swevt, OVFSWTR).set(Register::Ctrl1, (regs.ctrl1 | OVFS) & !OVFS);
    r.set(
        Register::Brk,
        if r.advanced {
            r.brk | AOEN
        } else {
            r.brk
        },
    ).set(Register::Ctrl1, r.ctrl1 | TMREN)
}

/// Puts the channels that `PINS` uses in PWM mode and makes the period
/// register buffered.
fn prepare<TMR: WithPwm, PINS: Pins<TMR>>(tmr: &mut TMR)
    ensures
        final(tmr).regs() == prepared(
            old(tmr).regs(),
            PINS::spec_used(Channel::C1),
            PINS::spec_used(Channel::C2),
            PINS::spec_used(Channel::C3),
            PINS::spec_used(Channel::C4),
        ),
{
    if PINS::used(Channel::C1) {
        tmr.preload_output_channel_in_mode(Channel::C1, Ocm::PwmMode1);
    }
    if PINS::used(Channel::C2) {
        tmr.preload_output_channel_in_mode(Channel::C2, Ocm::PwmMode1);
    }
    if PINS::used(Channel::C3) {
        tmr.preload_output_channel_in_mode(Channel::C3, Ocm::PwmMode1);
    }
    if PINS::used(Channel::C4) {
        tmr.preload_output_channel_in_mode(Channel::C4, Ocm::PwmMode1);
    }
    tmr.enable_preload(true);
}

/// PWM on a [`Timer`]: periods are given as frequencies.
pub struct PwmHz<TMR, PINS> {
    pub timer: Timer<TMR>,
    pub _pins: PhantomData<PINS>,
}

/// PWM on an [`FTimer`]: periods are given in ticks.
pub struct Pwm<TMR, PINS, const FREQ: u32> {
    pub timer: FTimer<TMR, FREQ>,
    pub _pins: PhantomData<PINS>,
}

impl<TMR: WithPwm, const FREQ: u32> FTimer<TMR, FREQ> {
    /// Starts PWM with a period of `time` ticks on the channels that `PINS`
    /// uses.
    pub fn pwm<PINS: Pins<TMR>>(self, _pins: PINS, time: u32) -> (pwm: Pwm<TMR, PINS, FREQ>)
        requires
            2 <= time <= self.regs().spec_max_auto_reload() as int + 1,
        ensures
            pwm.timer.regs() == launched(
                prepared(
                    self.regs(),
                    PINS::spec_used(Channel::C1),
                    PINS::spec_used(Channel::C2),
                    PINS::spec_used(Channel::C3),
                    PINS::spec_used(Channel::C4),
                ).set(Register::Pr, (time - 1) as u32),
            ),
    {
        let mut timer = self;
        prepare::<TMR, PINS>(&mut timer.tmr);
        timer.tmr.set_auto_reload_unchecked(time - 1);
        timer.tmr.trigger_update();
        timer.tmr.start_pwm();
        Pwm { timer, _pins: PhantomData }
    }
}

impl<TMR: WithPwm> Timer<TMR> {
    /// Starts PWM at `freq` hertz on the channels that `PINS` uses.
    pub fn pwm_hz<PINS: Pins<TMR>>(self, _pins: PINS, freq: u32) -> (pwm: PwmHz<TMR, PINS>)
        requires
            0 < freq <= self.clk,
            spec_arr(freq, self.clk) > 0,
        ensures
            pwm.timer.clk == self.clk,
            pwm.timer.regs() == launched(
                prepared(
                    self.regs(),
                    PINS::spec_used(Channel::C1),
                    PINS::spec_used(Channel::C2),
                    PINS::spec_used(Channel::C3),
                    PINS::spec_used(Channel::C4),
                ).set(Register::Div, spec_presc(freq, self.clk) as u32).set(
                    Register::Pr,
                    spec_arr(freq, self.clk) as u32,
                ),
            ),
    {
        let mut timer = self;
        prepare::<TMR, PINS>(&mut timer.tmr);
        let (psc, arr) = compute_arr_presc(freq, timer.clk);
        timer.tmr.set_prescaler(psc);
        timer.tmr.set_auto_reload_unchecked(arr);
        timer.tmr.trigger_update();
        timer.tmr.start_pwm();
        PwmHz { timer, _pins: PhantomData }
    }
}

impl<TMR: WithPwm, PINS: Pins<TMR>, const FREQ: u32> Pwm<TMR, PINS, FREQ> {
    /// What the registers of the timer hold.
    pub open spec fn regs(&self) -> Registers {
        self.timer.tmr.regs()
    }

    /// The channels that the pins stand for, on their own.
    pub fn split(self) -> (c: PINS::Channels)
        ensures
            c == PINS::channels(),
    {
        PINS::split()
    }

    /// Stops the counter and gives the timer back: CTRL1 is reset.
    pub fn release(self) -> (t: FTimer<TMR, FREQ>)
        ensures
            t.regs() == self.regs().set(Register::Ctrl1, 0),
    {
        let mut timer = self.timer;
        timer.tmr.ctrl1_reset();
        timer
    }

    /// Enables the output of a channel in use.
    pub fn enable(&mut self, channel: Channel)
        requires
            PINS::spec_used(channel),
        ensures
            final(self).regs() == with_channel_bit(
                old(self).regs(),
                channel.spec_index(),
                channel.spec_index() * 4,
                true,
            ),
    {
        let c: u8 = PINS::check_used(channel).index();
        self.timer.tmr.enable_channel(c, true)
    }

    /// Disables the output of a channel in use.
    pub fn disable(&mut self, channel: Channel)
        requires
            PINS::spec_used(channel),
        ensures
            final(self).regs() == with_channel_bit(
                old(self).regs(),
                channel.spec_index(),
                channel.spec_index() * 4,
                false,
            ),
    {
        let c: u8 = PINS::check_used(channel).index();
        self.timer.tmr.enable_channel(c, false)
    }

    /// Sets the polarity of a channel in use.
    pub fn set_polarity(&mut self, channel: Channel, p: Polarity)
        requires
            PINS::spec_used(channel),
        ensures
            final(self).regs() == with_channel_bit(
                old(self).regs(),
                channel.spec_index(),
                channel.spec_index() * 4 + 1,
                p == Polarity::ActiveLow,
            ),
    {
        let c: u8 = PINS::check_used(channel).index();
        self.timer.tmr.set_channel_polarity(c, p);
    }

    /// The duty of a channel in use: the low 16 bits of its compare value.
    pub fn get_duty(&self, channel: Channel) -> (duty: u16)
        requires
            PINS::spec_used(channel),
        ensures
            duty == cc_value(self.regs(), channel.spec_index()) & 0xFFFF,
    {
        let c: u8 = PINS::check_used(channel).index();
        low_half(self.timer.tmr.read_cc_value(c))
    }

    /// The duty of a channel in use, in ticks.
    pub fn get_duty_time(&self, channel: Channel) -> (ticks: u32)
        requires
            PINS::spec_used(channel),
        ensures
            ticks == cc_value(self.regs(), channel.spec_index()),
    {
        let c: u8 = PINS::check_used(channel).index();
        self.timer.tmr.read_cc_value(c)
    }

    /// Sets the duty of a channel in use.
    pub fn set_duty(&mut self, channel: Channel, duty: u16)
        requires
            PINS::spec_used(channel),
        ensures
            final(self).regs() == with_cc_value(
                old(self).regs(),
                channel.spec_index(),
                duty as u32,
            ),
    {
        let c: u8 = PINS::check_used(channel).index();
        self.timer.tmr.set_cc_value(c, duty as u32)
    }

    /// Sets the duty of a channel in use, in ticks that fit the counter.
    pub fn set_duty_time(&mut self, channel: Channel, duty: u32)
        requires
            PINS::spec_used(channel),
            duty <= old(self).regs().spec_max_auto_reload(),
        ensures
            final(self).regs() == with_cc_value(old(self).regs(), channel.spec_index(), duty),
    {
        let c: u8 = PINS::check_used(channel).index();
        self.timer.tmr.set_cc_value(c, duty)
    }

    /// The duty of a full period; zero stands for 65536.
    pub fn get_max_duty(&self) -> (duty: u16)
        ensures
            duty == max_duty(self.regs()),
    {
        read_max_duty(&self.timer.tmr)
    }

    /// The period, in ticks.
    pub fn get_period(&self) -> (ticks: u32)
        requires
            self.regs().pr < u32::MAX,
        ensures
            ticks == self.regs().pr + 1,
    {
        self.timer.tmr.read_auto_reload() + 1
    }

    /// Sets the period, in ticks, and starts it anew.
    pub fn set_period(&mut self, period: u32)
        requires
            2 <= period <= old(self).regs().spec_max_auto_reload() as int + 1,
        ensures
            final(self).regs() == old(self).regs().set(Register::Pr, (period - 1) as u32).set(
                Register::Cval,
                0,
            ),
    {
        self.timer.tmr.set_auto_reload_unchecked(period - 1);
        self.timer.tmr.cnt_reset();
    }

    /// Sets the polarity bit of a channel whose complementary output is in
    /// use: bit `4 * channel + 1` of CCTRL.
    pub fn set_complementary_polarity(&mut self, channel: Channel, p: Polarity)
        requires
            PINS::spec_complementary_used(channel),
        ensures
            final(self).regs() == with_channel_bit(
                old(self).regs(),
                channel.spec_index(),
                channel.spec_index() * 4 + 1,
                p == Polarity::ActiveLow,
            ),
    {
        let c: u8 = PINS::check_complementary_used(channel).index();
        self.timer.tmr.set_channel_polarity(c, p);
    }
}

/// The dead time field for a dead time of `ticks`: the smallest value the
/// field can express that is not below it, and the largest one above 1008
/// ticks. Up to 127 the field counts ticks; from 128 pairs of ticks, with an
/// offset of 64; from 255 eights, and from 505 sixteens, with an offset of 32.
pub open spec fn spec_pack_ceil_dead_time(ticks: u16) -> u8 {
    if ticks <= 127 {
        ticks as u8
    } else if ticks <= 254 {
        (0x80 + ((ticks + 1) / 2 - 64)) as u8
    } else if ticks <= 504 {
        (0xC0 + ((ticks + 7) / 8 - 32)) as u8
    } else if ticks <= 1008 {
        (0xE0 + ((ticks + 15) / 16 - 32)) as u8
    } else {
        0xFF
    }
}

#[verifier::when_used_as_spec(spec_pack_ceil_dead_time)]
pub fn pack_ceil_dead_time(dts_ticks: u16) -> (bits: u8)
    ensures
        bits == spec_pack_ceil_dead_time(dts_ticks),
{
    if dts_ticks <= 127 {
        dts_ticks as u8
    } else if dts_ticks <= 254 {
        (0x80 + ((dts_ticks + 1) / 2 - 64)) as u8
    } else if dts_ticks <= 504 {
        (0xC0 + ((dts_ticks + 7) / 8 - 32)) as u8
    } else if dts_ticks <= 1008 {
        (0xE0 + ((dts_ticks + 15) / 16 - 32)) as u8
    } else {
        0xFF
    }
}

/// The dead time, in ticks, that a value of the dead time field stands for.
pub open spec fn spec_unpack_dead_time(bits: u8) -> u16 {
    if bits < 0x80 {
        bits as u16
    } else if bits < 0xC0 {
        ((bits - 0x80 + 64) * 2) as u16
    } else if bits < 0xE0 {
        ((bits - 0xC0 + 32) * 8) as u16
    } else {
        ((bits - 0xE0 + 32) * 16) as u16
    }
}

#[verifier::when_used_as_spec(spec_unpack_dead_time)]
pub fn unpack_dead_time(bits: u8) -> (ticks: u16)
    ensures
        ticks == spec_unpack_dead_time(bits),
{
    if bits < 0x80 {
        bits as u16
    } else if bits < 0xC0 {
        ((bits - 0x80) as u16 + 64) * 2
    } else if bits < 0xE0 {
        ((bits - 0xC0) as u16 + 32) * 8
    } else {
        ((bits - 0xE0) as u16 + 32) * 16
    }
}

/// Packing rounds up, and by less than one step of the range: a dead time of
/// up to 1008 ticks comes back from the field as the smallest multiple of 1,
/// 2, 8 or 16 ticks that is not below it.
pub proof fn lemma_pack_rounds_up(ticks: u16)
    requires
        ticks <= 1008,
    ensures
        spec_unpack_dead_time(spec_pack_ceil_dead_time(ticks)) >= ticks,
        ticks <= 127 ==> spec_unpack_dead_time(spec_pack_ceil_dead_time(ticks)) == ticks,
        128 <= ticks <= 254 ==> spec_unpack_dead_time(spec_pack_ceil_dead_time(ticks)) < ticks
            + 2,
        255 <= ticks <= 504 ==> spec_unpack_dead_time(spec_pack_ceil_dead_time(ticks)) < ticks
            + 8,
        505 <= ticks ==> spec_unpack_dead_time(spec_pack_ceil_dead_time(ticks)) < ticks + 16,
{
}

/// The registers with the dead time field, bits 0 to 7 of BRK, written.
pub open spec fn with_dead_time(regs: Registers, bits: u8) -> Registers {
    regs.set(Register::Brk, crate::bits::spec_with_field(regs.brk, 0, 0xFF, bits as u32))
}

impl<TMR: WithPwm, PINS: Pins<TMR>> PwmHz<TMR, PINS> {
    /// What the registers of the timer hold.
    pub open spec fn regs(&self) -> Registers {
        self.timer.tmr.regs()
    }

    /// Stops the counter and gives the timer back: CTRL1 is reset.
    pub fn release(self) -> (t: Timer<TMR>)
        ensures
            t.clk == self.timer.clk,
            t.regs() == self.regs().set(Register::Ctrl1, 0),
    {
        let mut timer = self.timer;
        timer.tmr.ctrl1_reset();
        timer
    }

    /// The channels that the pins stand for, on their own.
    pub fn split(self) -> (c: PINS::Channels)
        ensures
            c == PINS::channels(),
    {
        PINS::split()
    }

    /// Enables the output of a channel in use.
    pub fn enable(&mut self, channel: Channel)
        requires
            PINS::spec_used(channel),
        ensures
            final(self).timer.clk == old(self).timer.clk,
            final(self).regs() == with_channel_bit(
                old(self).regs(),
                channel.spec_index(),
                channel.spec_index() * 4,
                true,
            ),
    {
        let c: u8 = PINS::check_used(channel).index();
        self.timer.tmr.enable_channel(c, true)
    }

    /// Disables the output of a channel in use.
    pub fn disable(&mut self, channel: Channel)
        requires
            PINS::spec_used(channel),
        ensures
            final(self).timer.clk == old(self).timer.clk,
            final(self).regs() == with_channel_bit(
                old(self).regs(),
                channel.spec_index(),
                channel.spec_index() * 4,
                false,
            ),
    {
        let c: u8 = PINS::check_used(channel).index();
        self.timer.tmr.enable_channel(c, false)
    }

    /// Sets the polarity of a channel in use.
    pub fn set_polarity(&mut self, channel: Channel, p: Polarity)
        requires
            PINS::spec_used(channel),
        ensures
            final(self).timer.clk == old(self).timer.clk,
            final(self).regs() == with_channel_bit(
                old(self).regs(),
                channel.spec_index(),
                channel.spec_index() * 4 + 1,
                p == Polarity::ActiveLow,
            ),
    {
        let c: u8 = PINS::check_used(channel).index();
        self.timer.tmr.set_channel_polarity(c, p);
    }

    /// The duty of a channel in use: the low 16 bits of its compare value.
    pub fn get_duty(&self, channel: Channel) -> (duty: u16)
        requires
            PINS::spec_used(channel),
        ensures
            duty == cc_value(self.regs(), channel.spec_index()) & 0xFFFF,
    {
        let c: u8 = PINS::check_used(channel).index();
        low_half(self.timer.tmr.read_cc_value(c))
    }

    /// Sets the duty of a channel in use.
    pub fn set_duty(&mut self, channel: Channel, duty: u16)
        requires
            PINS::spec_used(channel),
        ensures
            final(self).timer.clk == old(self).timer.clk,
            final(self).regs() == with_cc_value(
                old(self).regs(),
                channel.spec_index(),
                duty as u32,
            ),
    {
        let c: u8 = PINS::check_used(channel).index();
        self.timer.tmr.set_cc_value(c, duty as u32)
    }

    /// The duty of a full period; zero stands for 65536.
    pub fn get_max_duty(&self) -> (duty: u16)
        ensures
            duty == max_duty(self.regs()),
    {
        read_max_duty(&self.timer.tmr)
    }

    /// The PWM frequency, in hertz: the timer's clock over divider times
    /// period.
    pub fn get_period(&self) -> (hz: u32)
        requires
            ((self.regs().div & 0xFFFF) + 1) * (self.regs().pr + 1) <= u32::MAX,
        ensures
            hz as int == self.timer.clk as int / (((self.regs().div & 0xFFFF) + 1) * (
            self.regs().pr + 1)),
    {
        let psc: u32 = self.timer.tmr.read_prescaler() as u32;
        let arr: u32 = self.timer.tmr.read_auto_reload();
        assert(((psc + 1) * (arr + 1)) > 0) by (nonlinear_arith)
            requires
                psc >= 0,
                arr >= 0,
        ;
        assert(arr + 1 <= (psc + 1) * (arr + 1)) by (nonlinear_arith)
            requires
                psc >= 0,
                arr >= 0,
        ;
        self.timer.clk / ((psc + 1) * (arr + 1))
    }

    /// Sets the PWM frequency, in hertz, and starts the period anew.
    pub fn set_period(&mut self, period: u32)
        requires
            0 < period <= old(self).timer.clk,
            spec_arr(period, old(self).timer.clk) > 0,
        ensures
            final(self).timer.clk == old(self).timer.clk,
            final(self).regs() == old(self).regs().set(
                Register::Div,
                spec_presc(period, old(self).timer.clk) as u32,
            ).set(Register::Pr, spec_arr(period, old(self).timer.clk) as u32).set(
                Register::Cval,
                0,
            ),
    {
        let (psc, arr) = compute_arr_presc(period, self.timer.clk);
        self.timer.tmr.set_prescaler(psc);
        self.timer.tmr.set_auto_reload_unchecked(arr);
        self.timer.tmr.cnt_reset();
    }

    /// Sets the polarity bit of a channel whose complementary output is in
    /// use: bit `4 * channel + 1` of CCTRL.
    pub fn set_complementary_polarity(&mut self, channel: Channel, p: Polarity)
        requires
            PINS::spec_complementary_used(channel),
        ensures
            final(self).timer.clk == old(self).timer.clk,
            final(self).regs() == with_channel_bit(
                old(self).regs(),
                channel.spec_index(),
                channel.spec_index() * 4 + 1,
                p == Polarity::ActiveLow,
            ),
    {
        let c: u8 = PINS::check_complementary_used(channel).index();
        self.timer.tmr.set_channel_polarity(c, p);
    }
}

impl<TMR: WithPwm + Advanced, PINS: Pins<TMR>> PwmHz<TMR, PINS> {
    /// Enables the complementary output of a channel, where it is in use.
    pub fn enable_complementary(&mut self, channel: Channel)
        requires
            PINS::spec_complementary_used(channel),
        ensures
            final(self).timer.clk == old(self).timer.clk,
            final(self).regs() == with_channel_bit(
                old(self).regs(),
                channel.spec_index(),
                channel.spec_index() * 4 + 2,
                true,
            ),
    {
        let c: u8 = PINS::check_complementary_used(channel).index();
        self.timer.tmr.enable_nchannel(c, true)
    }

    /// Disables the complementary output of a channel, where it is in use.
    pub fn disable_complementary(&mut self, channel: Channel)
        requires
            PINS::spec_complementary_used(channel),
        ensures
            final(self).timer.clk == old(self).timer.clk,
            final(self).regs() == with_channel_bit(
                old(self).regs(),
                channel.spec_index(),
                channel.spec_index() * 4 + 2,
                false,
            ),
    {
        let c: u8 = PINS::check_complementary_used(channel).index();
        self.timer.tmr.enable_nchannel(c, false)
    }

    /// Sets the dead time to the smallest one the field can express that is
    /// not below `dts_ticks`.
    pub fn set_dead_time(&mut self, dts_ticks: u16)
        ensures
            final(self).timer.clk == old(self).timer.clk,
            final(self).regs() == with_dead_time(
                old(self).regs(),
                spec_pack_ceil_dead_time(dts_ticks),
            ),
    {
        let bits: u8 = pack_ceil_dead_time(dts_ticks);
        self.timer.tmr.set_dtc_value(bits);
    }

    /// Writes the dead time field.
    pub fn set_dead_time_bits(&mut self, bits: u8)
        ensures
            final(self).timer.clk == old(self).timer.clk,
            final(self).regs() == with_dead_time(old(self).regs(), bits),
    {
        self.timer.tmr.set_dtc_value(bits);
    }

    /// The dead time, in ticks.
    pub fn get_dead_time(&self) -> (ticks: u16)
        ensures
            ticks == spec_unpack_dead_time((self.regs().brk & 0xFF) as u8),
    {
        unpack_dead_time(self.timer.tmr.read_dtc_value())
    }

    /// The dead time field.
    pub fn get_dead_time_bits(&self) -> (bits: u8)
        ensures
            bits == self.regs().brk & 0xFF,
    {
        self.timer.tmr.read_dtc_value()
    }

    /// Sets the idle state of the output of a channel in use.
    pub fn set_idle_state(&mut self, channel: Channel, s: IdleState)
        requires
            PINS::spec_used(channel),
        ensures
            final(self).timer.clk == old(self).timer.clk,
            final(self).regs() == with_idle_bit(
                old(self).regs(),
                channel.spec_index(),
                channel.spec_index() * 2 + 8,
                s == IdleState::Raised,
            ),
    {
        let c: u8 = PINS::check_used(channel).index();
        self.timer.tmr.idle_state(c, false, s);
    }

    /// Sets the idle state of the complementary output of a channel, where
    /// it is in use.
    pub fn set_complementary_idle_state(&mut self, channel: Channel, s: IdleState)
        requires
            PINS::spec_complementary_used(channel),
        ensures
            final(self).timer.clk == old(self).timer.clk,
            final(self).regs() == with_idle_bit(
                old(self).regs(),
                channel.spec_index(),
                channel.spec_index() * 2 + 9,
                s == IdleState::Raised,
            ),
    {
        let c: u8 = PINS::check_complementary_used(channel).index();
        self.timer.tmr.idle_state(c, true, s);
    }
}

} // verus!
