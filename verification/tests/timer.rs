use at32f4xx_hal::nb;
use at32f4xx_hal::timer::{
    compute_arr_presc, Advanced, Channel, Counter, Error, Event, FTimer, General, IdleState,
    Instance, MasterTimer, Ocm, Polarity, Register, Registers, Timer, WithPwm, WithPwmCommon,
};

fn narrow() -> Registers {
    Registers::new(false, 4, false)
}

fn wide() -> Registers {
    Registers::new(true, 4, false)
}

#[test]
fn events_are_one_bit_each() {
    assert_eq!(Event::update().bits(), 1);
    assert_eq!(Event::c1().bits(), 2);
    assert_eq!(Event::c2().bits(), 4);
    assert_eq!(Event::c3().bits(), 8);
    assert_eq!(Event::c4().bits(), 16);
    assert_eq!(Event::from_bits_truncate(0xFFFF_FFE3).bits(), 0x03);
    let both = Event::update().union(Event::c3());
    assert_eq!(both.bits(), 9);
    assert!(both.contains(Event::c3()));
    assert!(!both.contains(Event::c1()));
    assert!(!Event::update().contains(both));
}

#[test]
fn registers_are_read_where_they_were_written() {
    let all = [
        Register::Ctrl1,
        Register::Ctrl2,
        Register::Stctrl,
        Register::Iden,
        Register::Ists,
        Register::Swevt,
        Register::Cm1,
        Register::Cm2,
        Register::Cctrl,
        Register::Cval,
        Register::Div,
        Register::Pr,
        Register::C1dt,
        Register::C2dt,
        Register::C3dt,
        Register::C4dt,
        Register::Brk,
    ];
    let mut regs = narrow();
    for (i, r) in all.iter().enumerate() {
        regs.write(*r, 100 + i as u32);
    }
    for (i, r) in all.iter().enumerate() {
        assert_eq!(regs.read(*r), 100 + i as u32);
    }
    assert!(!regs.wide());
    assert_eq!(regs.ch_number(), 4);
    assert!(!regs.is_advanced());
}

#[test]
fn auto_reload_has_to_be_positive_and_fit_the_counter() {
    let mut regs = narrow();
    assert_eq!(regs.max_auto_reload(), 0xFFFF);
    assert_eq!(regs.set_auto_reload(0), Err(Error::WrongAutoReload));
    assert_eq!(regs.set_auto_reload(0x1_0000), Err(Error::WrongAutoReload));
    assert_eq!(regs.read_auto_reload(), 0);
    assert_eq!(regs.set_auto_reload(0xFFFF), Ok(()));
    assert_eq!(regs.read_auto_reload(), 0xFFFF);
    assert_eq!(regs.set_auto_reload(1), Ok(()));
    assert_eq!(regs.pr, 1);
    let mut regs = wide();
    assert_eq!(regs.max_auto_reload(), 0xFFFF_FFFF);
    assert_eq!(regs.set_auto_reload(0x1_0000), Ok(()));
    assert_eq!(regs.set_auto_reload(0xFFFF_FFFF), Ok(()));
    assert_eq!(regs.set_auto_reload(0), Err(Error::WrongAutoReload));
    assert_eq!(regs.pr, 0xFFFF_FFFF);
}

#[test]
fn counter_is_enabled_by_bit_0_of_ctrl1() {
    let mut regs = narrow();
    regs.ctrl1 = 0x80;
    assert!(!regs.is_counter_enabled());
    regs.enable_counter();
    assert_eq!(regs.ctrl1, 0x81);
    assert!(regs.is_counter_enabled());
    regs.disable_counter();
    assert_eq!(regs.ctrl1, 0x80);
    regs.enable_preload(false);
    assert_eq!(regs.ctrl1, 0x00);
    regs.enable_preload(true);
    assert_eq!(regs.ctrl1, 0x80);
}

#[test]
fn counter_and_divider_are_written_whole() {
    let mut regs = narrow();
    regs.write_count(1234);
    assert_eq!(regs.read_count(), 1234);
    regs.reset_counter();
    assert_eq!(regs.cval, 0);
    regs.cval = 7;
    regs.cnt_reset();
    assert_eq!(regs.cval, 0);
    regs.set_prescaler(0xABCD);
    assert_eq!(regs.div, 0xABCD);
    regs.div = 0x1_2345;
    assert_eq!(regs.read_prescaler(), 0x2345);
    regs.ctrl1 = 0x3FF;
    regs.ctrl1_reset();
    assert_eq!(regs.ctrl1, 0);
}

#[test]
fn trigger_update_raises_the_software_overflow() {
    let mut regs = narrow();
    regs.ctrl1 = 0x85;
    regs.trigger_update();
    assert_eq!(regs.swevt, 1);
    assert_eq!(regs.ctrl1, 0x81);
}

#[test]
fn interrupt_flags_are_cleared_by_writing_zero_to_them() {
    let mut regs = narrow();
    regs.ists = 0x1F;
    assert_eq!(regs.get_interrupt_flag().bits(), 0x1F);
    regs.clear_interrupt_flag(Event::update());
    assert_eq!(regs.ists, 0xFFFE);
    regs.clear_interrupt_flag(Event::c2().union(Event::c4()));
    assert_eq!(regs.ists, 0xFFEB);
    regs.ists = 0x1E0;
    assert_eq!(regs.get_interrupt_flag().bits(), 0);
}

#[test]
fn interrupts_are_enabled_bit_by_bit() {
    let mut regs = narrow();
    regs.iden = 0x100;
    regs.listen_interrupt(Event::c1(), true);
    regs.listen_interrupt(Event::update(), true);
    assert_eq!(regs.iden, 0x103);
    regs.listen_interrupt(Event::c1(), false);
    assert_eq!(regs.iden, 0x101);
}

#[test]
fn one_pulse_overwrites_ctrl1_and_free_run_keeps_it() {
    let mut regs = narrow();
    regs.ctrl1 = 0x3F0;
    regs.start_one_pulse();
    assert_eq!(regs.ctrl1, 0x9);
    regs.ctrl1 = 0x80;
    regs.start_free(true);
    assert_eq!(regs.ctrl1, 0x81);
    regs.start_free(false);
    assert_eq!(regs.ctrl1, 0x89);
    regs.start_free(true);
    assert_eq!(regs.ctrl1, 0x81);
}

#[test]
fn compare_values_of_missing_channels_read_zero() {
    let mut regs = Registers::new(false, 2, false);
    regs.set_cc_value(0, 11);
    regs.set_cc_value(1, 22);
    regs.set_cc_value(2, 33);
    regs.set_cc_value(3, 44);
    assert_eq!((regs.c1dt, regs.c2dt, regs.c3dt, regs.c4dt), (11, 22, 0, 0));
    regs.c3dt = 99;
    assert_eq!(regs.read_cc_value(0), 11);
    assert_eq!(regs.read_cc_value(1), 22);
    assert_eq!(regs.read_cc_value(2), 0);
    assert_eq!(regs.read_cc_value(200), 0);
    assert!(regs.has_channel(1));
    assert!(!regs.has_channel(2));
    let mut many = Registers::new(false, 9, false);
    assert!(!many.has_channel(4));
    many.enable_channel(4, true);
    assert_eq!(many.cctrl, 0);
}

#[test]
fn channel_bits_sit_four_apart_in_cctrl() {
    let mut regs = narrow();
    regs.enable_channel(0, true);
    regs.enable_channel(2, true);
    assert_eq!(regs.cctrl, 0x101);
    regs.set_channel_polarity(1, Polarity::ActiveLow);
    assert_eq!(regs.cctrl, 0x121);
    regs.set_nchannel_polarity(3, Polarity::ActiveLow);
    assert_eq!(regs.cctrl, 0x8121);
    regs.enable_nchannel(0, true);
    assert_eq!(regs.cctrl, 0x8125);
    regs.enable_channel(0, false);
    regs.set_channel_polarity(1, Polarity::ActiveHigh);
    regs.set_nchannel_polarity(3, Polarity::ActiveHigh);
    regs.enable_nchannel(0, false);
    assert_eq!(regs.cctrl, 0x100);
}

#[test]
fn dead_time_and_output_enable_share_brk() {
    let mut regs = Registers::new(false, 4, true);
    regs.brk = 0x1234;
    regs.set_dtc_value(0xAB);
    assert_eq!(regs.brk, 0x12AB);
    assert_eq!(regs.read_dtc_value(), 0xAB);
    regs.enable_output();
    assert_eq!(regs.brk, 0x92AB);
    regs.disable_output();
    assert_eq!(regs.brk, 0x12AB);
}

#[test]
fn idle_states_sit_two_apart_in_ctrl2() {
    let mut regs = Registers::new(false, 4, true);
    regs.idle_state(0, false, IdleState::Raised);
    assert_eq!(regs.ctrl2, 0x100);
    regs.idle_state(0, true, IdleState::Raised);
    assert_eq!(regs.ctrl2, 0x300);
    regs.idle_state(2, false, IdleState::Raised);
    assert_eq!(regs.ctrl2, 0x1300);
    regs.idle_state(0, false, IdleState::Reset);
    assert_eq!(regs.ctrl2, 0x1200);
}

#[test]
fn output_mode_goes_to_the_byte_of_the_channel() {
    let mut regs = narrow();
    regs.preload_output_channel_in_mode(Channel::C1, Ocm::PwmMode1);
    assert_eq!(regs.cm1, 0x0068);
    regs.preload_output_channel_in_mode(Channel::C2, Ocm::PwmMode2);
    assert_eq!(regs.cm1, 0x7868);
    regs.preload_output_channel_in_mode(Channel::C3, Ocm::Toggle);
    regs.preload_output_channel_in_mode(Channel::C4, Ocm::Frozen);
    assert_eq!(regs.cm2, 0x0838);
    regs.preload_output_channel_in_mode(Channel::C1, Ocm::ForceActive);
    assert_eq!(regs.cm1, 0x7858);
    let mut two = Registers::new(false, 2, false);
    two.preload_output_channel_in_mode(Channel::C3, Ocm::PwmMode1);
    assert_eq!(two.cm2, 0);
}

#[test]
fn output_mode_codes() {
    let modes = [
        Ocm::Frozen,
        Ocm::ActiveOnMatch,
        Ocm::InactiveOnMatch,
        Ocm::Toggle,
        Ocm::ForceInactive,
        Ocm::ForceActive,
        Ocm::PwmMode1,
        Ocm::PwmMode2,
    ];
    for (i, m) in modes.iter().enumerate() {
        assert_eq!(m.code(), i as u32);
    }
    assert_eq!(Channel::C1.index(), 0);
    assert_eq!(Channel::C4.index(), 3);
}

#[test]
fn start_pwm_lets_outputs_follow_on_advanced_timers_only() {
    let mut plain = narrow();
    plain.start_pwm();
    assert_eq!((plain.ctrl1, plain.brk), (1, 0));
    let mut advanced = Registers::new(false, 4, true);
    advanced.start_pwm();
    assert_eq!((advanced.ctrl1, advanced.brk), (1, 0x4000));
}

#[test]
fn master_mode_is_bits_4_to_6_of_ctrl2() {
    let mut regs = narrow();
    regs.ctrl2 = 0xFFFF;
    regs.master_mode(2);
    assert_eq!(regs.ctrl2, 0xFFAF);
    regs.master_mode(0xFF);
    assert_eq!(regs.ctrl2, 0xFFFF);
}

#[test]
fn period_is_split_into_divider_and_reload() {
    assert_eq!(compute_arr_presc(1000, 72_000_000), (1, 35_999));
    assert_eq!(compute_arr_presc(1, 65_536), (0, 65_535));
    assert_eq!(compute_arr_presc(1, 65_537), (1, 32_767));
    assert_eq!(compute_arr_presc(20_000, 36_000_000), (0, 1799));
    assert_eq!(compute_arr_presc(7, 7), (0, 0));
    assert_eq!(compute_arr_presc(1, u32::MAX), (65_535, 65_534));
}

#[test]
fn timers_are_reset_when_they_are_taken_over() {
    let mut regs = Registers::new(true, 2, true);
    regs.ctrl1 = 0x81;
    regs.pr = 77;
    regs.brk = 0x8000;
    let timer = Timer::new(regs, 1_000);
    assert_eq!(timer.tmr, Registers::new(true, 2, true));
    let timer: FTimer<Registers, 1_000> = FTimer::new(regs, 8_000);
    let mut expected = Registers::new(true, 2, true);
    expected.div = 7;
    assert_eq!(timer.tmr, expected);
}

#[test]
fn timer_keeps_its_clock_and_listens() {
    let mut timer = Timer::new(narrow(), 36_000_000);
    assert_eq!(timer.clk, 36_000_000);
    timer.configure(72_000_000);
    assert_eq!(timer.clk, 72_000_000);
    timer.listen(Event::update());
    assert_eq!(timer.tmr.iden, 1);
    timer.unlisten(Event::update());
    assert_eq!(timer.tmr.iden, 0);
    timer.clear_interrupt(Event::c1());
    assert_eq!(timer.tmr.ists, 0xFFFD);
    timer.set_master_mode(1);
    assert_eq!(timer.tmr.ctrl2, 0x10);
    let counter = timer.counter_hz();
    let timer = counter.release();
    assert_eq!(timer.release().ists, 0xFFFD);
}

#[test]
fn ftimer_sets_the_divider_for_its_frequency() {
    let timer: FTimer<Registers, 1_000_000> = FTimer::new(narrow(), 72_000_000);
    assert_eq!(timer.tmr.div, 71);
    let mut timer: FTimer<Registers, 1_000> = FTimer::new(narrow(), 65_536_000);
    assert_eq!(timer.tmr.div, 65_535);
    timer.configure(1_000);
    assert_eq!(timer.tmr.div, 0);
    timer.listen(Event::c2());
    assert_eq!(timer.tmr.iden, 4);
    timer.unlisten(Event::c2());
    assert_eq!(timer.tmr.iden, 0);
    timer.tmr.ists = 0x11;
    assert_eq!(timer.get_interrupt().bits(), 0x11);
    timer.clear_interrupt(Event::update());
    assert_eq!(timer.tmr.ists, 0xFFFE);
    timer.set_master_mode(7);
    assert_eq!(timer.release().ctrl2, 0x70);
}

fn counter() -> Counter<Registers, 1_000_000> {
    FTimer::new(narrow(), 8_000_000).counter()
}

#[test]
fn counter_start_loads_the_period_and_runs() {
    let mut c = counter();
    c.0.tmr.cval = 55;
    c.0.tmr.ists = 0x1F;
    c.0.tmr.ctrl1 = 0x80;
    assert_eq!(c.start(1000), Ok(()));
    let regs = c.0.tmr;
    assert_eq!(regs.pr, 999);
    assert_eq!(regs.cval, 0);
    assert_eq!(regs.ists, 0xFFFE);
    assert_eq!(regs.swevt, 1);
    assert_eq!(regs.ctrl1, 0x81);
    assert_eq!(regs.div, 7);
    assert_eq!(c.now(), 0);
}

#[test]
fn counter_refuses_periods_it_cannot_run() {
    let mut c = counter();
    c.0.tmr.ctrl1 = 1;
    assert_eq!(c.start(1), Err(Error::WrongAutoReload));
    assert_eq!(c.0.tmr.ctrl1, 0);
    assert_eq!(c.0.tmr.pr, 0);
    assert_eq!(c.start(0x1_0001), Err(Error::WrongAutoReload));
    assert_eq!(c.start(0x1_0000), Ok(()));
    assert_eq!(c.0.tmr.pr, 0xFFFF);
    assert_eq!(c.start(2), Ok(()));
    assert_eq!(c.0.tmr.pr, 1);
}

#[test]
fn counter_wait_blocks_until_overflow_and_clears_the_flag() {
    let mut c = counter();
    assert_eq!(c.start(10), Ok(()));
    c.0.tmr.ists = 0x1E;
    assert_eq!(c.wait(), Err(nb::Error::WouldBlock));
    assert_eq!(c.0.tmr.ists, 0x1E);
    c.0.tmr.ists = 0x1F;
    assert_eq!(c.wait(), Ok(()));
    assert_eq!(c.0.tmr.ists, 0xFFFE);
}

#[test]
fn counter_cancel_stops_a_running_counter_only() {
    let mut c = counter();
    assert_eq!(c.cancel(), Err(Error::Disabled));
    assert_eq!(c.start(10), Ok(()));
    assert_eq!(c.cancel(), Ok(()));
    assert_eq!(c.0.tmr.ctrl1, 0);
    assert_eq!(c.cancel(), Err(Error::Disabled));
    assert_eq!(c.start(10), Ok(()));
    let timer = c.release();
    assert_eq!(timer.tmr.ctrl1, 0);
}

#[test]
fn counter_hz_waits_and_cancels_alike() {
    let mut c = Timer::new(narrow(), 1_000).counter_hz();
    assert_eq!(c.wait(), Err(nb::Error::WouldBlock));
    c.0.tmr.ists = 1;
    assert_eq!(c.wait(), Ok(()));
    assert_eq!(c.0.tmr.ists, 0xFFFE);
    assert_eq!(c.cancel(), Err(Error::Disabled));
    c.0.tmr.ctrl1 = 0x81;
    assert_eq!(c.cancel(), Ok(()));
    assert_eq!(c.0.tmr.ctrl1, 0x80);
}

#[test]
fn delay_runs_in_pieces_the_counter_can_hold() {
    let mut d = FTimer::<Registers, 1_000>::new(narrow(), 1_000).delay();
    assert_eq!(d.max_delay(), 0xFFFF);
    d.delay(200_000);
    assert_eq!(d.timer.tmr.pr, 0xFFFF);
    assert_eq!(d.timer.tmr.ctrl1, 9);
    assert_eq!(d.timer.tmr.swevt, 1);
    assert_eq!(d.remaining, 199_999 - 65_535);
    // Still counting: nothing happens.
    assert!(!d.wait());
    assert_eq!(d.remaining, 199_999 - 65_535);
    // The piece is over: the next one starts.
    d.timer.tmr.ctrl1 = 8;
    assert!(!d.wait());
    assert_eq!(d.remaining, 199_999 - 2 * 65_535);
    d.timer.tmr.ctrl1 = 8;
    assert!(!d.wait());
    assert_eq!(d.remaining, 199_999 - 3 * 65_535);
    d.timer.tmr.ctrl1 = 8;
    assert!(!d.wait());
    assert_eq!(d.timer.tmr.pr, 199_999 - 3 * 65_535);
    assert_eq!(d.remaining, 0);
    assert!(!d.wait());
    d.timer.tmr.ctrl1 = 8;
    assert!(d.wait());
    let timer = d.release();
    assert_eq!(timer.tmr.ctrl1, 0);
}

#[test]
fn short_delays_start_nothing() {
    let mut d = FTimer::<Registers, 1_000>::new(wide(), 1_000).delay();
    d.delay(0);
    assert_eq!((d.timer.tmr.ctrl1, d.remaining), (0, 0));
    assert!(d.wait());
    d.delay(1);
    assert_eq!((d.timer.tmr.ctrl1, d.remaining), (0, 0));
    d.delay(2);
    assert_eq!((d.timer.tmr.ctrl1, d.timer.tmr.pr, d.remaining), (9, 1, 0));
    d.delay(u32::MAX);
    assert_eq!((d.timer.tmr.pr, d.remaining), (u32::MAX - 1, 0));
    assert_eq!(d.max_delay(), u32::MAX);
}
