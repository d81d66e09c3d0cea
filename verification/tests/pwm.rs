use at32f4xx_hal::gpio::PushPull;
use at32f4xx_hal::timer::pwm::{low_half, read_max_duty, Channel1, Channel2, Channel3};
use at32f4xx_hal::timer::{
    pack_ceil_dead_time, unpack_dead_time, Channel, ChannelBuilder, FTimer, IdleState, Pins,
    Polarity, Pwm, PwmChannel, PwmHz, Registers, Split, Timer,
};

type One = Channel1<Registers, false, PushPull>;
type Two = Channel2<Registers, true, PushPull>;
type Three = Channel3<Registers, false, PushPull>;

#[test]
fn dead_time_is_packed_as_the_register_field_counts_it() {
    assert_eq!(pack_ceil_dead_time(0), 0);
    assert_eq!(pack_ceil_dead_time(127), 127);
    assert_eq!(pack_ceil_dead_time(128), 0x80);
    assert_eq!(pack_ceil_dead_time(129), 0x81);
    assert_eq!(pack_ceil_dead_time(254), 0xBF);
    assert_eq!(pack_ceil_dead_time(255), 0xC0);
    assert_eq!(pack_ceil_dead_time(257), 0xC1);
    assert_eq!(pack_ceil_dead_time(504), 0xDF);
    assert_eq!(pack_ceil_dead_time(505), 0xE0);
    assert_eq!(pack_ceil_dead_time(1008), 0xFF);
    assert_eq!(pack_ceil_dead_time(1009), 0xFF);
    assert_eq!(pack_ceil_dead_time(u16::MAX), 0xFF);
}

#[test]
fn dead_time_packing_agrees_with_its_bitwise_form() {
    for t in 0..=u16::MAX {
        let expected = match t {
            0..=127 => t as u8,
            128..=254 => ((((t + 1) >> 1) - 64) as u8) | 0b_1000_0000,
            255..=504 => ((((t + 7) >> 3) - 32) as u8) | 0b_1100_0000,
            505..=1008 => ((((t + 15) >> 4) - 32) as u8) | 0b_1110_0000,
            1009.. => 0xff,
        };
        assert_eq!(pack_ceil_dead_time(t), expected);
    }
    for bits in 0..=u8::MAX {
        let expected = if bits & 0b_1000_0000 == 0 {
            bits as u16
        } else if bits & 0b_0100_0000 == 0 {
            (((bits & !0b_1000_0000) as u16) + 64) * 2
        } else if bits & 0b_0010_0000 == 0 {
            (((bits & !0b_1100_0000) as u16) + 32) * 8
        } else {
            (((bits & !0b_1110_0000) as u16) + 32) * 16
        };
        assert_eq!(unpack_dead_time(bits), expected);
    }
}

#[test]
fn dead_time_is_unpacked_in_ticks() {
    assert_eq!(unpack_dead_time(0), 0);
    assert_eq!(unpack_dead_time(0x7F), 127);
    assert_eq!(unpack_dead_time(0x80), 128);
    assert_eq!(unpack_dead_time(0xBF), 254);
    assert_eq!(unpack_dead_time(0xC0), 256);
    assert_eq!(unpack_dead_time(0xDF), 504);
    assert_eq!(unpack_dead_time(0xE0), 512);
    assert_eq!(unpack_dead_time(0xFF), 1008);
}

#[test]
fn packing_rounds_up_by_less_than_a_step() {
    for t in 0..=1008u16 {
        let back = unpack_dead_time(pack_ceil_dead_time(t));
        let step = match t {
            0..=127 => 1,
            128..=254 => 2,
            255..=504 => 8,
            _ => 16,
        };
        assert!(back >= t && back < t + step);
    }
}

#[test]
fn pins_say_which_channels_are_in_use() {
    assert!(<One as Pins<Registers>>::used(Channel::C1));
    assert!(!<One as Pins<Registers>>::used(Channel::C2));
    assert!(!<One as Pins<Registers>>::complementary_used(Channel::C1));
    assert!(<Two as Pins<Registers>>::complementary_used(Channel::C2));
    assert!(!<Two as Pins<Registers>>::complementary_used(Channel::C1));
    assert!(<(One, Two) as Pins<Registers>>::used(Channel::C2));
    assert!(!<(One, Two) as Pins<Registers>>::used(Channel::C3));
    assert!(<(One, Two, Three) as Pins<Registers>>::used(Channel::C3));
    assert!(<(One, Two, Three) as Pins<Registers>>::complementary_used(Channel::C2));
    assert!(!<(One, Two, Three, Three) as Pins<Registers>>::used(Channel::C4));
    assert_eq!(<One as Pins<Registers>>::check_used(Channel::C1), Channel::C1);
    assert_eq!(<Two as Pins<Registers>>::check_complementary_used(Channel::C2), Channel::C2);
}

fn pins() -> (One, Two) {
    (ChannelBuilder::new("PA8").with("PA8 again"), two())
}

fn two() -> Channel2<Registers, true, PushPull> {
    ChannelBuilder::new("PA9").with_complementary("PB0")
}

fn pwm() -> Pwm<Registers, (One, Two), 1_000_000> {
    let timer: FTimer<Registers, 1_000_000> =
        FTimer::new(Registers::new(false, 4, true), 8_000_000);
    timer.pwm((ChannelBuilder::new("PA8"), two()), 1000)
}

#[test]
fn pwm_sets_the_used_channels_up_and_starts() {
    let _ = pins();
    let pwm = pwm();
    let regs = pwm.timer.tmr;
    // Channels 1 and 2 in PWM mode 1 with buffered compare values.
    assert_eq!(regs.cm1, 0x6868);
    assert_eq!(regs.cm2, 0);
    assert_eq!(regs.pr, 999);
    assert_eq!(regs.div, 7);
    assert_eq!(regs.swevt, 1);
    assert_eq!(regs.ctrl1, 0x81);
    assert_eq!(regs.brk, 0x4000);
    assert_eq!(pwm.get_period(), 1000);
    assert_eq!(pwm.get_max_duty(), 1000);
}

#[test]
fn pwm_channels_are_driven_through_cctrl_and_the_compare_registers() {
    let mut pwm = pwm();
    pwm.enable(Channel::C1);
    pwm.enable(Channel::C2);
    assert_eq!(pwm.timer.tmr.cctrl, 0x11);
    pwm.disable(Channel::C1);
    assert_eq!(pwm.timer.tmr.cctrl, 0x10);
    pwm.set_polarity(Channel::C1, Polarity::ActiveLow);
    assert_eq!(pwm.timer.tmr.cctrl, 0x12);
    pwm.set_complementary_polarity(Channel::C2, Polarity::ActiveLow);
    assert_eq!(pwm.timer.tmr.cctrl, 0x32);
    pwm.set_duty(Channel::C2, 500);
    assert_eq!(pwm.timer.tmr.c2dt, 500);
    assert_eq!(pwm.get_duty(Channel::C2), 500);
    assert_eq!(pwm.get_duty(Channel::C1), 0);
    pwm.set_duty_time(Channel::C1, 0xFFFF);
    assert_eq!(pwm.get_duty_time(Channel::C1), 0xFFFF);
    pwm.set_period(500);
    assert_eq!(pwm.timer.tmr.pr, 499);
    assert_eq!(pwm.timer.tmr.cval, 0);
    let timer = pwm.release();
    assert_eq!(timer.tmr.ctrl1, 0);
}

#[test]
fn max_duty_wraps_to_zero_for_a_full_counter() {
    let mut regs = Registers::new(false, 4, false);
    regs.pr = 0xFFFF;
    assert_eq!(read_max_duty(&regs), 0);
    regs.pr = 0xFFFE;
    assert_eq!(read_max_duty(&regs), 0xFFFF);
    regs.pr = 0x1_0000;
    assert_eq!(read_max_duty(&regs), 1);
    assert_eq!(low_half(0xABCD_1234), 0x1234);
}

#[test]
fn split_channels_work_on_the_timer_they_are_handed() {
    let pwm = pwm();
    let mut regs = pwm.timer.tmr;
    let (mut ch1, mut ch2): (PwmChannel<Registers, 0, false>, PwmChannel<Registers, 1, true>) =
        pwm.split();
    ch1.enable(&mut regs);
    ch2.enable(&mut regs);
    ch2.enable_complementary(&mut regs);
    assert_eq!(regs.cctrl, 0x51);
    ch1.disable(&mut regs);
    ch2.disable_complementary(&mut regs);
    assert_eq!(regs.cctrl, 0x10);
    ch1.set_polarity(&mut regs, Polarity::ActiveLow);
    ch2.set_complementary_polarity(&mut regs, Polarity::ActiveLow);
    assert_eq!(regs.cctrl, 0x92);
    ch1.set_duty(&mut regs, 250);
    assert_eq!(ch1.get_duty(&regs), 250);
    assert_eq!(ch1.get_max_duty(&regs), 1000);
    ch2.set_idle_state(&mut regs, IdleState::Raised);
    assert_eq!(regs.ctrl2, 0x400);
    ch2.set_complementary_idle_state(&mut regs, IdleState::Raised);
    assert_eq!(regs.ctrl2, 0xC00);
    ch2.set_idle_state(&mut regs, IdleState::Reset);
    assert_eq!(regs.ctrl2, 0x800);
    let again: PwmChannel<Registers, 0, false> = <One as Split>::split();
    assert_eq!(again.get_duty(&regs), 250);
}

fn pwm_hz() -> PwmHz<Registers, (One, Two)> {
    let timer = Timer::new(Registers::new(false, 4, true), 72_000_000);
    timer.pwm_hz((ChannelBuilder::new(()), two()), 1000)
}

#[test]
fn pwm_hz_picks_divider_and_period() {
    let pwm = pwm_hz();
    let regs = pwm.timer.tmr;
    assert_eq!(regs.div, 1);
    assert_eq!(regs.pr, 35_999);
    assert_eq!(regs.cm1, 0x6868);
    assert_eq!(regs.ctrl1, 0x81);
    assert_eq!(pwm.get_period(), 1000);
    assert_eq!(pwm.get_max_duty(), 36_000);
}

#[test]
fn pwm_hz_channels_and_dead_time() {
    let mut pwm = pwm_hz();
    pwm.enable(Channel::C2);
    pwm.enable_complementary(Channel::C2);
    assert_eq!(pwm.timer.tmr.cctrl, 0x50);
    pwm.disable_complementary(Channel::C2);
    pwm.disable(Channel::C2);
    assert_eq!(pwm.timer.tmr.cctrl, 0);
    pwm.set_polarity(Channel::C1, Polarity::ActiveLow);
    pwm.set_complementary_polarity(Channel::C2, Polarity::ActiveLow);
    assert_eq!(pwm.timer.tmr.cctrl, 0x22);
    pwm.set_duty(Channel::C1, 18_000);
    assert_eq!(pwm.get_duty(Channel::C1), 18_000);
    pwm.set_dead_time(300);
    assert_eq!(pwm.get_dead_time_bits(), 0xC6);
    assert_eq!(pwm.get_dead_time(), 304);
    pwm.set_dead_time_bits(0x10);
    assert_eq!(pwm.get_dead_time(), 16);
    assert_eq!(pwm.timer.tmr.brk, 0x4010);
    pwm.set_idle_state(Channel::C1, IdleState::Raised);
    pwm.set_complementary_idle_state(Channel::C2, IdleState::Raised);
    assert_eq!(pwm.timer.tmr.ctrl2, 0x900);
    pwm.set_period(2000);
    assert_eq!((pwm.timer.tmr.div, pwm.timer.tmr.pr, pwm.timer.tmr.cval), (0, 35_999, 0));
    assert_eq!(pwm.get_period(), 2000);
    let timer = pwm.release();
    assert_eq!((timer.clk, timer.tmr.ctrl1), (72_000_000, 0));
}

#[test]
fn tuples_split_into_the_channels_of_their_members() {
    let (mut a, mut b, mut c): (
        PwmChannel<Registers, 0, false>,
        PwmChannel<Registers, 1, true>,
        PwmChannel<Registers, 2, false>,
    ) = <(One, Two, Three) as Split>::split();
    let mut regs = Registers::new(false, 4, true);
    a.enable(&mut regs);
    b.enable(&mut regs);
    c.enable(&mut regs);
    assert_eq!(regs.cctrl, 0x111);
    let (_, _, _, mut d): (
        PwmChannel<Registers, 0, false>,
        PwmChannel<Registers, 1, true>,
        PwmChannel<Registers, 2, false>,
        PwmChannel<Registers, 2, false>,
    ) = <(One, Two, Three, Three) as Split>::split();
    d.set_duty(&mut regs, 9);
    assert_eq!(regs.c3dt, 9);
    let hz = pwm_hz();
    let mut timer = hz.timer.tmr;
    let (mut one, _two) = hz.split();
    one.set_duty(&mut timer, 5);
    assert_eq!(timer.c1dt, 5);
}
