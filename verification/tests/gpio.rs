use at32f4xx_hal::gpio::f1;
use at32f4xx_hal::gpio::f4::with_pair;
use at32f4xx_hal::gpio::{Instance, Pin, Pull, PushPull, Register, Registers, Speed};

#[test]
fn speed_and_pull_codes() {
    assert_eq!(Speed::Low.code(), 0);
    assert_eq!(Speed::Medium.code(), 1);
    assert_eq!(Speed::High.code(), 2);
    assert_eq!(Speed::VeryHigh.code(), 3);
    assert_eq!(Pull::Floating.code(), 0);
    assert_eq!(Pull::Up.code(), 1);
    assert_eq!(Pull::Down.code(), 2);
}

#[test]
fn port_registers_are_read_where_they_were_written() {
    let all =
        [Register::Cfglr, Register::Cfghr, Register::Odt, Register::Odrvr, Register::Pull];
    let mut regs = Registers::new();
    for (i, r) in all.iter().enumerate() {
        regs.write(*r, 40 + i as u32);
    }
    for (i, r) in all.iter().enumerate() {
        assert_eq!(regs.read(*r), 40 + i as u32);
    }
}

#[test]
fn pairs_of_bits_are_replaced() {
    assert_eq!(with_pair(0xFFFF_FFFF, 3, 0b01), 0xFFFF_FF7F);
    assert_eq!(with_pair(0, 15, 0b11), 0xC000_0000);
    assert_eq!(with_pair(0x0000_000F, 0, 0b10), 0x0000_000E);
}

#[test]
fn speed_goes_to_the_driver_strength_register() {
    let mut regs = Registers::new();
    regs.odrvr = 0xFFFF_FFFF;
    let mut pin: Pin<0x41, 5, PushPull> = Pin::new();
    pin.set_speed(&mut regs, Speed::Medium);
    assert_eq!(regs.odrvr, 0xFFFF_F7FF);
    let _pin = pin.speed(&mut regs, Speed::Low);
    assert_eq!(regs.odrvr, 0xFFFF_F3FF);
    let last: Pin<0x41, 15, PushPull> = Pin::new();
    let _last = last.speed(&mut regs, Speed::High);
    assert_eq!(regs.odrvr, 0xBFFF_F3FF);
    assert_eq!(regs.pull, 0);
}

#[test]
fn resistor_goes_to_the_pull_register() {
    let mut regs = Registers::new();
    let mut pin: Pin<0x42, 2, PushPull> = Pin::new();
    pin.set_internal_resistor(&mut regs, Pull::Down);
    assert_eq!(regs.pull, 0x20);
    let pin = pin.internal_resistor(&mut regs, Pull::Up);
    assert_eq!(regs.pull, 0x10);
    let pin = pin.internal_pull_down(&mut regs, true);
    assert_eq!(regs.pull, 0x20);
    let pin = pin.internal_pull_down(&mut regs, false);
    assert_eq!(regs.pull, 0x00);
    let pin = pin.internal_pull_up(&mut regs, true);
    assert_eq!(regs.pull, 0x10);
    let _pin = pin.internal_pull_up(&mut regs, false);
    assert_eq!(regs.pull, 0x00);
    assert_eq!(regs.odrvr, 0);
}

#[test]
fn speed_goes_to_the_mode_bits_of_the_configuration_register() {
    let mut regs = Registers::new();
    regs.cfglr = 0x4444_4444;
    f1::set_speed(&mut regs, 0, Speed::VeryHigh);
    assert_eq!(regs.cfglr, 0x4444_4447);
    f1::set_speed(&mut regs, 7, Speed::Medium);
    assert_eq!(regs.cfglr, 0x5444_4447);
    f1::set_speed(&mut regs, 0, Speed::Low);
    assert_eq!(regs.cfglr, 0x5444_4444);
    assert_eq!(regs.cfghr, 0);
}

#[test]
fn resistor_is_chosen_by_function_bits_and_output_data() {
    let mut regs = Registers::new();
    regs.cfglr = 0x4444_4444;
    regs.odt = 0xFFFF_0000;
    f1::set_internal_resistor(&mut regs, 1, Pull::Up);
    assert_eq!(regs.cfglr, 0x4444_4484);
    assert_eq!(regs.odt, 0xFFFF_0002);
    f1::set_internal_resistor(&mut regs, 1, Pull::Down);
    assert_eq!(regs.cfglr, 0x4444_4484);
    assert_eq!(regs.odt, 0xFFFF_0000);
    f1::set_internal_resistor(&mut regs, 1, Pull::Floating);
    assert_eq!(regs.cfglr, 0x4444_4404);
    f1::internal_pull_up(&mut regs, 7, true);
    assert_eq!(regs.cfglr, 0x8444_4404);
    assert_eq!(regs.odt, 0xFFFF_0080);
    f1::internal_pull_down(&mut regs, 7, true);
    assert_eq!(regs.odt, 0xFFFF_0000);
    f1::internal_pull_up(&mut regs, 7, false);
    assert_eq!(regs.cfglr, 0x0444_4404);
    f1::internal_pull_down(&mut regs, 0, false);
    assert_eq!(regs.cfglr, 0x0444_4404);
}
