use at32f4xx_hal::bits::{bit, has_bit, with_bit, with_field};
use at32f4xx_hal::crm::{Bus, Instance, MainPll, Peripheral, Register, Registers};
use at32f4xx_hal::qei::{Direction, Instance as QeiInstance, Qei, QeiExt};
use at32f4xx_hal::timer;

#[test]
fn single_bits() {
    assert_eq!(bit(0), 1);
    assert_eq!(bit(31), 0x8000_0000);
    assert_eq!(with_bit(0, 4, true), 0x10);
    assert_eq!(with_bit(0xFF, 4, false), 0xEF);
    assert_eq!(with_bit(0xFF, 4, true), 0xFF);
    assert!(has_bit(0x10, 4));
    assert!(!has_bit(0x10, 3));
}

#[test]
fn fields_are_replaced_by_the_low_bits_of_the_value() {
    assert_eq!(with_field(0xFFFF_FFFF, 4, 0x7, 0b010), 0xFFFF_FFAF);
    assert_eq!(with_field(0, 12, 0x3, 0xFF), 0x3000);
    assert_eq!(with_field(0x1234, 0, 0xFF, 0), 0x1200);
    assert_eq!(with_field(0, 31, 0x1, 1), 0x8000_0000);
}

#[test]
fn pll_is_left_alone_when_it_is_not_needed() {
    let mut crm = Registers { cfg: 0x1234, pll: 0x1F10, ..Registers::new() };
    let pll = MainPll::fast_setup(&mut crm, 8_000_000, true, Some(true), None, false);
    assert_eq!(pll, MainPll { use_pll: false, pllsclk: None, pll48clk: None });
    assert_eq!(crm, Registers { cfg: 0x1234, pll: 0x1F10, ..Registers::new() });
}

#[test]
fn pll_multiplies_by_192_and_divides_by_8() {
    let mut crm = Registers { cfg: 0x0003_0000, pll: 0x1F10, apb1en: 7, ..Registers::new() };
    let pll = MainPll::fast_setup(&mut crm, 8_000_000, false, None, Some(120_000_000), false);
    assert_eq!(pll, MainPll { use_pll: true, pllsclk: Some(192_000_000), pll48clk: None });
    assert_eq!(crm, Registers { cfg: 0, pll: 0x8000_C013, apb1en: 7, ..Registers::new() });
    let pll = MainPll::fast_setup(&mut crm, 4_000_000, true, Some(true), None, true);
    assert_eq!(
        pll,
        MainPll { use_pll: true, pllsclk: Some(96_000_000), pll48clk: Some(96_000_000) }
    );
    assert_eq!(crm.cfg, 0x0003_0000);
    let pll = MainPll::fast_setup(&mut crm, 22_369_621, true, Some(false), Some(1), true);
    assert_eq!(pll.pllsclk, Some(536_870_904));
    assert_eq!(crm.cfg, 0x0001_0000);
    crm.write(Register::Pll, 5);
    assert_eq!(crm.read(Register::Pll), 5);
}

#[test]
fn encoder_counts_both_channels_over_the_whole_range() {
    let mut regs = timer::Registers::new(false, 4, false);
    regs.stctrl = 0xFFFF;
    regs.ctrl1 = 0x80;
    let mut qei = Qei::new(regs, ("PA0", "PA1"));
    assert_eq!(qei.tmr.cm1, 0x1111);
    assert_eq!(qei.tmr.cctrl, 0x11);
    // The timer was reset before it was set up.
    assert_eq!(qei.tmr.stctrl, 0x0001);
    assert_eq!(qei.tmr.pr, 0xFFFF);
    assert_eq!(qei.tmr.ctrl1, 0x01);
    let mut kept = timer::Registers::new(false, 4, false);
    kept.stctrl = 0xFFFF;
    kept.ctrl1 = 0x80;
    kept.setup_qei();
    assert_eq!((kept.stctrl, kept.ctrl1), (0xFFF9, 0x81));
    assert_eq!(qei.direction(), Direction::Upcounting);
    assert!(qei.tmr.read_direction());
    qei.set_count(1234);
    assert_eq!(qei.count(), 1234);
    let (tmr, pins) = qei.release();
    assert_eq!(tmr.cval, 1234);
    assert_eq!(pins, ("PA0", "PA1"));
    let wide = timer::Registers::new(true, 2, false).qei(());
    assert_eq!(wide.tmr.pr, 0xFFFF_FFFF);
    let mut again = timer::Registers::new(true, 2, false);
    again.setup_qei();
    assert_eq!(again, wide.tmr);
}

#[test]
fn peripherals_have_their_bus_and_bit() {
    assert_eq!((Peripheral::I2c1.bus(), Peripheral::I2c1.bit()), (Bus::Apb1, 21));
    assert_eq!((Peripheral::I2c2.bus(), Peripheral::I2c2.bit()), (Bus::Apb1, 22));
    assert_eq!((Peripheral::Usart1.bus(), Peripheral::Usart1.bit()), (Bus::Apb2, 14));
    assert_eq!((Peripheral::Usart2.bus(), Peripheral::Usart2.bit()), (Bus::Apb1, 17));
    assert_eq!((Peripheral::Adc1.bus(), Peripheral::Adc1.bit()), (Bus::Apb2, 8));
    assert_eq!((Peripheral::Tmr1.bus(), Peripheral::Tmr1.bit()), (Bus::Apb2, 11));
    assert_eq!((Peripheral::Tmr2.bus(), Peripheral::Tmr2.bit()), (Bus::Apb1, 0));
    assert_eq!((Peripheral::Dma1.bus(), Peripheral::Dma1.bit()), (Bus::Ahb, 0));
    assert_eq!((Peripheral::Crc.bus(), Peripheral::Crc.bit()), (Bus::Ahb, 6));
    assert_eq!((Peripheral::GpioA.bus(), Peripheral::GpioA.bit()), (Bus::Apb2, 2));
    assert_eq!((Peripheral::Spi2.bus(), Peripheral::Spi2.bit()), (Bus::Apb1, 14));
    assert_eq!(Bus::Ahb.enr(), Register::Ahben);
    assert_eq!(Bus::Apb1.rstr(), Register::Apb1rst);
    assert_eq!(Bus::Apb2.enr(), Register::Apb2en);
}

#[test]
fn clocks_are_switched_bit_by_bit() {
    let mut crm = Registers::new();
    Peripheral::I2c1.enable(&mut crm);
    Peripheral::Tmr2.enable(&mut crm);
    Peripheral::Usart1.enable(&mut crm);
    assert_eq!((crm.apb1en, crm.apb2en, crm.ahben), (0x0020_0001, 0x4000, 0));
    assert!(Peripheral::I2c1.is_enabled(&crm));
    assert!(!Peripheral::I2c2.is_enabled(&crm));
    assert!(!Peripheral::Usart2.is_enabled(&crm));
    Peripheral::I2c1.disable(&mut crm);
    assert_eq!(crm.apb1en, 1);
    crm.apb1rst = 0xF0;
    Peripheral::I2c1.reset(&mut crm);
    assert_eq!(crm.apb1rst, 0xF0);
    crm.apb1rst = 0x0020_0000;
    Peripheral::I2c1.reset(&mut crm);
    assert_eq!(crm.apb1rst, 0);
    Peripheral::Crc.enable(&mut crm);
    assert_eq!(crm.ahben, 0x40);
}
