use at32f4xx_hal::signature::{
    FlashSize, IDCode, Mcu, VrefCal, VtempCal110, VtempCal30, VDDA_CALIB,
};

const PARTS: [(u32, Mcu, u16); 21] = [
    (0x50020100, Mcu::AT32F421C8T7, 64),
    (0x50020101, Mcu::AT32F421K8T7, 64),
    (0x50020102, Mcu::AT32F421K8U7, 64),
    (0x50020103, Mcu::AT32F421K8U7_4, 64),
    (0x50020104, Mcu::AT32F421F8U7, 64),
    (0x50020105, Mcu::AT32F421F8P7, 64),
    (0x50020086, Mcu::AT32F421C6T7, 32),
    (0x50020087, Mcu::AT32F421K6T7, 32),
    (0x50020088, Mcu::AT32F421K6U7, 32),
    (0x50020089, Mcu::AT32F421K6U7_4, 32),
    (0x5002008A, Mcu::AT32F421F6U7, 32),
    (0x5002008B, Mcu::AT32F421F6P7, 32),
    (0x5001000C, Mcu::AT32F421C4T7, 16),
    (0x5001000D, Mcu::AT32F421K4T7, 16),
    (0x5001000E, Mcu::AT32F421K4U7, 16),
    (0x5001000F, Mcu::AT32F421K4U7_4, 16),
    (0x50010010, Mcu::AT32F421F4U7, 16),
    (0x50010011, Mcu::AT32F421F4P7, 16),
    (0x50020112, Mcu::AT32F421G8U7, 64),
    (0x50020093, Mcu::AT32F421G6U7, 32),
    (0x50010014, Mcu::AT32F421G4U7, 16),
];

#[test]
fn every_part_is_found_by_its_identifier() {
    for (pid, mcu, _) in PARTS {
        assert_eq!(Mcu::lookup(pid), Some(mcu));
        assert_eq!(Mcu::from(pid), mcu);
        assert_eq!(u32::from(mcu), pid);
        assert_eq!(IDCode::new(pid).mcu(), mcu);
        assert_eq!(IDCode(pid).pid(), pid);
    }
}

#[test]
fn other_identifiers_are_no_part() {
    assert_eq!(Mcu::lookup(0), None);
    assert_eq!(Mcu::lookup(0x50020106), None);
    assert_eq!(Mcu::lookup(0x50020085), None);
    assert_eq!(Mcu::lookup(u32::MAX), None);
}

#[test]
fn flash_size_follows_the_part() {
    for (pid, _, kb) in PARTS {
        let size = FlashSize::from_pid(pid);
        assert_eq!(size.kilo_bytes(), kb);
        assert_eq!(size.bytes(), kb as usize * 1024);
        assert_eq!(FlashSize::get(&IDCode::new(pid)).kilo_bytes(), kb);
    }
    assert_eq!(FlashSize(u16::MAX).bytes(), 65_535 * 1024);
    assert_eq!(FlashSize(0).bytes(), 0);
}

#[test]
fn calibration_values_are_handed_out() {
    assert_eq!(VDDA_CALIB, 3300);
    assert_eq!(VrefCal(1489).read(), 1489);
    assert_eq!(VtempCal30(940).read(), 940);
    assert_eq!(VtempCal110(1200).read(), 1200);
}
