//! Device electronic signature: the words that identify the part and hold
//! its factory calibration.

use vstd::prelude::*;
use vstd::std_specs::convert::FromSpecImpl;

verus! {

/// Supply voltage, in millivolts, at which the factory calibration was done.
pub const VDDA_CALIB: u32 = 3300;

/// Parts of the AT32F421 line.
#[derive(Clone, Copy, Debug, PartialEq, Eq, Structural)]
pub enum Mcu {
    AT32F421C8T7,
    AT32F421K8T7,
    AT32F421K8U7,
    AT32F421K8U7_4,
    AT32F421F8U7,
    AT32F421F8P7,
    AT32F421C6T7,
    AT32F421K6T7,
    AT32F421K6U7,
    AT32F421K6U7_4,
    AT32F421F6U7,
    AT32F421F6P7,
    AT32F421C4T7,
    AT32F421K4T7,
    AT32F421K4U7,
    AT32F421K4U7_4,
    AT32F421F4U7,
    AT32F421F4P7,
    AT32F421G8U7,
    AT32F421G6U7,
    AT32F421G4U7,
}

impl Mcu {
    /// The product identifier of the part.
    pub open spec fn spec_pid(self) -> u32 {
        match self {
            Mcu::AT32F421C8T7 => 0x50020100,
            Mcu::AT32F421K8T7 => 0x50020101,
            Mcu::AT32F421K8U7 => 0x50020102,
            Mcu::AT32F421K8U7_4 => 0x50020103,
            Mcu::AT32F421F8U7 => 0x50020104,
            Mcu::AT32F421F8P7 => 0x50020105,
            Mcu::AT32F421C6T7 => 0x50020086,
            Mcu::AT32F421K6T7 => 0x50020087,
            Mcu::AT32F421K6U7 => 0x50020088,
            Mcu::AT32F421K6U7_4 => 0x50020089,
            Mcu::AT32F421F6U7 => 0x5002008A,
            Mcu::AT32F421F6P7 => 0x5002008B,
            Mcu::AT32F421C4T7 => 0x5001000C,
            Mcu::AT32F421K4T7 => 0x5001000D,
            Mcu::AT32F421K4U7 => 0x5001000E,
            Mcu::AT32F421K4U7_4 => 0x5001000F,
            Mcu::AT32F421F4U7 => 0x50010010,
            Mcu::AT32F421F4P7 => 0x50010011,
            Mcu::AT32F421G8U7 => 0x50020112,
            Mcu::AT32F421G6U7 => 0x50020093,
            Mcu::AT32F421G4U7 => 0x50010014,
        }
    }

    /// The part with product identifier `pid`, if there is one.
    pub open spec fn spec_lookup(pid: u32) -> Option<Mcu> {
        if pid == 0x50020100 {
            Some(Mcu::AT32F421C8T7)
        } else if pid == 0x50020101 {
            Some(Mcu::AT32F421K8T7)
        } else if pid == 0x50020102 {
            Some(Mcu::AT32F421K8U7)
        } else if pid == 0x50020103 {
            Some(Mcu::AT32F421K8U7_4)
        } else if pid == 0x50020104 {
            Some(Mcu::AT32F421F8U7)
        } else if pid == 0x50020105 {
            Some(Mcu::AT32F421F8P7)
        } else if pid == 0x50020086 {
            Some(Mcu::AT32F421C6T7)
        } else if pid == 0x50020087 {
            Some(Mcu::AT32F421K6T7)
        } else if pid == 0x50020088 {
            Some(Mcu::AT32F421K6U7)
        } else if pid == 0x50020089 {
            Some(Mcu::AT32F421K6U7_4)
        } else if pid == 0x5002008A {
            Some(Mcu::AT32F421F6U7)
        } else if pid == 0x5002008B {
            Some(Mcu::AT32F421F6P7)
        } else if pid == 0x5001000C {
            Some(Mcu::AT32F421C4T7)
        } else if pid == 0x5001000D {
            Some(Mcu::AT32F421K4T7)
        } else if pid == 0x5001000E {
            Some(Mcu::AT32F421K4U7)
        } else if pid == 0x5001000F {
            Some(Mcu::AT32F421K4U7_4)
        } else if pid == 0x50010010 {
            Some(Mcu::AT32F421F4U7)
        } else if pid == 0x50010011 {
            Some(Mcu::AT32F421F4P7)
        } else if pid == 0x50020112 {
            Some(Mcu::AT32F421G8U7)
        } else if pid == 0x50020093 {
            Some(Mcu::AT32F421G6U7)
        } else if pid == 0x50010014 {
            Some(Mcu::AT32F421G4U7)
        } else {
            None
        }
    }

    /// The part with product identifier `pid`, if there is one.
    #[verifier::when_used_as_spec(spec_lookup)]
    pub fn lookup(pid: u32) -> (m: Option<Mcu>)
        ensures
            m == Mcu::spec_lookup(pid),
    {
        match pid {
            0x50020100 => Some(Mcu::AT32F421C8T7),
            0x50020101 => Some(Mcu::AT32F421K8T7),
            0x50020102 => Some(Mcu::AT32F421K8U7),
            0x50020103 => Some(Mcu::AT32F421K8U7_4),
            0x50020104 => Some(Mcu::AT32F421F8U7),
            0x50020105 => Some(Mcu::AT32F421F8P7),
            0x50020086 => Some(Mcu::AT32F421C6T7),
            0x50020087 => Some(Mcu::AT32F421K6T7),
            0x50020088 => Some(Mcu::AT32F421K6U7),
            0x50020089 => Some(Mcu::AT32F421K6U7_4),
            0x5002008A => Some(Mcu::AT32F421F6U7),
            0x5002008B => Some(Mcu::AT32F421F6P7),
            0x5001000C => Some(Mcu::AT32F421C4T7),
            0x5001000D => Some(Mcu::AT32F421K4T7),
            0x5001000E => Some(Mcu::AT32F421K4U7),
            0x5001000F => Some(Mcu::AT32F421K4U7_4),
            0x50010010 => Some(Mcu::AT32F421F4U7),
            0x50010011 => Some(Mcu::AT32F421F4P7),
            0x50020112 => Some(Mcu::AT32F421G8U7),
            0x50020093 => Some(Mcu::AT32F421G6U7),
            0x50010014 => Some(Mcu::AT32F421G4U7),
            _ => None,
        }
    }

    /// The part with product identifier `pid`, which has to be one of the
    /// line.
    pub fn from(pid: u32) -> (m: Mcu)
        requires
            Mcu::spec_lookup(pid) is Some,
        ensures
            Mcu::spec_lookup(pid) == Some(m),
            m.spec_pid() == pid,
    {
        match Mcu::lookup(pid) {
            Some(m) => m,
            None => Mcu::AT32F421C8T7,
        }
    }

    /// Flash size of the part, in kilobytes: 64 for the parts with an 8 in
    /// their name, 32 for those with a 6, 16 for those with a 4.
    pub open spec fn spec_flash_kilo_bytes(self) -> u16 {
        match self {
            Mcu::AT32F421C8T7
            | Mcu::AT32F421K8T7
            | Mcu::AT32F421K8U7
            | Mcu::AT32F421K8U7_4
            | Mcu::AT32F421F8U7
            | Mcu::AT32F421F8P7
            | Mcu::AT32F421G8U7 => 64,
            Mcu::AT32F421C6T7
            | Mcu::AT32F421K6T7
            | Mcu::AT32F421K6U7
            | Mcu::AT32F421K6U7_4
            | Mcu::AT32F421F6U7
            | Mcu::AT32F421F6P7
            | Mcu::AT32F421G6U7 => 32,
            _ => 16,
        }
    }
}

impl From<Mcu> for u32 {
    fn from(m: Mcu) -> (pid: u32) {
        match m {
            Mcu::AT32F421C8T7 => 0x50020100,
            Mcu::AT32F421K8T7 => 0x50020101,
            Mcu::AT32F421K8U7 => 0x50020102,
            Mcu::AT32F421K8U7_4 => 0x50020103,
            Mcu::AT32F421F8U7 => 0x50020104,
            Mcu::AT32F421F8P7 => 0x50020105,
            Mcu::AT32F421C6T7 => 0x50020086,
            Mcu::AT32F421K6T7 => 0x50020087,
            Mcu::AT32F421K6U7 => 0x50020088,
            Mcu::AT32F421K6U7_4 => 0x50020089,
            Mcu::AT32F421F6U7 => 0x5002008A,
            Mcu::AT32F421F6P7 => 0x5002008B,
            Mcu::AT32F421C4T7 => 0x5001000C,
            Mcu::AT32F421K4T7 => 0x5001000D,
            Mcu::AT32F421K4U7 => 0x5001000E,
            Mcu::AT32F421K4U7_4 => 0x5001000F,
            Mcu::AT32F421F4U7 => 0x50010010,
            Mcu::AT32F421F4P7 => 0x50010011,
            Mcu::AT32F421G8U7 => 0x50020112,
            Mcu::AT32F421G6U7 => 0x50020093,
            Mcu::AT32F421G4U7 => 0x50010014,
        }
    }
}

impl FromSpecImpl<Mcu> for u32 {
    open spec fn obeys_from_spec() -> bool {
        true
    }

    open spec fn from_spec(m: Mcu) -> u32 {
        m.spec_pid()
    }
}

/// Every part is found again by its product identifier.
pub proof fn lemma_lookup_of_pid(m: Mcu)
    ensures
        Mcu::spec_lookup(m.spec_pid()) == Some(m),
{
}

/// A product identifier that is found belongs to the part found.
pub proof fn lemma_pid_of_lookup(pid: u32)
    ensures
        Mcu::spec_lookup(pid) matches Some(m) ==> m.spec_pid() == pid,
{
}

/// Device identification word.
#[derive(Debug, Hash)]
pub struct IDCode(pub u32);

impl IDCode {
    /// Wraps the word read from the identification register.
    pub fn new(word: u32) -> (id: IDCode)
        ensures
            id.0 == word,
    {
        IDCode(word)
    }

    /// The product identifier.
    pub fn pid(&self) -> (pid: u32)
        ensures
            pid == self.0,
    {
        self.0
    }

    /// The part, which has to be one of the line.
    pub fn mcu(&self) -> (m: Mcu)
        requires
            Mcu::spec_lookup(self.0) is Some,
        ensures
            Mcu::spec_lookup(self.0) == Some(m),
    {
        Mcu::from(self.0)
    }
}

/// Size of the flash memory, in kilobytes.
#[derive(Debug)]
pub struct FlashSize(pub u16);

impl FlashSize {
    /// The flash size of the part with product identifier `pid`, which has to
    /// be one of the line.
    pub fn from_pid(pid: u32) -> (size: FlashSize)
        requires
            Mcu::spec_lookup(pid) is Some,
        ensures
            size.0 == Mcu::spec_lookup(pid).unwrap().spec_flash_kilo_bytes(),
    {
        let size: u16 = match pid {
            0x50020100 => 64,
            0x50020101 => 64,
            0x50020102 => 64,
            0x50020103 => 64,
            0x50020104 => 64,
            0x50020105 => 64,
            0x50020112 => 64,
            0x50020086 => 32,
            0x50020087 => 32,
            0x50020088 => 32,
            0x50020089 => 32,
            0x5002008A => 32,
            0x5002008B => 32,
            0x50020093 => 32,
            _ => 16,
        };
        FlashSize(size)
    }

    /// The flash size of the part that `id` identifies.
    pub fn get(id: &IDCode) -> (size: FlashSize)
        requires
            Mcu::spec_lookup(id.0) is Some,
        ensures
            size.0 == Mcu::spec_lookup(id.0).unwrap().spec_flash_kilo_bytes(),
    {
        FlashSize::from_pid(id.pid())
    }

    /// The size in kilobytes.
    pub fn kilo_bytes(&self) -> (kb: u16)
        ensures
            kb == self.0,
    {
        self.0
    }

    /// The size in bytes.
    pub fn bytes(&self) -> (n: usize)
        ensures
            n == self.0 * 1024,
    {
        (self.0 as usize) * 1024
    }
}

/// Reading of the internal reference voltage, taken at the factory.
#[derive(Debug)]
pub struct VrefCal(pub u16);

impl VrefCal {
    /// The calibration value.
    pub fn read(&self) -> (v: u16)
        ensures
            v == self.0,
    {
        self.0
    }
}

/// Reading of the temperature sensor at 30 °C, taken at the factory.
#[derive(Debug)]
pub struct VtempCal30(pub u16);

impl VtempCal30 {
    /// The calibration value.
    pub fn read(&self) -> (v: u16)
        ensures
            v == self.0,
    {
        self.0
    }
}

/// Reading of the temperature sensor at 110 °C, taken at the factory.
#[derive(Debug)]
pub struct VtempCal110(pub u16);

impl VtempCal110 {
    /// The calibration value.
    pub fn read(&self) -> (v: u16)
        ensures
            v == self.0,
    {
        self.0
    }
}

} // verus!
