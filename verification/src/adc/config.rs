//! Settings of the converter.

use vstd::prelude::*;
use vstd::std_specs::convert::FromSpecImpl;

verus! {

/// The place of a channel in the conversion sequence.
#[allow(non_camel_case_types)]
#[derive(Clone, Copy, Debug, PartialEq, Eq, Structural)]
pub enum Sequence {
    /// 1
    One,
    /// 2
    Two,
    /// 3
    Three,
    /// 4
    Four,
    /// 5
    Five,
    /// 6
    Six,
    /// 7
    Seven,
    /// 8
    Eight,
    /// 9
    Nine,
    /// 10
    Ten,
    /// 11
    Eleven,
    /// 12
    Twelve,
    /// 13
    Thirteen,
    /// 14
    Fourteen,
    /// 15
    Fifteen,
    /// 16
    Sixteen,
}

impl Sequence {
    /// The value that stands for the setting in its register field.
    pub open spec fn spec_code(self) -> u8 {
        match self {
            Sequence::One => 0,
            Sequence::Two => 1,
            Sequence::Three => 2,
            Sequence::Four => 3,
            Sequence::Five => 4,
            Sequence::Six => 5,
            Sequence::Seven => 6,
            Sequence::Eight => 7,
            Sequence::Nine => 8,
            Sequence::Ten => 9,
            Sequence::Eleven => 10,
            Sequence::Twelve => 11,
            Sequence::Thirteen => 12,
            Sequence::Fourteen => 13,
            Sequence::Fifteen => 14,
            Sequence::Sixteen => 15,
        }
    }

    #[verifier::when_used_as_spec(spec_code)]
    pub fn code(self) -> (c: u8)
        ensures
            c == self.spec_code(),
    {
        match self {
            Sequence::One => 0,
            Sequence::Two => 1,
            Sequence::Three => 2,
            Sequence::Four => 3,
            Sequence::Five => 4,
            Sequence::Six => 5,
            Sequence::Seven => 6,
            Sequence::Eight => 7,
            Sequence::Nine => 8,
            Sequence::Ten => 9,
            Sequence::Eleven => 10,
            Sequence::Twelve => 11,
            Sequence::Thirteen => 12,
            Sequence::Fourteen => 13,
            Sequence::Fifteen => 14,
            Sequence::Sixteen => 15,
        }
    }

    /// The setting that `bits` stands for; `bits` has to be below 16.
    pub fn from_bits(bits: u8) -> (s: Sequence)
        requires
            bits < 16,
        ensures
            s.spec_code() == bits,
    {
        match bits {
            0 => Sequence::One,
            1 => Sequence::Two,
            2 => Sequence::Three,
            3 => Sequence::Four,
            4 => Sequence::Five,
            5 => Sequence::Six,
            6 => Sequence::Seven,
            7 => Sequence::Eight,
            8 => Sequence::Nine,
            9 => Sequence::Ten,
            10 => Sequence::Eleven,
            11 => Sequence::Twelve,
            12 => Sequence::Thirteen,
            13 => Sequence::Fourteen,
            14 => Sequence::Fifteen,
            _ => Sequence::Sixteen,
        }
    }
}

impl From<Sequence> for u8 {
    fn from(s: Sequence) -> (c: u8) {
        s.code()
    }
}

impl FromSpecImpl<Sequence> for u8 {
    open spec fn obeys_from_spec() -> bool {
        true
    }

    open spec fn from_spec(s: Sequence) -> u8 {
        s.spec_code()
    }
}

/// The number of cycles a channel is sampled for.
#[allow(non_camel_case_types)]
#[derive(Clone, Copy, Debug, PartialEq, Eq, Structural)]
pub enum SampleTime {
    /// 3 cycles
    Cycles_3,
    /// 15 cycles
    Cycles_15,
    /// 28 cycles
    Cycles_28,
    /// 56 cycles
    Cycles_56,
    /// 84 cycles
    Cycles_84,
    /// 112 cycles
    Cycles_112,
    /// 144 cycles
    Cycles_144,
    /// 480 cycles
    Cycles_480,
}

impl SampleTime {
    /// The value that stands for the setting in its register field.
    pub open spec fn spec_code(self) -> u8 {
        match self {
            SampleTime::Cycles_3 => 0,
            SampleTime::Cycles_15 => 1,
            SampleTime::Cycles_28 => 2,
            SampleTime::Cycles_56 => 3,
            SampleTime::Cycles_84 => 4,
            SampleTime::Cycles_112 => 5,
            SampleTime::Cycles_144 => 6,
            SampleTime::Cycles_480 => 7,
        }
    }

    #[verifier::when_used_as_spec(spec_code)]
    pub fn code(self) -> (c: u8)
        ensures
            c == self.spec_code(),
    {
        match self {
            SampleTime::Cycles_3 => 0,
            SampleTime::Cycles_15 => 1,
            SampleTime::Cycles_28 => 2,
            SampleTime::Cycles_56 => 3,
            SampleTime::Cycles_84 => 4,
            SampleTime::Cycles_112 => 5,
            SampleTime::Cycles_144 => 6,
            SampleTime::Cycles_480 => 7,
        }
    }

    /// The setting that `bits` stands for; `bits` has to be below 8.
    pub fn from_bits(bits: u8) -> (s: SampleTime)
        requires
            bits < 8,
        ensures
            s.spec_code() == bits,
    {
        match bits {
            0 => SampleTime::Cycles_3,
            1 => SampleTime::Cycles_15,
            2 => SampleTime::Cycles_28,
            3 => SampleTime::Cycles_56,
            4 => SampleTime::Cycles_84,
            5 => SampleTime::Cycles_112,
            6 => SampleTime::Cycles_144,
            _ => SampleTime::Cycles_480,
        }
    }
}

impl From<SampleTime> for u8 {
    fn from(s: SampleTime) -> (c: u8) {
        s.code()
    }
}

impl FromSpecImpl<SampleTime> for u8 {
    open spec fn obeys_from_spec() -> bool {
        true
    }

    open spec fn from_spec(s: SampleTime) -> u8 {
        s.spec_code()
    }
}

/// Clock of the converter, derived from PCLK2.
#[allow(non_camel_case_types)]
#[derive(Clone, Copy, Debug, PartialEq, Eq, Structural)]
pub enum Clock {
    /// PCLK2 divided by 2
    Pclk2_div_2,
    /// PCLK2 divided by 4
    Pclk2_div_4,
    /// PCLK2 divided by 6
    Pclk2_div_6,
    /// PCLK2 divided by 8
    Pclk2_div_8,
    /// PCLK2 divided by 2, second encoding
    Pclk2_div_2_duplicate,
    /// PCLK2 divided by 12
    Pclk2_div_12,
    /// PCLK2 divided by 8, second encoding
    Pclk2_div_8_duplicate,
    /// PCLK2 divided by 16
    Pclk2_div_16,
}

impl Clock {
    /// The value that stands for the setting in its register field.
    pub open spec fn spec_code(self) -> u8 {
        match self {
            Clock::Pclk2_div_2 => 0,
            Clock::Pclk2_div_4 => 1,
            Clock::Pclk2_div_6 => 2,
            Clock::Pclk2_div_8 => 3,
            Clock::Pclk2_div_2_duplicate => 4,
            Clock::Pclk2_div_12 => 5,
            Clock::Pclk2_div_8_duplicate => 6,
            Clock::Pclk2_div_16 => 7,
        }
    }

    #[verifier::when_used_as_spec(spec_code)]
    pub fn code(self) -> (c: u8)
        ensures
            c == self.spec_code(),
    {
        match self {
            Clock::Pclk2_div_2 => 0,
            Clock::Pclk2_div_4 => 1,
            Clock::Pclk2_div_6 => 2,
            Clock::Pclk2_div_8 => 3,
            Clock::Pclk2_div_2_duplicate => 4,
            Clock::Pclk2_div_12 => 5,
            Clock::Pclk2_div_8_duplicate => 6,
            Clock::Pclk2_div_16 => 7,
        }
    }
}

impl From<Clock> for u8 {
    fn from(s: Clock) -> (c: u8) {
        s.code()
    }
}

impl FromSpecImpl<Clock> for u8 {
    open spec fn obeys_from_spec() -> bool {
        true
    }

    open spec fn from_spec(s: Clock) -> u8 {
        s.spec_code()
    }
}

/// Resolution of a sample.
#[allow(non_camel_case_types)]
#[derive(Clone, Copy, Debug, PartialEq, Eq, Structural)]
pub enum Resolution {
    /// 12 bits
    Twelve,
    /// 10 bits
    Ten,
    /// 8 bits
    Eight,
    /// 6 bits
    Six,
}

impl Resolution {
    /// The value that stands for the setting in its register field.
    pub open spec fn spec_code(self) -> u8 {
        match self {
            Resolution::Twelve => 0,
            Resolution::Ten => 1,
            Resolution::Eight => 2,
            Resolution::Six => 3,
        }
    }

    #[verifier::when_used_as_spec(spec_code)]
    pub fn code(self) -> (c: u8)
        ensures
            c == self.spec_code(),
    {
        match self {
            Resolution::Twelve => 0,
            Resolution::Ten => 1,
            Resolution::Eight => 2,
            Resolution::Six => 3,
        }
    }
}

impl From<Resolution> for u8 {
    fn from(s: Resolution) -> (c: u8) {
        s.code()
    }
}

impl FromSpecImpl<Resolution> for u8 {
    open spec fn obeys_from_spec() -> bool {
        true
    }

    open spec fn from_spec(s: Resolution) -> u8 {
        s.spec_code()
    }
}

/// Events outside the converter that can start a conversion.
#[allow(non_camel_case_types)]
#[derive(Clone, Copy, Debug, PartialEq, Eq, Structural)]
pub enum ExternalTrigger {
    /// Timer 1, compare channel 1
    Tim_1_cc_1,
    /// Timer 1, compare channel 2
    Tim_1_cc_2,
    /// Timer 1, compare channel 3
    Tim_1_cc_3,
    /// Timer 2, compare channel 2
    Tim_2_cc_2,
    /// Timer 2, compare channel 3
    Tim_2_cc_3,
    /// Timer 2, compare channel 4
    Tim_2_cc_4,
    /// Timer 2, trigger output
    Tim_2_trgo,
    /// Timer 3, compare channel 1
    Tim_3_cc_1,
    /// Timer 3, trigger output
    Tim_3_trgo,
    /// Timer 4, compare channel 4
    Tim_4_cc_4,
    /// Timer 5, compare channel 1
    Tim_5_cc_1,
    /// Timer 5, compare channel 2
    Tim_5_cc_2,
    /// Timer 5, compare channel 3
    Tim_5_cc_3,
    /// External interrupt line 11
    Exti_11,
}

impl ExternalTrigger {
    /// The value that stands for the setting in its register field.
    pub open spec fn spec_code(self) -> u8 {
        match self {
            ExternalTrigger::Tim_1_cc_1 => 0,
            ExternalTrigger::Tim_1_cc_2 => 1,
            ExternalTrigger::Tim_1_cc_3 => 2,
            ExternalTrigger::Tim_2_cc_2 => 3,
            ExternalTrigger::Tim_2_cc_3 => 4,
            ExternalTrigger::Tim_2_cc_4 => 5,
            ExternalTrigger::Tim_2_trgo => 6,
            ExternalTrigger::Tim_3_cc_1 => 7,
            ExternalTrigger::Tim_3_trgo => 8,
            ExternalTrigger::Tim_4_cc_4 => 9,
            ExternalTrigger::Tim_5_cc_1 => 10,
            ExternalTrigger::Tim_5_cc_2 => 11,
            ExternalTrigger::Tim_5_cc_3 => 12,
            ExternalTrigger::Exti_11 => 15,
        }
    }

    #[verifier::when_used_as_spec(spec_code)]
    pub fn code(self) -> (c: u8)
        ensures
            c == self.spec_code(),
    {
        match self {
            ExternalTrigger::Tim_1_cc_1 => 0,
            ExternalTrigger::Tim_1_cc_2 => 1,
            ExternalTrigger::Tim_1_cc_3 => 2,
            ExternalTrigger::Tim_2_cc_2 => 3,
            ExternalTrigger::Tim_2_cc_3 => 4,
            ExternalTrigger::Tim_2_cc_4 => 5,
            ExternalTrigger::Tim_2_trgo => 6,
            ExternalTrigger::Tim_3_cc_1 => 7,
            ExternalTrigger::Tim_3_trgo => 8,
            ExternalTrigger::Tim_4_cc_4 => 9,
            ExternalTrigger::Tim_5_cc_1 => 10,
            ExternalTrigger::Tim_5_cc_2 => 11,
            ExternalTrigger::Tim_5_cc_3 => 12,
            ExternalTrigger::Exti_11 => 15,
        }
    }
}

impl From<ExternalTrigger> for u8 {
    fn from(s: ExternalTrigger) -> (c: u8) {
        s.code()
    }
}

impl FromSpecImpl<ExternalTrigger> for u8 {
    open spec fn obeys_from_spec() -> bool {
        true
    }

    open spec fn from_spec(s: ExternalTrigger) -> u8 {
        s.spec_code()
    }
}

/// Whether an external trigger is listened to.
#[derive(Clone, Copy, Debug, PartialEq, Eq, Structural)]
pub enum TriggerMode {
    /// The external trigger is not listened to.
    Disabled,
    /// Rising edges of the external trigger start a conversion.
    RisingEdge,
}

impl TriggerMode {
    /// The bit that stands for the setting.
    pub open spec fn spec_bit(self) -> bool {
        self == TriggerMode::RisingEdge
    }
}

impl From<TriggerMode> for bool {
    fn from(s: TriggerMode) -> (b: bool) {
        match s {
            TriggerMode::Disabled => false,
            TriggerMode::RisingEdge => true,
        }
    }
}

impl FromSpecImpl<TriggerMode> for bool {
    open spec fn obeys_from_spec() -> bool {
        true
    }

    open spec fn from_spec(s: TriggerMode) -> bool {
        s.spec_bit()
    }
}

/// Alignment of the sample in the data register.
#[derive(Clone, Copy, Debug, PartialEq, Eq, Structural)]
pub enum Align {
    /// The sample is right aligned.
    Right,
    /// The sample is left aligned.
    Left,
}

impl Align {
    /// The bit that stands for the setting.
    pub open spec fn spec_bit(self) -> bool {
        self == Align::Left
    }
}

impl From<Align> for bool {
    fn from(s: Align) -> (b: bool) {
        match s {
            Align::Right => false,
            Align::Left => true,
        }
    }
}

impl FromSpecImpl<Align> for bool {
    open spec fn obeys_from_spec() -> bool {
        true
    }

    open spec fn from_spec(s: Align) -> bool {
        s.spec_bit()
    }
}

/// Whether the channels of the sequence are converted one after the other.
#[derive(Clone, Copy, Debug, PartialEq, Eq, Structural)]
pub enum SequenceMode {
    /// Sequence mode is off.
    Disabled,
    /// Sequence mode is on.
    Enabled,
}

impl SequenceMode {
    /// The bit that stands for the setting.
    pub open spec fn spec_bit(self) -> bool {
        self == SequenceMode::Enabled
    }
}

impl From<SequenceMode> for bool {
    fn from(s: SequenceMode) -> (b: bool) {
        match s {
            SequenceMode::Disabled => false,
            SequenceMode::Enabled => true,
        }
    }
}

impl FromSpecImpl<SequenceMode> for bool {
    open spec fn obeys_from_spec() -> bool {
        true
    }

    open spec fn from_spec(s: SequenceMode) -> bool {
        s.spec_bit()
    }
}

/// Whether conversions repeat.
#[derive(Clone, Copy, Debug, PartialEq, Eq, Structural)]
pub enum Continuous {
    /// One conversion.
    Single,
    /// Conversions repeat.
    Continuous,
}

impl Continuous {
    /// The bit that stands for the setting.
    pub open spec fn spec_bit(self) -> bool {
        self == Continuous::Continuous
    }
}

impl From<Continuous> for bool {
    fn from(s: Continuous) -> (b: bool) {
        match s {
            Continuous::Single => false,
            Continuous::Continuous => true,
        }
    }
}

impl FromSpecImpl<Continuous> for bool {
    open spec fn obeys_from_spec() -> bool {
        true
    }

    open spec fn from_spec(s: Continuous) -> bool {
        s.spec_bit()
    }
}

/// Use of DMA for the samples.
#[derive(Clone, Copy, Debug, PartialEq, Eq, Structural)]
pub enum Dma {
    /// No DMA.
    Disabled,
    /// DMA is switched off after each sequence.
    Single,
    /// DMA stays on.
    Continuous,
}

/// When the end of a conversion raises an interrupt.
#[derive(Clone, Copy, Debug, PartialEq, Eq, Structural)]
pub enum Eoc {
    /// Never.
    Disabled,
    /// After each conversion.
    Conversion,
    /// After each sequence.
    Sequence,
}

/// Settings of a converter.
#[derive(Clone, Copy, Debug, PartialEq, Eq)]
pub struct AdcConfig {
    pub clock: Clock,
    pub resolution: Resolution,
    pub align: Align,
    pub sequence: SequenceMode,
    pub external_trigger: (TriggerMode, ExternalTrigger),
    pub continuous: Continuous,
    pub dma: Dma,
    pub end_of_conversion_interrupt: Eoc,
    pub default_sample_time: SampleTime,
    /// Reference voltage in millivolts, where the caller knows it.
    pub vdda: Option<u32>,
}

impl AdcConfig {
    /// The settings a converter starts with: the fastest clock, 12 bits right
    /// aligned, one conversion of one channel started by software, sampled
    /// for 480 cycles, no DMA and no interrupt, reference voltage unknown.
    pub open spec fn spec_default() -> AdcConfig {
        AdcConfig {
            clock: Clock::Pclk2_div_2,
            resolution: Resolution::Twelve,
            align: Align::Right,
            sequence: SequenceMode::Disabled,
            external_trigger: (TriggerMode::Disabled, ExternalTrigger::Tim_1_cc_1),
            continuous: Continuous::Single,
            dma: Dma::Disabled,
            end_of_conversion_interrupt: Eoc::Disabled,
            default_sample_time: SampleTime::Cycles_480,
            vdda: None,
        }
    }

    /// Changes the clock.
    pub fn clock(self, clock: Clock) -> (c: Self)
        ensures
            c == (AdcConfig { clock, ..self }),
    {
        let mut c = self;
        c.clock = clock;
        c
    }

    /// Changes the resolution.
    pub fn resolution(self, resolution: Resolution) -> (c: Self)
        ensures
            c == (AdcConfig { resolution, ..self }),
    {
        let mut c = self;
        c.resolution = resolution;
        c
    }

    /// Changes the alignment.
    pub fn align(self, align: Align) -> (c: Self)
        ensures
            c == (AdcConfig { align, ..self }),
    {
        let mut c = self;
        c.align = align;
        c
    }

    /// Changes the sequence mode.
    pub fn sequence(self, sequence: SequenceMode) -> (c: Self)
        ensures
            c == (AdcConfig { sequence, ..self }),
    {
        let mut c = self;
        c.sequence = sequence;
        c
    }

    /// Changes the external trigger.
    pub fn external_trigger(self, trigger_mode: TriggerMode, trigger: ExternalTrigger) -> (c:
        Self)
        ensures
            c == (AdcConfig { external_trigger: (trigger_mode, trigger), ..self }),
    {
        let mut c = self;
        c.external_trigger = (trigger_mode, trigger);
        c
    }

    /// Changes whether conversions repeat.
    pub fn continuous(self, continuous: Continuous) -> (c: Self)
        ensures
            c == (AdcConfig { continuous, ..self }),
    {
        let mut c = self;
        c.continuous = continuous;
        c
    }

    /// Changes the use of DMA.
    pub fn dma(self, dma: Dma) -> (c: Self)
        ensures
            c == (AdcConfig { dma, ..self }),
    {
        let mut c = self;
        c.dma = dma;
        c
    }

    /// Changes the interrupt at the end of conversions.
    pub fn end_of_conversion_interrupt(self, end_of_conversion_interrupt: Eoc) -> (c: Self)
        ensures
            c == (AdcConfig { end_of_conversion_interrupt, ..self }),
    {
        let mut c = self;
        c.end_of_conversion_interrupt = end_of_conversion_interrupt;
        c
    }

    /// Changes the sample time that [`crate::adc::Adc::read`] uses.
    pub fn default_sample_time(self, default_sample_time: SampleTime) -> (c: Self)
        ensures
            c == (AdcConfig { default_sample_time, ..self }),
    {
        let mut c = self;
        c.default_sample_time = default_sample_time;
        c
    }

    /// States the reference voltage, in millivolts.
    pub fn reference_voltage(self, vdda_mv: u32) -> (c: Self)
        ensures
            c == (AdcConfig { vdda: Some(vdda_mv), ..self }),
    {
        let mut c = self;
        c.vdda = Some(vdda_mv);
        c
    }
}

impl Default for AdcConfig {
    fn default() -> (c: Self)
        ensures
            c == AdcConfig::spec_default(),
    {
        AdcConfig {
            clock: Clock::Pclk2_div_2,
            resolution: Resolution::Twelve,
            align: Align::Right,
            sequence: SequenceMode::Disabled,
            external_trigger: (TriggerMode::Disabled, ExternalTrigger::Tim_1_cc_1),
            continuous: Continuous::Single,
            dma: Dma::Disabled,
            end_of_conversion_interrupt: Eoc::Disabled,
            default_sample_time: SampleTime::Cycles_480,
            vdda: None,
        }
    }
}

} // verus!
