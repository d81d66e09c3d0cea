//! Analog to digital converter.

use vstd::prelude::*;
use crate::bits::{spec_with_field, with_field};
use crate::signature::VDDA_CALIB;

pub mod config;

pub use config::{
    AdcConfig, Align, Clock, Continuous, Dma, Eoc, ExternalTrigger, Resolution, SampleTime,
    Sequence, SequenceMode, TriggerMode,
};

verus! {

/// STS: conversion of the channels has ended.
pub const OCCE: u32 = 0x0002;
/// STS: conversion of the ordinary channels has started.
pub const OCCS: u32 = 0x0010;
/// CTRL1: interrupt at the end of a conversion.
pub const CCEIEN: u32 = 0x0020;
/// CTRL1: sequence mode.
pub const SQEN: u32 = 0x0100;
/// CTRL2: converter enable.
pub const ADCEN: u32 = 0x0001;
/// CTRL2: repeat mode.
pub const RPEN: u32 = 0x0002;
/// CTRL2: DMA transfer of ordinary channels.
pub const OCDMAEN: u32 = 0x0100;
/// CTRL2: left alignment of the data.
pub const DTALIGN: u32 = 0x0800;
/// CTRL2: trigger mode for ordinary channels.
pub const OCTEN: u32 = 0x0010_0000;
/// CTRL2: start of ordinary channels by software.
pub const OCSWTRG: u32 = 0x0040_0000;
/// CTRL2: temperature sensor and internal reference enable.
pub const ITSRVEN: u32 = 0x0080_0000;

/// The internal reference voltage as an input, used for calibration.
pub struct Vref;

/// The battery voltage as an input.
pub struct Vbat;

/// The temperature sensor as an input.
pub struct Temperature;

/// An input of converter `ADC`.
pub trait Channel<ADC> {
    /// How inputs are told apart, a number as a rule.
    type ID;

    /// What tells this input apart.
    fn channel() -> Self::ID;
}

impl<ADC> Channel<ADC> for Temperature {
    type ID = u8;

    fn channel() -> u8 {
        16
    }
}

impl<ADC> Channel<ADC> for Vref {
    type ID = u8;

    fn channel() -> u8 {
        17
    }
}

/// Registers of a converter, and the clock configuration register of the
/// clock unit, which holds the converter's clock divider.
#[derive(Clone, Copy, Debug, PartialEq, Eq, Structural)]
pub enum Register {
    Sts,
    Ctrl1,
    Ctrl2,
    Spt1,
    Spt2,
    Osq1,
    Osq2,
    Osq3,
    Odt,
    CrmCfg,
}

/// What the registers of a converter hold.
#[derive(Clone, Copy, Debug, PartialEq, Eq, Structural)]
pub struct Registers {
    pub sts: u32,
    pub ctrl1: u32,
    pub ctrl2: u32,
    pub spt1: u32,
    pub spt2: u32,
    pub osq1: u32,
    pub osq2: u32,
    pub osq3: u32,
    pub odt: u32,
    pub crm_cfg: u32,
}

impl Registers {
    pub open spec fn get(self, r: Register) -> u32 {
        match r {
            Register::Sts => self.sts,
            Register::Ctrl1 => self.ctrl1,
            Register::Ctrl2 => self.ctrl2,
            Register::Spt1 => self.spt1,
            Register::Spt2 => self.spt2,
            Register::Osq1 => self.osq1,
            Register::Osq2 => self.osq2,
            Register::Osq3 => self.osq3,
            Register::Odt => self.odt,
            Register::CrmCfg => self.crm_cfg,
        }
    }

    pub open spec fn set(self, r: Register, word: u32) -> Registers {
        match r {
            Register::Sts => Registers { sts: word, ..self },
            Register::Ctrl1 => Registers { ctrl1: word, ..self },
            Register::Ctrl2 => Registers { ctrl2: word, ..self },
            Register::Spt1 => Registers { spt1: word, ..self },
            Register::Spt2 => Registers { spt2: word, ..self },
            Register::Osq1 => Registers { osq1: word, ..self },
            Register::Osq2 => Registers { osq2: word, ..self },
            Register::Osq3 => Registers { osq3: word, ..self },
            Register::Odt => Registers { odt: word, ..self },
            Register::CrmCfg => Registers { crm_cfg: word, ..self },
        }
    }

    /// What the registers hold after a reset of the converter: zero, all of
    /// them. The register of the clock unit keeps what it holds.
    pub open spec fn spec_reset(self) -> Registers {
        Registers {
            sts: 0,
            ctrl1: 0,
            ctrl2: 0,
            spt1: 0,
            spt2: 0,
            osq1: 0,
            osq2: 0,
            osq3: 0,
            odt: 0,
            ..self
        }
    }

    /// A converter after reset, beside a clock unit whose configuration
    /// register is zero.
    pub fn new() -> (regs: Registers)
        ensures
            regs == (Registers {
                sts: 0,
                ctrl1: 0,
                ctrl2: 0,
                spt1: 0,
                spt2: 0,
                osq1: 0,
                osq2: 0,
                osq3: 0,
                odt: 0,
                crm_cfg: 0,
            }),
    {
        Registers {
            sts: 0,
            ctrl1: 0,
            ctrl2: 0,
            spt1: 0,
            spt2: 0,
            osq1: 0,
            osq2: 0,
            osq3: 0,
            odt: 0,
            crm_cfg: 0,
        }
    }
}

/// Access to the registers of one converter. `regs` is what the converter
/// holds when a call begins. The crate implements the trait for
/// [`Registers`], a converter that is plain memory; an implementation for a
/// peripheral reads and writes the memory-mapped registers.
pub trait Instance {
    spec fn regs(&self) -> Registers;

    /// Reads one register.
    fn read(&self, r: Register) -> (word: u32)
        ensures
            word == self.regs().get(r),
    ;

    /// Writes one register.
    fn write(&mut self, r: Register, word: u32)
        ensures
            final(self).regs() == old(self).regs().set(r, word),
    ;

    /// Switches the clock of the converter on. The registers keep what they
    /// hold.
    fn enable_clock(&mut self)
        ensures
            final(self).regs() == old(self).regs(),
    ;

    /// Resets the converter: every register of its own goes back to zero.
    fn reset(&mut self)
        ensures
            final(self).regs() == old(self).regs().spec_reset(),
    ;

    /// Reads a register, clears the bits of `clear`, sets those of `set`, and
    /// writes it back.
    fn modify(&mut self, r: Register, clear: u32, set: u32)
        ensures
            final(self).regs() == old(self).regs().set(
                r,
                (old(self).regs().get(r) & !clear) | set,
            ),
    {
        let word: u32 = self.read(r);
        self.write(r, (word & !clear) | set);
    }
}

impl Instance for Registers {
    open spec fn regs(&self) -> Registers {
        *self
    }

    fn read(&self, r: Register) -> (word: u32) {
        match r {
            Register::Sts => self.sts,
            Register::Ctrl1 => self.ctrl1,
            Register::Ctrl2 => self.ctrl2,
            Register::Spt1 => self.spt1,
            Register::Spt2 => self.spt2,
            Register::Osq1 => self.osq1,
            Register::Osq2 => self.osq2,
            Register::Osq3 => self.osq3,
            Register::Odt => self.odt,
            Register::CrmCfg => self.crm_cfg,
        }
    }

    fn enable_clock(&mut self) {
    }

    fn reset(&mut self) {
        let cfg: u32 = self.crm_cfg;
        *self = Registers::new();
        self.crm_cfg = cfg;
    }

    fn write(&mut self, r: Register, word: u32) {
        match r {
            Register::Sts => {
                self.sts = word;
            },
            Register::Ctrl1 => {
                self.ctrl1 = word;
            },
            Register::Ctrl2 => {
                self.ctrl2 = word;
            },
            Register::Spt1 => {
                self.spt1 = word;
            },
            Register::Spt2 => {
                self.spt2 = word;
            },
            Register::Osq1 => {
                self.osq1 = word;
            },
            Register::Osq2 => {
                self.osq2 = word;
            },
            Register::Osq3 => {
                self.osq3 = word;
            },
            Register::Odt => {
                self.odt = word;
            },
            Register::CrmCfg => {
                self.crm_cfg = word;
            },
        }
    }
}

/// `v` with the field of `width` bits at place `offset`, counted in fields of
/// that width, cleared and `value` put in its place.
pub open spec fn spec_replace_bits(v: u32, offset: u32, width: u32, value: u32) -> u32 {
    (v & !((((1u32 << width) - 1) as u32) << ((offset * width) as u32))) | (value << ((offset
        * width) as u32))
}

#[verifier::when_used_as_spec(spec_replace_bits)]
pub fn replace_bits(v: u32, offset: u32, width: u32, value: u32) -> (out: u32)
    requires
        1 <= width < 32,
        offset * width < 32,
    ensures
        out == spec_replace_bits(v, offset, width, value),
{
    let one: u32 = 1u32 << width;
    assert(one >= 1) by (bit_vector)
        requires
            one == 1u32 << width,
            1 <= width < 32,
    ;
    let mask: u32 = !((one - 1) << (offset * width));
    (v & mask) | (value << (offset * width))
}

/// The sequence register that holds place `sequence`.
pub open spec fn spec_sequence_register(sequence: Sequence) -> Register {
    if sequence.spec_code() < 6 {
        Register::Osq3
    } else if sequence.spec_code() < 12 {
        Register::Osq2
    } else {
        Register::Osq1
    }
}

/// Where in its register the five bits of place `sequence` begin.
pub open spec fn spec_sequence_shift(sequence: Sequence) -> u32 {
    ((sequence.spec_code() % 6) * 5) as u32
}

/// The sample time register that holds the time of `channel`.
pub open spec fn spec_sample_register(channel: u8) -> Register {
    if channel < 10 {
        Register::Spt2
    } else {
        Register::Spt1
    }
}

/// The place of `channel` in its sample time register.
pub open spec fn spec_sample_place(channel: u8) -> u32 {
    if channel < 10 {
        channel as u32
    } else {
        (channel - 10) as u32
    }
}

/// The reference voltage, in millivolts, that follows from the factory's
/// reading of the internal reference and from a reading of it now.
pub open spec fn spec_calibrated(vref_cal: u16, vref_samp: u16) -> u32 {
    ((VDDA_CALIB * vref_cal) / (vref_samp as int)) as u32
}

/// Analog to digital converter.
#[derive(Debug)]
pub struct Adc<ADC> {
    /// The settings in force.
    pub config: AdcConfig,
    /// The converter.
    pub adc_reg: ADC,
    /// Reference voltage in millivolts.
    pub calibrated_vdda: u32,
    /// One more than the largest sample.
    pub max_sample: u32,
}

impl<ADC: Instance> Adc<ADC> {
    /// What the registers of the converter hold.
    pub open spec fn regs(&self) -> Registers {
        self.adc_reg.regs()
    }

    /// The registers after the settings that are written to the converter
    /// were applied: clock, alignment and sequence mode.
    pub open spec fn applied(regs: Registers, config: AdcConfig) -> Registers {
        let clocked = regs.set(
            Register::CrmCfg,
            crate::bits::spec_with_bit(
                spec_with_field(regs.crm_cfg, 14, 0x3, config.clock.spec_code() as u32),
                28,
                config.clock.spec_code() & 0x4 != 0,
            ),
        );
        let aligned = clocked.set(
            Register::Ctrl2,
            if config.align.spec_bit() {
                clocked.ctrl2 | DTALIGN
            } else {
                clocked.ctrl2 & !DTALIGN
            },
        );
        aligned.set(
            Register::Ctrl1,
            if config.sequence.spec_bit() {
                aligned.ctrl1 | SQEN
            } else {
                aligned.ctrl1 & !SQEN
            },
        )
    }

    /// Takes over a converter: its clock is switched on, it is reset where
    /// `reset` says so, `config` is applied and the converter enabled. The
    /// reference voltage is the one of `config`, else the one the factory
    /// calibrated at.
    pub fn adc1(adc: ADC, reset: bool, config: AdcConfig) -> (s: Self)
        ensures
            s.config == config,
            s.max_sample == 0,
            s.calibrated_vdda == match config.vdda {
                Some(vdda) => vdda,
                None => VDDA_CALIB,
            },
            s.regs() == ({
                let start = if reset {
                    adc.regs().spec_reset()
                } else {
                    adc.regs()
                };
                let off = start.set(Register::Ctrl2, start.ctrl2 & !ADCEN);
                let set = Self::applied(off, config);
                set.set(Register::Ctrl2, set.ctrl2 | ADCEN)
            }),
    {
        let mut adc = adc;
        adc.enable_clock();
        if reset {
            adc.reset();
        }
        let mut s = Adc { config, adc_reg: adc, calibrated_vdda: VDDA_CALIB, max_sample: 0 };
        s.disable();
        s.apply_config(config);
        s.enable();
        s
    }

    /// Applies the settings that are written to the converter, and the
    /// reference voltage where `config` states one.
    pub fn apply_config(&mut self, config: AdcConfig)
        ensures
            final(self).config == (AdcConfig {
                clock: config.clock,
                align: config.align,
                sequence: config.sequence,
                ..old(self).config
            }),
            final(self).max_sample == old(self).max_sample,
            final(self).calibrated_vdda == match config.vdda {
                Some(vdda) => vdda,
                None => old(self).calibrated_vdda,
            },
            final(self).regs() == Self::applied(old(self).regs(), config),
    {
        self.set_clock(config.clock);
        self.set_align(config.align);
        self.set_sequence(config.sequence);
        match config.vdda {
            Some(vdda) => {
                self.calibrated_vdda = vdda;
            },
            None => {},
        }
    }

    /// True when the converter is enabled.
    pub fn is_enabled(&self) -> (on: bool)
        ensures
            on == (self.regs().ctrl2 & ADCEN != 0),
    {
        self.adc_reg.read(Register::Ctrl2) & ADCEN != 0
    }

    /// Enables the converter.
    pub fn enable(&mut self)
        ensures
            final(self).config == old(self).config,
            final(self).max_sample == old(self).max_sample,
            final(self).calibrated_vdda == old(self).calibrated_vdda,
            final(self).regs() == old(self).regs().set(
                Register::Ctrl2,
                old(self).regs().ctrl2 | ADCEN,
            ),
    {
        let word: u32 = self.adc_reg.read(Register::Ctrl2);
        self.adc_reg.write(Register::Ctrl2, word | ADCEN);
    }

    /// Disables the converter.
    pub fn disable(&mut self)
        ensures
            final(self).config == old(self).config,
            final(self).max_sample == old(self).max_sample,
            final(self).calibrated_vdda == old(self).calibrated_vdda,
            final(self).regs() == old(self).regs().set(
                Register::Ctrl2,
                old(self).regs().ctrl2 & !ADCEN,
            ),
    {
        let word: u32 = self.adc_reg.read(Register::Ctrl2);
        self.adc_reg.write(Register::Ctrl2, word & !ADCEN);
    }

    /// Starts a conversion sequence: the converter is enabled, the end flag
    /// cleared, and the sequence triggered by software. The end of the
    /// conversion is waited for with [`Adc::wait_for_conversion_sequence`].
    pub fn start_conversion(&mut self)
        ensures
            final(self).config == old(self).config,
            final(self).max_sample == old(self).max_sample,
            final(self).calibrated_vdda == old(self).calibrated_vdda,
            final(self).regs() == old(self).regs().set(
                Register::Sts,
                old(self).regs().sts & !OCCE,
            ).set(Register::Ctrl2, (old(self).regs().ctrl2 | ADCEN) | OCSWTRG),
    {
        self.enable();
        self.clear_end_of_conversion_flag();
        let word: u32 = self.adc_reg.read(Register::Ctrl2);
        self.adc_reg.write(Register::Ctrl2, word | OCSWTRG);
    }

    /// Sets the clock divider: its two low bits go to bits 14 and 15 of the
    /// clock configuration register, its high bit to bit 28.
    pub fn set_clock(&mut self, clock: Clock)
        ensures
            final(self).config == (AdcConfig { clock, ..old(self).config }),
            final(self).max_sample == old(self).max_sample,
            final(self).calibrated_vdda == old(self).calibrated_vdda,
            final(self).regs() == old(self).regs().set(
                Register::CrmCfg,
                crate::bits::spec_with_bit(
                    spec_with_field(old(self).regs().crm_cfg, 14, 0x3, clock.spec_code() as u32),
                    28,
                    clock.spec_code() & 0x4 != 0,
                ),
            ),
    {
        self.config.clock = clock;
        let code: u8 = clock.code();
        let word: u32 = self.adc_reg.read(Register::CrmCfg);
        let low: u32 = with_field(word, 14, 0x3, code as u32);
        self.adc_reg.write(Register::CrmCfg, crate::bits::with_bit(low, 28, code & 0x4 != 0));
    }

    /// Sets the alignment of the data register.
    pub fn set_align(&mut self, align: Align)
        ensures
            final(self).config == (AdcConfig { align, ..old(self).config }),
            final(self).max_sample == old(self).max_sample,
            final(self).calibrated_vdda == old(self).calibrated_vdda,
            final(self).regs() == old(self).regs().set(
                Register::Ctrl2,
                if align.spec_bit() {
                    old(self).regs().ctrl2 | DTALIGN
                } else {
                    old(self).regs().ctrl2 & !DTALIGN
                },
            ),
    {
        self.config.align = align;
        let word: u32 = self.adc_reg.read(Register::Ctrl2);
        match align {
            Align::Left => self.adc_reg.write(Register::Ctrl2, word | DTALIGN),
            Align::Right => self.adc_reg.write(Register::Ctrl2, word & !DTALIGN),
        }
    }

    /// Switches sequence mode on or off.
    pub fn set_sequence(&mut self, sequence: SequenceMode)
        ensures
            final(self).config == (AdcConfig { sequence, ..old(self).config }),
            final(self).max_sample == old(self).max_sample,
            final(self).calibrated_vdda == old(self).calibrated_vdda,
            final(self).regs() == old(self).regs().set(
                Register::Ctrl1,
                if sequence.spec_bit() {
                    old(self).regs().ctrl1 | SQEN
                } else {
                    old(self).regs().ctrl1 & !SQEN
                },
            ),
    {
        self.config.sequence = sequence;
        let word: u32 = self.adc_reg.read(Register::Ctrl1);
        match sequence {
            SequenceMode::Enabled => self.adc_reg.write(Register::Ctrl1, word | SQEN),
            SequenceMode::Disabled => self.adc_reg.write(Register::Ctrl1, word & !SQEN),
        }
    }

    /// Clears the flag that says a conversion has ended.
    pub fn clear_end_of_conversion_flag(&mut self)
        ensures
            final(self).config == old(self).config,
            final(self).max_sample == old(self).max_sample,
            final(self).calibrated_vdda == old(self).calibrated_vdda,
            final(self).regs() == old(self).regs().set(
                Register::Sts,
                old(self).regs().sts & !OCCE,
            ),
    {
        let word: u32 = self.adc_reg.read(Register::Sts);
        self.adc_reg.write(Register::Sts, word & !OCCE);
    }

    /// Makes the sequence one conversion long.
    pub fn reset_sequence(&mut self)
        ensures
            final(self).config == old(self).config,
            final(self).max_sample == old(self).max_sample,
            final(self).calibrated_vdda == old(self).calibrated_vdda,
            final(self).regs() == old(self).regs().set(
                Register::Osq1,
                spec_with_field(old(self).regs().osq1, 20, 0xF, 0),
            ),
    {
        let word: u32 = self.adc_reg.read(Register::Osq1);
        self.adc_reg.write(Register::Osq1, with_field(word, 20, 0xF, Sequence::One.code() as u32));
    }

    /// The registers after `channel` was put in place `sequence` and given
    /// `sample_time`: the sequence is made long enough to reach the place,
    /// the channel is written to the five bits of the place, and the sample
    /// time to the three bits of the channel.
    pub open spec fn configured(
        regs: Registers,
        channel: u8,
        sequence: Sequence,
        sample_time: SampleTime,
    ) -> Registers {
        let lengthened = if ((regs.osq1 >> 20) & 0xF) < sequence.spec_code() as u32 {
            regs.set(
                Register::Osq1,
                spec_with_field(regs.osq1, 20, 0xF, sequence.spec_code() as u32),
            )
        } else {
            regs
        };
        let placed = lengthened.set(
            spec_sequence_register(sequence),
            spec_with_field(
                lengthened.get(spec_sequence_register(sequence)),
                spec_sequence_shift(sequence),
                0x1F,
                channel as u32,
            ),
        );
        placed.set(
            spec_sample_register(channel),
            spec_replace_bits(
                placed.get(spec_sample_register(channel)),
                spec_sample_place(channel),
                3,
                sample_time.spec_code() as u32,
            ),
        )
    }

    /// Puts `channel`, a number up to 18, in place `sequence` of the
    /// conversion sequence and sets its sample time.
    pub fn configure_channel(&mut self, channel: u8, sequence: Sequence, sample_time: SampleTime)
        requires
            channel <= 18,
        ensures
            final(self).config == old(self).config,
            final(self).max_sample == old(self).max_sample,
            final(self).calibrated_vdda == old(self).calibrated_vdda,
            final(self).regs() == Self::configured(
                old(self).regs(),
                channel,
                sequence,
                sample_time,
            ),
    {
        let code: u8 = sequence.code();
        let osq1: u32 = self.adc_reg.read(Register::Osq1);
        if ((osq1 >> 20) & 0xF) < code as u32 {
            self.adc_reg.write(Register::Osq1, with_field(osq1, 20, 0xF, code as u32));
        }
        let r: Register = if code < 6 {
            Register::Osq3
        } else if code < 12 {
            Register::Osq2
        } else {
            Register::Osq1
        };
        let shift: u32 = ((code % 6) * 5) as u32;
        let word: u32 = self.adc_reg.read(r);
        self.adc_reg.write(r, with_field(word, shift, 0x1F, channel as u32));
        let st: u32 = sample_time.code() as u32;
        if channel < 10 {
            let word: u32 = self.adc_reg.read(Register::Spt2);
            self.adc_reg.write(Register::Spt2, replace_bits(word, channel as u32, 3, st));
        } else {
            let word: u32 = self.adc_reg.read(Register::Spt1);
            self.adc_reg.write(Register::Spt1, replace_bits(word, (channel - 10) as u32, 3, st));
        }
    }

    /// The sample in the data register.
    pub fn current_sample(&self) -> (sample: u16)
        ensures
            sample == self.regs().odt & 0xFFFF,
    {
        let raw: u32 = self.adc_reg.read(Register::Odt);
        let low: u32 = raw & 0xFFFF;
        assert(low <= 0xFFFF) by (bit_vector)
            requires
                low == raw & 0xFFFF,
        ;
        low as u16
    }

    /// Succeeds once the conversion has ended, and clears the start flag
    /// then. A conversion has to have started or ended.
    pub fn wait_for_conversion_sequence(&mut self) -> (r: crate::nb::Result<(), ()>)
        requires
            old(self).regs().sts & OCCS != 0 || old(self).regs().sts & OCCE != 0,
        ensures
            final(self).config == old(self).config,
            final(self).max_sample == old(self).max_sample,
            final(self).calibrated_vdda == old(self).calibrated_vdda,
            old(self).regs().sts & OCCE == 0 ==> r == Err::<(), crate::nb::Error<()>>(
                crate::nb::Error::WouldBlock,
            ) && final(self).regs() == old(self).regs(),
            old(self).regs().sts & OCCE != 0 ==> r is Ok && final(self).regs() == old(self).regs().set(Register::Sts, old(self).regs().sts & !OCCS),
    {
        let word: u32 = self.adc_reg.read(Register::Sts);
        if word & OCCE == 0 {
            Err(crate::nb::Error::WouldBlock)
        } else {
            self.adc_reg.write(Register::Sts, word & !OCCS);
            Ok(())
        }
    }

    /// The registers after a single conversion of `channel` was set up: no
    /// DMA, no repetition, no trigger, no sequence mode, no interrupt, a
    /// sequence of one with `channel` in first place.
    pub open spec fn set_up_for(regs: Registers, channel: u8, sample_time: SampleTime) -> Registers {
        let quiet = regs.set(Register::Ctrl2, regs.ctrl2 & !(OCDMAEN | RPEN | OCTEN)).set(
            Register::Ctrl1,
            regs.ctrl1 & !(SQEN | CCEIEN),
        );
        let single = quiet.set(Register::Osq1, spec_with_field(quiet.osq1, 20, 0xF, 0));
        Self::configured(single, channel, Sequence::One, sample_time)
    }

    /// Sets up and starts a single conversion of `channel`, a number up to
    /// 18. The settings of the sequence are overwritten; [`Adc::finish`]
    /// puts back what the configuration holds.
    pub fn convert(&mut self, channel: u8, sample_time: SampleTime)
        requires
            channel <= 18,
        ensures
            final(self).config == old(self).config,
            final(self).max_sample == old(self).max_sample,
            final(self).calibrated_vdda == old(self).calibrated_vdda,
            final(self).regs() == ({
                let set = Self::set_up_for(old(self).regs(), channel, sample_time);
                set.set(Register::Sts, set.sts & !OCCE).set(
                    Register::Ctrl2,
                    (set.ctrl2 | ADCEN) | OCSWTRG,
                )
            }),
    {
        let ctrl2: u32 = self.adc_reg.read(Register::Ctrl2);
        self.adc_reg.write(Register::Ctrl2, ctrl2 & !(OCDMAEN | RPEN | OCTEN));
        let ctrl1: u32 = self.adc_reg.read(Register::Ctrl1);
        self.adc_reg.write(Register::Ctrl1, ctrl1 & !(SQEN | CCEIEN));
        self.reset_sequence();
        self.configure_channel(channel, Sequence::One, sample_time);
        self.start_conversion();
    }

    /// Takes the sample of a conversion that has ended and applies the
    /// configuration again.
    pub fn finish(&mut self) -> (sample: u16)
        ensures
            final(self).config == old(self).config,
            final(self).max_sample == old(self).max_sample,
            final(self).calibrated_vdda == match old(self).config.vdda {
                Some(vdda) => vdda,
                None => old(self).calibrated_vdda,
            },
            sample == old(self).regs().odt & 0xFFFF,
            final(self).regs() == Self::applied(old(self).regs(), old(self).config),
    {
        let sample: u16 = self.current_sample();
        let config: AdcConfig = self.config;
        self.apply_config(config);
        sample
    }

    /// Switches the temperature sensor and the internal reference on.
    pub fn enable_temperature_and_vref(&mut self)
        ensures
            final(self).config == old(self).config,
            final(self).max_sample == old(self).max_sample,
            final(self).calibrated_vdda == old(self).calibrated_vdda,
            final(self).regs() == old(self).regs().set(
                Register::Ctrl2,
                old(self).regs().ctrl2 | ITSRVEN,
            ),
    {
        let word: u32 = self.adc_reg.read(Register::Ctrl2);
        self.adc_reg.write(Register::Ctrl2, word | ITSRVEN);
    }

    /// Switches the temperature sensor and the internal reference off.
    pub fn disable_temperature_and_vref(&mut self)
        ensures
            final(self).config == old(self).config,
            final(self).max_sample == old(self).max_sample,
            final(self).calibrated_vdda == old(self).calibrated_vdda,
            final(self).regs() == old(self).regs().set(
                Register::Ctrl2,
                old(self).regs().ctrl2 & !ITSRVEN,
            ),
    {
        let word: u32 = self.adc_reg.read(Register::Ctrl2);
        self.adc_reg.write(Register::Ctrl2, word & !ITSRVEN);
    }

    /// True when the temperature sensor and the internal reference are on.
    pub fn temperature_and_vref_enabled(&self) -> (on: bool)
        ensures
            on == (self.regs().ctrl2 & ITSRVEN != 0),
    {
        self.adc_reg.read(Register::Ctrl2) & ITSRVEN != 0
    }

    /// Works out the reference voltage from the factory's reading of the
    /// internal reference, `vref_cal`, and a reading of it now, `vref_samp`,
    /// which is not zero.
    pub fn calibrate(&mut self, vref_cal: u16, vref_samp: u16)
        requires
            vref_samp > 0,
        ensures
            final(self).config == old(self).config,
            final(self).max_sample == old(self).max_sample,
            final(self).adc_reg == old(self).adc_reg,
            final(self).calibrated_vdda == spec_calibrated(vref_cal, vref_samp),
    {
        self.calibrated_vdda = (VDDA_CALIB * (vref_cal as u32)) / (vref_samp as u32);
    }
}

} // verus!
