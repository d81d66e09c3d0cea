//! Phase-locked loop of the system clock.

use vstd::prelude::*;
use super::{Instance, Register, Registers};

verus! {

/// CFG: the PLL takes the external oscillator as its reference.
pub const PLLRCS: u32 = 0x0001_0000;
/// CFG: the external oscillator is halved on its way to the PLL.
pub const PLLHEXTDIV: u32 = 0x0002_0000;
/// PLL: the fields of this register, not those of CFG, set the PLL up.
pub const PLLCFGEN: u32 = 0x8000_0000;
/// Divider of the reference clock.
pub const PLL_MS: u32 = 1;
/// Multiplier of the PLL.
pub const PLL_NS: u32 = 192;
/// Divider of the PLL output.
pub const PLL_FR: u32 = 8;
/// The value that stands for the output divider in its field.
pub const PLL_FR_BITS: u32 = 3;
/// The PLL register word: configuration enabled, reference divider in bits 4
/// to 7, multiplier in bits 8 to 16, output divider in bits 0 to 2.
pub const PLL_WORD: u32 = 0x8000_C013;

/// Whether the PLL runs, and the clocks it gives, in hertz.
#[derive(Clone, Copy, Debug, PartialEq, Eq)]
pub struct MainPll {
    pub use_pll: bool,
    pub pllsclk: Option<u32>,
    pub pll48clk: Option<u32>,
}

/// The clock that the PLL gives from a reference of `pllsrcclk` hertz.
pub open spec fn spec_output(pllsrcclk: u32) -> int {
    pllsrcclk as int / 1 * 192 / 8
}

/// The CFG word with the reference of the PLL chosen.
pub open spec fn spec_source_word(cfg: u32, use_hext: bool, hext_div2: Option<bool>) -> u32 {
    let chosen = if use_hext {
        cfg | PLLRCS
    } else {
        cfg & !PLLRCS
    };
    if hext_div2 == Some(true) {
        chosen | PLLHEXTDIV
    } else {
        chosen & !PLLHEXTDIV
    }
}

impl MainPll {
    /// True when the PLL is needed: a system clock is asked for, or the
    /// 48 MHz clock is.
    pub open spec fn needed(pllsclk: Option<u32>, pll48clk: bool) -> bool {
        pllsclk is Some || pll48clk
    }

    /// Sets the PLL up, where it is needed, for a reference of `pllsrcclk`
    /// hertz: the reference is chosen and the PLL is set to multiply by 192
    /// and divide by 8. Says which clocks result. Where the PLL is not
    /// needed nothing is written.
    pub fn fast_setup<CRM: Instance>(
        crm: &mut CRM,
        pllsrcclk: u32,
        use_hext: bool,
        hext_div2: Option<bool>,
        pllsclk: Option<u32>,
        pll48clk: bool,
    ) -> (pll: MainPll)
        requires
            Self::needed(pllsclk, pll48clk) ==> pllsrcclk * 192 <= u32::MAX && (match pllsclk {
                Some(sclk) => sclk > 0,
                None => pllsrcclk > 0,
            }),
        ensures
            !Self::needed(pllsclk, pll48clk) ==> final(crm).regs() == old(crm).regs()
                && pll.use_pll == false && pll.pllsclk is None && pll.pll48clk is None,
            Self::needed(pllsclk, pll48clk) ==> final(crm).regs() == (Registers {
                cfg: spec_source_word(old(crm).regs().cfg, use_hext, hext_div2),
                pll: PLL_WORD,
                ..old(crm).regs()
            }) && pll.use_pll && pll.pllsclk == Some(spec_output(pllsrcclk) as u32)
                && pll.pll48clk == (if pll48clk {
                Some(spec_output(pllsrcclk) as u32)
            } else {
                None::<u32>
            }),
    {
        let sclk: u32 = match pllsclk {
            Some(sclk) => sclk,
            None => pllsrcclk,
        };
        if pllsclk.is_none() && !pll48clk {
            return MainPll { use_pll: false, pll48clk: None, pllsclk: None };
        }
        let _sclk_div: u32 = 432_000_000 / sclk;
        let cfg: u32 = crm.read(Register::Cfg);
        let chosen: u32 = if use_hext {
            cfg | PLLRCS
        } else {
            cfg & !PLLRCS
        };
        let halved: bool = match hext_div2 {
            Some(b) => b,
            None => false,
        };
        if halved {
            crm.write(Register::Cfg, chosen | PLLHEXTDIV);
        } else {
            crm.write(Register::Cfg, chosen & !PLLHEXTDIV);
        }
        crm.write(Register::Pll, PLL_WORD);
        let real_pllsclk: u32 = pllsrcclk / PLL_MS * PLL_NS / PLL_FR;
        MainPll {
            use_pll: true,
            pllsclk: Some(real_pllsclk),
            pll48clk: if pll48clk {
                Some(real_pllsclk)
            } else {
                None
            },
        }
    }
}

} // verus!
