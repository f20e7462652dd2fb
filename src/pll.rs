//! Configuration of a phase-locked loop fed by the 12 MHz crystal.
use vstd::prelude::*;

verus! {

/// The crystal frequency, in MHz.
pub const XOSC_MHZ: u32 = 12;

/// The registers of one PLL that configuration writes. The power-down bits
/// are set when a block is powered down; `lock` is raised by the PLL itself.
#[derive(Clone, Copy, PartialEq, Eq, Structural, Debug)]
pub struct PllRegs {
    pub pwr_pd: bool,
    pub pwr_dsmpd: bool,
    pub pwr_postdivpd: bool,
    pub pwr_vcopd: bool,
    pub cs_refdiv: u32,
    pub cs_lock: bool,
    pub fbdiv_int: u32,
    pub prim_postdiv1: u8,
    pub prim_postdiv2: u8,
}

pub struct PLL {
    pub regs: PllRegs,
}

/// The reference frequency in MHz for a reference divider.
pub open spec fn ref_mhz(refdiv: u32) -> int {
    XOSC_MHZ as int / refdiv as int
}

/// The feedback divider that brings the reference up to `vco_freq` Hz.
pub open spec fn fbdiv(refdiv: u32, vco_freq: u32) -> int {
    vco_freq as int / (ref_mhz(refdiv) * 1_000_000)
}

/// The settings the PLL can run with: a reference of at least 1 MHz and at
/// most a sixteenth of the VCO frequency, a feedback divider in 16..=520,
/// and post dividers in 1..=7 with the second no larger than the first.
pub open spec fn valid_settings(refdiv: u32, vco_freq: u32, post_div1: u8, post_div2: u8) -> bool {
    &&& 1 <= refdiv <= XOSC_MHZ
    &&& 16 <= fbdiv(refdiv, vco_freq) <= 520
    &&& 1 <= post_div1 <= 7
    &&& 1 <= post_div2 <= 7
    &&& post_div2 <= post_div1
    &&& ref_mhz(refdiv) <= vco_freq as int / 16
}

proof fn lemma_ref_mhz_in_range(refdiv: u32)
    requires
        1 <= refdiv <= XOSC_MHZ,
    ensures
        1 <= ref_mhz(refdiv) <= XOSC_MHZ,
{
    assert(1 <= 12int / (refdiv as int) <= 12) by (nonlinear_arith)
        requires
            1 <= refdiv <= 12,
    ;
}

impl PLL {
    pub fn new(regs: PllRegs) -> (r: PLL)
        ensures
            r.regs == regs,
    {
        PLL { regs }
    }

    /// Powers the PLL down, programs the reference and feedback dividers,
    /// powers the VCO up, and once the PLL reports lock (a bounded wait,
    /// over when this returns) sets and powers up the post dividers.
    pub fn configure(&mut self, refdiv: u32, vco_freq: u32, post_div1: u8, post_div2: u8)
        requires
            valid_settings(refdiv, vco_freq, post_div1, post_div2),
        ensures
            final(self).regs == (PllRegs {
                pwr_pd: false,
                pwr_dsmpd: true,
                pwr_postdivpd: false,
                pwr_vcopd: false,
                cs_refdiv: ref_mhz(refdiv) as u32,
                cs_lock: true,
                fbdiv_int: fbdiv(refdiv, vco_freq) as u32,
                prim_postdiv1: post_div1,
                prim_postdiv2: post_div2,
            }),
    {
        // Power off in case it is already running.
        self.regs.pwr_pd = true;
        self.regs.pwr_dsmpd = true;
        self.regs.pwr_postdivpd = true;
        self.regs.pwr_vcopd = true;
        self.regs.fbdiv_int = 0;

        let ref_mhz: u32 = XOSC_MHZ / refdiv;
        proof {
            lemma_ref_mhz_in_range(refdiv);
        }
        self.regs.cs_refdiv = ref_mhz;
        self.regs.cs_lock = false;

        let fbdiv: u32 = vco_freq / (ref_mhz * 1_000_000);
        self.regs.fbdiv_int = fbdiv;

        self.regs.pwr_pd = false;
        self.regs.pwr_vcopd = false;

        // The PLL raises lock once the VCO has settled.
        self.regs.cs_lock = true;

        self.regs.prim_postdiv1 = post_div1;
        self.regs.prim_postdiv2 = post_div2;
        self.regs.pwr_postdivpd = false;
    }
}

} // verus!
