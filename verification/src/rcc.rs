//! Reset and clock control: the clock-tree configuration of the host
//! microcontroller, modelled as the pure arithmetic that turns a selected
//! system clock source and the bus prescalers into the frozen bus
//! frequencies. Programming the configuration into the hardware registers is
//! the hardware layer's business; everything here is computation.

use vstd::prelude::*;

verus! {

/// Frequency of the always-available medium-speed internal oscillator.
pub const MSI_FREQ: u32 = 2_097_000;

/// Frequency of the high-speed internal oscillator.
pub const HSI_FREQ: u32 = 16_000_000;

/// Highest frequency the core and the buses may run at.
pub const MAX_SYSCLK: u32 = 32_000_000;

/// A frequency in Hertz.
#[derive(Debug, Clone, Copy, PartialEq, Eq, Structural)]
pub struct Hertz(pub u32);

/// AHB prescaler values.
#[derive(Debug, Clone, Copy, PartialEq, Eq, Structural)]
pub enum AHBPrescaler {
    /// System clock not divided.
    Div1,
    /// System clock divided by 2.
    Div2,
    /// System clock divided by 4.
    Div4,
    /// System clock divided by 8.
    Div8,
    /// System clock divided by 16.
    Div16,
    /// System clock divided by 64.
    Div64,
    /// System clock divided by 128.
    Div128,
    /// System clock divided by 256.
    Div256,
    /// System clock divided by 512.
    Div512,
}

/// APB prescaler values.
#[derive(Debug, Clone, Copy, PartialEq, Eq, Structural)]
pub enum APBPrescaler {
    /// AHB clock not divided.
    Div1,
    /// AHB clock divided by 2.
    Div2,
    /// AHB clock divided by 4.
    Div4,
    /// AHB clock divided by 8.
    Div8,
    /// AHB clock divided by 16.
    Div16,
}

/// PLL multiplication factors.
#[derive(Debug, Clone, Copy, PartialEq, Eq, Structural)]
pub enum PllMultiplier {
    /// PLL output = PLL clock entry x3.
    X3,
    /// PLL output = PLL clock entry x4.
    X4,
    /// PLL output = PLL clock entry x6.
    X6,
    /// PLL output = PLL clock entry x8.
    X8,
    /// PLL output = PLL clock entry x12.
    X12,
    /// PLL output = PLL clock entry x16.
    X16,
    /// PLL output = PLL clock entry x24.
    X24,
    /// PLL output = PLL clock entry x32.
    X32,
    /// PLL output = PLL clock entry x48.
    X48,
}

/// PLL output division.
#[derive(Debug, Clone, Copy, PartialEq, Eq, Structural)]
pub enum PllDivider {
    /// PLL clock output divided by 2.
    Div2,
    /// PLL clock output divided by 3.
    Div3,
    /// PLL clock output divided by 4.
    Div4,
}

/// PLL entry clock source.
#[derive(Debug, Clone, Copy, PartialEq, Eq, Structural)]
pub enum PllSource {
    /// High-speed internal oscillator selected as PLL input clock.
    HSI,
    /// High-speed external oscillator selected as PLL input clock.
    HSE(Hertz),
}

/// System clock source.
#[derive(Debug, Clone, Copy, PartialEq, Eq, Structural)]
pub enum SystemClock {
    /// Medium-speed internal oscillator.
    MSI,
    /// High-speed internal oscillator.
    HSI,
    /// High-speed external oscillator.
    HSE(Hertz),
    /// PLL output.
    PLL(PllSource, PllMultiplier, PllDivider),
}

/// What the AHB prescaler divides the system clock by.
pub open spec fn ahb_divisor(p: AHBPrescaler) -> int {
    match p {
        AHBPrescaler::Div1 => 1,
        AHBPrescaler::Div2 => 2,
        AHBPrescaler::Div4 => 4,
        AHBPrescaler::Div8 => 8,
        AHBPrescaler::Div16 => 16,
        AHBPrescaler::Div64 => 64,
        AHBPrescaler::Div128 => 128,
        AHBPrescaler::Div256 => 256,
        AHBPrescaler::Div512 => 512,
    }
}

/// What the APB prescaler divides the AHB clock by.
pub open spec fn apb_divisor(p: APBPrescaler) -> int {
    match p {
        APBPrescaler::Div1 => 1,
        APBPrescaler::Div2 => 2,
        APBPrescaler::Div4 => 4,
        APBPrescaler::Div8 => 8,
        APBPrescaler::Div16 => 16,
    }
}

/// What the PLL multiplies its input by.
pub open spec fn pll_factor(m: PllMultiplier) -> int {
    match m {
        PllMultiplier::X3 => 3,
        PllMultiplier::X4 => 4,
        PllMultiplier::X6 => 6,
        PllMultiplier::X8 => 8,
        PllMultiplier::X12 => 12,
        PllMultiplier::X16 => 16,
        PllMultiplier::X24 => 24,
        PllMultiplier::X32 => 32,
        PllMultiplier::X48 => 48,
    }
}

/// What the PLL divides its multiplied output by.
pub open spec fn pll_divisor(d: PllDivider) -> int {
    match d {
        PllDivider::Div2 => 2,
        PllDivider::Div3 => 3,
        PllDivider::Div4 => 4,
    }
}

/// Frequency of the PLL's input clock.
pub open spec fn pll_input_hz(s: PllSource) -> int {
    match s {
        PllSource::HSI => HSI_FREQ as int,
        PllSource::HSE(f) => f.0 as int,
    }
}

/// Frequency that the selected system clock source produces.
pub open spec fn sysclk_hz(sc: SystemClock) -> int {
    match sc {
        SystemClock::MSI => MSI_FREQ as int,
        SystemClock::HSI => HSI_FREQ as int,
        SystemClock::HSE(f) => f.0 as int,
        SystemClock::PLL(s, m, d) => pll_input_hz(s) * pll_factor(m) / pll_divisor(d),
    }
}

/// Which clock sources the configuration sequence supports.
pub open spec fn clock_supported(sc: SystemClock) -> bool {
    sc is MSI || sc is PLL
}

impl AHBPrescaler {
    /// The register encoding of this prescaler.
    pub fn bits(self) -> (r: u8)
        ensures
            r == match self {
                AHBPrescaler::Div1 => 0b0111u8,
                AHBPrescaler::Div2 => 0b1000u8,
                AHBPrescaler::Div4 => 0b1001u8,
                AHBPrescaler::Div8 => 0b1010u8,
                AHBPrescaler::Div16 => 0b1011u8,
                AHBPrescaler::Div64 => 0b1100u8,
                AHBPrescaler::Div128 => 0b1101u8,
                AHBPrescaler::Div256 => 0b1110u8,
                AHBPrescaler::Div512 => 0b1111u8,
            },
    {
        match self {
            AHBPrescaler::Div1 => 0b0111,
            AHBPrescaler::Div2 => 0b1000,
            AHBPrescaler::Div4 => 0b1001,
            AHBPrescaler::Div8 => 0b1010,
            AHBPrescaler::Div16 => 0b1011,
            AHBPrescaler::Div64 => 0b1100,
            AHBPrescaler::Div128 => 0b1101,
            AHBPrescaler::Div256 => 0b1110,
            AHBPrescaler::Div512 => 0b1111,
        }
    }

    /// The division this prescaler performs.
    pub fn divisor(self) -> (r: u32)
        ensures
            r as int == ahb_divisor(self),
    {
        match self {
            AHBPrescaler::Div1 => 1,
            AHBPrescaler::Div2 => 2,
            AHBPrescaler::Div4 => 4,
            AHBPrescaler::Div8 => 8,
            AHBPrescaler::Div16 => 16,
            AHBPrescaler::Div64 => 64,
            AHBPrescaler::Div128 => 128,
            AHBPrescaler::Div256 => 256,
            AHBPrescaler::Div512 => 512,
        }
    }
}

impl APBPrescaler {
    /// The register encoding of this prescaler.
    pub fn bits(self) -> (r: u8)
        ensures
            r == match self {
                APBPrescaler::Div1 => 0b011u8,
                APBPrescaler::Div2 => 0b100u8,
                APBPrescaler::Div4 => 0b101u8,
                APBPrescaler::Div8 => 0b110u8,
                APBPrescaler::Div16 => 0b111u8,
            },
    {
        match self {
            APBPrescaler::Div1 => 0b011,
            APBPrescaler::Div2 => 0b100,
            APBPrescaler::Div4 => 0b101,
            APBPrescaler::Div8 => 0b110,
            APBPrescaler::Div16 => 0b111,
        }
    }

    /// The division this prescaler performs.
    pub fn divisor(self) -> (r: u32)
        ensures
            r as int == apb_divisor(self),
            1 <= r <= 16,
    {
        match self {
            APBPrescaler::Div1 => 1,
            APBPrescaler::Div2 => 2,
            APBPrescaler::Div4 => 4,
            APBPrescaler::Div8 => 8,
            APBPrescaler::Div16 => 16,
        }
    }
}

impl PllMultiplier {
    /// The register encoding of this multiplier.
    pub fn bits(self) -> (r: u8)
        ensures
            r == match self {
                PllMultiplier::X3 => 0b0000u8,
                PllMultiplier::X4 => 0b0001u8,
                PllMultiplier::X6 => 0b0010u8,
                PllMultiplier::X8 => 0b0011u8,
                PllMultiplier::X12 => 0b0100u8,
                PllMultiplier::X16 => 0b0101u8,
                PllMultiplier::X24 => 0b0110u8,
                PllMultiplier::X32 => 0b0111u8,
                PllMultiplier::X48 => 0b1000u8,
            },
    {
        match self {
            PllMultiplier::X3 => 0b0000,
            PllMultiplier::X4 => 0b0001,
            PllMultiplier::X6 => 0b0010,
            PllMultiplier::X8 => 0b0011,
            PllMultiplier::X12 => 0b0100,
            PllMultiplier::X16 => 0b0101,
            PllMultiplier::X24 => 0b0110,
            PllMultiplier::X32 => 0b0111,
            PllMultiplier::X48 => 0b1000,
        }
    }

    /// The multiplication this setting performs.
    pub fn factor(self) -> (r: u32)
        ensures
            r as int == pll_factor(self),
            3 <= r <= 48,
    {
        match self {
            PllMultiplier::X3 => 3,
            PllMultiplier::X4 => 4,
            PllMultiplier::X6 => 6,
            PllMultiplier::X8 => 8,
            PllMultiplier::X12 => 12,
            PllMultiplier::X16 => 16,
            PllMultiplier::X24 => 24,
            PllMultiplier::X32 => 32,
            PllMultiplier::X48 => 48,
        }
    }
}

impl PllDivider {
    /// The register encoding of this divider.
    pub fn bits(self) -> (r: u8)
        ensures
            r == match self {
                PllDivider::Div2 => 0b01u8,
                PllDivider::Div3 => 0b10u8,
                PllDivider::Div4 => 0b11u8,
            },
    {
        match self {
            PllDivider::Div2 => 0b01,
            PllDivider::Div3 => 0b10,
            PllDivider::Div4 => 0b11,
        }
    }

    /// The division this setting performs.
    pub fn divisor(self) -> (r: u32)
        ensures
            r as int == pll_divisor(self),
            2 <= r <= 4,
    {
        match self {
            PllDivider::Div2 => 2,
            PllDivider::Div3 => 3,
            PllDivider::Div4 => 4,
        }
    }
}

/// Ownership token for the AHB bus's enable and reset registers; the
/// hardware layer performs the register access.
pub struct AHB {
    _0: (),
}

/// Ownership token for the APB1 bus's enable and reset registers.
pub struct APB1 {
    _0: (),
}

/// Ownership token for the APB2 bus's enable and reset registers.
pub struct APB2 {
    _0: (),
}

/// Clock configuration: the selected system clock source and the three bus
/// prescalers, not yet frozen.
pub struct CFGR {
    sysclk: SystemClock,
    hpre: AHBPrescaler,
    ppre1: APBPrescaler,
    ppre2: APBPrescaler,
}

/// The constrained reset-and-clock-control peripheral: the bus tokens and
/// the clock configuration.
pub struct Rcc {
    /// AHB registers token.
    pub ahb: AHB,
    /// APB1 registers token.
    pub apb1: APB1,
    /// APB2 registers token.
    pub apb2: APB2,
    /// Clock configuration.
    pub cfgr: CFGR,
}

impl Rcc {
    /// The reset configuration: the medium-speed internal oscillator,
    /// nothing divided.
    pub fn new() -> (r: Rcc)
        ensures
            r.cfgr.spec_sysclk() is MSI,
            r.cfgr.spec_hpre() is Div1,
            r.cfgr.spec_ppre1() is Div1,
            r.cfgr.spec_ppre2() is Div1,
    {
        Rcc {
            ahb: AHB { _0: () },
            apb1: APB1 { _0: () },
            apb2: APB2 { _0: () },
            cfgr: CFGR {
                sysclk: SystemClock::MSI,
                hpre: AHBPrescaler::Div1,
                ppre1: APBPrescaler::Div1,
                ppre2: APBPrescaler::Div1,
            },
        }
    }
}

impl CFGR {
    /// The selected system clock source.
    pub closed spec fn spec_sysclk(&self) -> SystemClock {
        self.sysclk
    }

    /// The selected AHB prescaler.
    pub closed spec fn spec_hpre(&self) -> AHBPrescaler {
        self.hpre
    }

    /// The selected APB1 prescaler.
    pub closed spec fn spec_ppre1(&self) -> APBPrescaler {
        self.ppre1
    }

    /// The selected APB2 prescaler.
    pub closed spec fn spec_ppre2(&self) -> APBPrescaler {
        self.ppre2
    }

    /// Configures the system clock tree.
    pub fn set_clock(
        self,
        sysclk: SystemClock,
        hpre: AHBPrescaler,
        ppre1: APBPrescaler,
        ppre2: APBPrescaler,
    ) -> (r: Self)
        ensures
            r.spec_sysclk() == sysclk,
            r.spec_hpre() == hpre,
            r.spec_ppre1() == ppre1,
            r.spec_ppre2() == ppre2,
    {
        CFGR { sysclk, hpre, ppre1, ppre2 }
    }

    /// Computes the frozen clock frequencies of this configuration: the
    /// system clock from its source, the AHB clock through the AHB
    /// prescaler, and the two APB clocks through theirs. Yields nothing for
    /// an unsupported source (only the medium-speed oscillator and the PLL
    /// are configured here) and for any frequency over [`MAX_SYSCLK`];
    /// programming the result into the hardware is the hardware layer's
    /// business.
    pub fn freeze(self) -> (r: Option<Clocks>)
        ensures
            ({
                let sys = sysclk_hz(self.spec_sysclk());
                let h = sys / ahb_divisor(self.spec_hpre());
                let p1 = h / apb_divisor(self.spec_ppre1());
                let p2 = h / apb_divisor(self.spec_ppre2());
                &&& (r is Some <==> (clock_supported(self.spec_sysclk()) && sys
                    <= MAX_SYSCLK as int && h <= MAX_SYSCLK as int && p1 <= MAX_SYSCLK as int && p2
                    <= MAX_SYSCLK as int))
                &&& (r matches Some(c) ==> {
                    &&& c.spec_sysclk().0 as int == sys
                    &&& c.spec_hclk().0 as int == h
                    &&& c.spec_pclk1().0 as int == p1
                    &&& c.spec_pclk2().0 as int == p2
                    &&& c.spec_ppre1() as int == apb_divisor(self.spec_ppre1())
                    &&& c.spec_ppre2() as int == apb_divisor(self.spec_ppre2())
                })
            }),
    {
        let CFGR { sysclk, hpre, ppre1, ppre2 } = self;
        let sys64: u64 = match sysclk {
            SystemClock::MSI => MSI_FREQ as u64,
            SystemClock::PLL(src, mul, div) => {
                let input: u32 = match src {
                    PllSource::HSI => HSI_FREQ,
                    PllSource::HSE(f) => f.0,
                };
                let factor = mul.factor();
                proof {
                    assert((input as int) * (factor as int) <= 0xFFFF_FFFF * 48) by (nonlinear_arith)
                        requires
                            input <= 0xFFFF_FFFFu32,
                            factor <= 48u32,
                    ;
                }
                (input as u64) * (factor as u64) / (div.divisor() as u64)
            },
            _ => {
                return None;
            },
        };
        if sys64 > MAX_SYSCLK as u64 {
            return None;
        }
        let sys = sys64 as u32;
        let hclk = sys / hpre.divisor();
        if hclk > MAX_SYSCLK {
            return None;
        }
        let pclk1 = hclk / ppre1.divisor();
        if pclk1 > MAX_SYSCLK {
            return None;
        }
        let pclk2 = hclk / ppre2.divisor();
        if pclk2 > MAX_SYSCLK {
            return None;
        }
        Some(
            Clocks {
                hclk: Hertz(hclk),
                pclk1: Hertz(pclk1),
                pclk2: Hertz(pclk2),
                ppre1: ppre1.divisor() as u8,
                ppre2: ppre2.divisor() as u8,
                sysclk: Hertz(sys),
            },
        )
    }
}

/// Frozen clock frequencies. The existence of this value indicates that the
/// clock configuration can no longer be changed.
#[derive(Debug, Clone, Copy)]
pub struct Clocks {
    hclk: Hertz,
    pclk1: Hertz,
    pclk2: Hertz,
    ppre1: u8,
    ppre2: u8,
    sysclk: Hertz,
}

impl Clocks {
    /// The frozen AHB frequency.
    pub closed spec fn spec_hclk(&self) -> Hertz {
        self.hclk
    }

    /// The frozen APB1 frequency.
    pub closed spec fn spec_pclk1(&self) -> Hertz {
        self.pclk1
    }

    /// The frozen APB2 frequency.
    pub closed spec fn spec_pclk2(&self) -> Hertz {
        self.pclk2
    }

    /// The frozen APB1 division.
    pub closed spec fn spec_ppre1(&self) -> u8 {
        self.ppre1
    }

    /// The frozen APB2 division.
    pub closed spec fn spec_ppre2(&self) -> u8 {
        self.ppre2
    }

    /// The frozen core frequency.
    pub closed spec fn spec_sysclk(&self) -> Hertz {
        self.sysclk
    }

    /// Returns the frequency of the AHB.
    pub fn hclk(&self) -> (r: Hertz)
        ensures
            r == self.spec_hclk(),
    {
        self.hclk
    }

    /// Returns the frequency of the APB1.
    pub fn pclk1(&self) -> (r: Hertz)
        ensures
            r == self.spec_pclk1(),
    {
        self.pclk1
    }

    /// Returns the frequency of the APB2.
    pub fn pclk2(&self) -> (r: Hertz)
        ensures
            r == self.spec_pclk2(),
    {
        self.pclk2
    }

    /// Returns the division the APB1 clock was derived with.
    pub fn ppre1(&self) -> (r: u8)
        ensures
            r == self.spec_ppre1(),
    {
        self.ppre1
    }

    /// Returns the division the APB2 clock was derived with.
    pub fn ppre2(&self) -> (r: u8)
        ensures
            r == self.spec_ppre2(),
    {
        self.ppre2
    }

    /// Returns the system (core) frequency.
    pub fn sysclk(&self) -> (r: Hertz)
        ensures
            r == self.spec_sysclk(),
    {
        self.sysclk
    }
}

} // verus!
