use oxidane::rcc::{
    AHBPrescaler, APBPrescaler, Hertz, PllDivider, PllMultiplier, PllSource, Rcc, SystemClock,
};

#[test]
fn pll_on_hsi_times_six_over_three_freezes_to_thirty_two_megahertz() {
    let rcc = Rcc::new();
    let clocks = rcc
        .cfgr
        .set_clock(
            SystemClock::PLL(PllSource::HSI, PllMultiplier::X6, PllDivider::Div3),
            AHBPrescaler::Div1,
            APBPrescaler::Div2,
            APBPrescaler::Div2,
        )
        .freeze()
        .unwrap();
    assert_eq!(clocks.sysclk(), Hertz(32_000_000));
    assert_eq!(clocks.hclk(), Hertz(32_000_000));
    assert_eq!(clocks.pclk1(), Hertz(16_000_000));
    assert_eq!(clocks.pclk2(), Hertz(16_000_000));
    assert_eq!(clocks.ppre1(), 2);
    assert_eq!(clocks.ppre2(), 2);
}

#[test]
fn the_reset_configuration_freezes_to_the_msi_frequency() {
    let rcc = Rcc::new();
    let clocks = rcc.cfgr.freeze().unwrap();
    assert_eq!(clocks.sysclk(), Hertz(2_097_000));
    assert_eq!(clocks.hclk(), Hertz(2_097_000));
    assert_eq!(clocks.pclk1(), Hertz(2_097_000));
    assert_eq!(clocks.pclk2(), Hertz(2_097_000));
}

#[test]
fn direct_hsi_is_not_a_supported_source() {
    let rcc = Rcc::new();
    let r = rcc
        .cfgr
        .set_clock(
            SystemClock::HSI,
            AHBPrescaler::Div1,
            APBPrescaler::Div1,
            APBPrescaler::Div1,
        )
        .freeze();
    assert!(r.is_none());
}

#[test]
fn an_overclocked_pll_is_refused() {
    let rcc = Rcc::new();
    let r = rcc
        .cfgr
        .set_clock(
            SystemClock::PLL(
                PllSource::HSE(Hertz(24_000_000)),
                PllMultiplier::X48,
                PllDivider::Div2,
            ),
            AHBPrescaler::Div1,
            APBPrescaler::Div1,
            APBPrescaler::Div1,
        )
        .freeze();
    assert!(r.is_none());
}

#[test]
fn a_divided_down_pll_on_a_fast_crystal_is_accepted() {
    let rcc = Rcc::new();
    let clocks = rcc
        .cfgr
        .set_clock(
            SystemClock::PLL(
                PllSource::HSE(Hertz(8_000_000)),
                PllMultiplier::X12,
                PllDivider::Div3,
            ),
            AHBPrescaler::Div2,
            APBPrescaler::Div4,
            APBPrescaler::Div1,
        )
        .freeze()
        .unwrap();
    assert_eq!(clocks.sysclk(), Hertz(32_000_000));
    assert_eq!(clocks.hclk(), Hertz(16_000_000));
    assert_eq!(clocks.pclk1(), Hertz(4_000_000));
    assert_eq!(clocks.pclk2(), Hertz(16_000_000));
}

#[test]
fn prescaler_register_encodings_match_the_reference_manual() {
    assert_eq!(AHBPrescaler::Div1.bits(), 0b0111);
    assert_eq!(AHBPrescaler::Div512.bits(), 0b1111);
    assert_eq!(APBPrescaler::Div1.bits(), 0b011);
    assert_eq!(APBPrescaler::Div16.bits(), 0b111);
    assert_eq!(PllMultiplier::X3.bits(), 0b0000);
    assert_eq!(PllMultiplier::X48.bits(), 0b1000);
    assert_eq!(PllDivider::Div2.bits(), 0b01);
    assert_eq!(PllDivider::Div4.bits(), 0b11);
}

#[test]
fn prescaler_divisors_match_their_names() {
    assert_eq!(AHBPrescaler::Div64.divisor(), 64);
    assert_eq!(APBPrescaler::Div8.divisor(), 8);
    assert_eq!(PllMultiplier::X24.factor(), 24);
    assert_eq!(PllDivider::Div3.divisor(), 3);
}
