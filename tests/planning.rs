use stm32h7xx_hal::bus::{
    ahb_prescaler, ahb_prescaler_code, apb_prescaler, apb_prescaler_code, ceilings, plan_apb,
    timer_kernel_clock, TimerPrescaler,
};
use stm32h7xx_hal::error::ClockError;
use stm32h7xx_hal::flash::flash_wait_states;
use stm32h7xx_hal::pll::plan_pll;
use stm32h7xx_hal::pwr::VoltageScale;
use stm32h7xx_hal::time::Hertz;

#[test]
fn pll_internal_to_400mhz() {
    let p = plan_pll(64_000_000, 400_000_000).unwrap().unwrap();
    assert_eq!(p.divm, 32);
    assert_eq!(p.ref_ck, 2_000_000);
    assert_eq!(p.divp, 1);
    assert_eq!(p.divq, 1);
    assert_eq!(p.vco_ck, 400_000_000);
    assert_eq!(p.divn, 200);
    assert_eq!(p.p_ck, 400_000_000);
    assert_eq!(p.q_ck, 400_000_000);
}

#[test]
fn pll_internal_to_100mhz_uses_even_divider() {
    let p = plan_pll(64_000_000, 100_000_000).unwrap().unwrap();
    assert_eq!(p.divm, 32);
    assert_eq!(p.divp, 4);
    assert_eq!(p.vco_ck, 400_000_000);
    assert_eq!(p.divn, 200);
    assert_eq!(p.p_ck, 100_000_000);
}

#[test]
fn pll_external_25mhz_rounds_down() {
    let p = plan_pll(25_000_000, 400_000_000).unwrap().unwrap();
    assert_eq!(p.divm, 13);
    assert_eq!(p.ref_ck, 1_923_076);
    assert_eq!(p.divn, 208);
    assert_eq!(p.p_ck, 399_999_808);
}

#[test]
fn pll_not_needed_at_source() {
    assert_eq!(plan_pll(64_000_000, 64_000_000), Ok(None));
    assert_eq!(plan_pll(25_000_000, 25_000_000), Ok(None));
}

#[test]
fn pll_engaged_below_source() {
    let p = plan_pll(64_000_000, 32_000_000).unwrap().unwrap();
    assert_eq!(p.divp, 12);
    assert_eq!(p.vco_ck, 384_000_000);
}

#[test]
fn pll_plan_ranges_hold() {
    for sys in [150_000_000u32, 200_000_000, 240_000_000, 300_000_000, 420_000_000] {
        for src in [8_000_000u32, 16_000_000, 25_000_000, 64_000_000] {
            if let Ok(Some(p)) = plan_pll(src, sys) {
                assert!(p.ref_ck >= 1_000_000 && p.ref_ck <= 2_000_000);
                assert!(p.vco_ck >= 150_000_000 && p.vco_ck <= 420_000_000);
                assert!(p.divn >= 4 && p.divn <= 512);
            }
        }
    }
}

#[test]
fn pll_errors() {
    assert_eq!(plan_pll(0, 100_000_000), Err(ClockError::PllReference));
    assert_eq!(plan_pll(200_000_000, 100_000_000), Err(ClockError::PllReference));
    assert_eq!(plan_pll(500_000, 100_000_000), Err(ClockError::PllReference));
    assert_eq!(plan_pll(64_000_000, 0), Err(ClockError::PllOutputDivider));
    assert_eq!(plan_pll(64_000_000, 1_000_000), Err(ClockError::PllOutputDivider));
    assert_eq!(plan_pll(64_000_000, 500_000_000), Err(ClockError::PllVco));
}

#[test]
fn pll_planning_is_repeatable() {
    assert_eq!(plan_pll(64_000_000, 400_000_000), plan_pll(64_000_000, 400_000_000));
    assert_eq!(plan_pll(25_000_000, 123_456_789), plan_pll(25_000_000, 123_456_789));
}

#[test]
fn apb_divider_is_smallest_fitting() {
    assert_eq!(apb_prescaler(200_000_000, 200_000_000), 1);
    assert_eq!(apb_prescaler(200_000_000, 100_000_000), 2);
    assert_eq!(apb_prescaler(200_000_000, 99_999_999), 4);
    assert_eq!(apb_prescaler(200_000_000, 50_000_000), 4);
    assert_eq!(apb_prescaler(200_000_000, 40_000_000), 8);
    assert_eq!(apb_prescaler(200_000_000, 25_000_000), 8);
    assert_eq!(apb_prescaler(200_000_000, 20_000_000), 16);
    assert_eq!(apb_prescaler(200_000_000, 1_000_000), 16);
}

#[test]
fn apb_divider_is_monotone() {
    let mut last = 16;
    for t in (1..=200u32).map(|m| m * 1_000_000) {
        let d = apb_prescaler(200_000_000, t);
        assert!(d <= last);
        assert!(200_000_000 / d <= t || d == 16);
        last = d;
    }
}

#[test]
fn ahb_divider_values() {
    assert_eq!(ahb_prescaler(400_000_000, 200_000_000), 2);
    assert_eq!(ahb_prescaler(400_000_000, 400_000_000), 1);
    assert_eq!(ahb_prescaler(400_000_000, 30_000_000), 16);
    assert_eq!(ahb_prescaler(400_000_000, 20_000_000), 64);
    assert_eq!(ahb_prescaler(400_000_000, 1_000), 512);
}

#[test]
fn prescaler_codes() {
    assert_eq!(apb_prescaler_code(1), 0b000);
    assert_eq!(apb_prescaler_code(2), 0b100);
    assert_eq!(apb_prescaler_code(4), 0b101);
    assert_eq!(apb_prescaler_code(8), 0b110);
    assert_eq!(apb_prescaler_code(16), 0b111);
    assert_eq!(ahb_prescaler_code(1), 0b0000);
    assert_eq!(ahb_prescaler_code(2), 0b1000);
    assert_eq!(ahb_prescaler_code(16), 0b1011);
    assert_eq!(ahb_prescaler_code(64), 0b1100);
    assert_eq!(ahb_prescaler_code(512), 0b1111);
}

#[test]
fn timer_clock_table() {
    let h = 200_000_000;
    assert_eq!(timer_kernel_clock(h, 1, TimerPrescaler::DefaultX2), h);
    assert_eq!(timer_kernel_clock(h, 2, TimerPrescaler::DefaultX2), h);
    assert_eq!(timer_kernel_clock(h, 4, TimerPrescaler::DefaultX2), h / 2);
    assert_eq!(timer_kernel_clock(h, 8, TimerPrescaler::DefaultX2), h / 4);
    assert_eq!(timer_kernel_clock(h, 16, TimerPrescaler::DefaultX2), h / 8);
    assert_eq!(timer_kernel_clock(h, 4, TimerPrescaler::DefaultX4), h);
    assert_eq!(timer_kernel_clock(h, 8, TimerPrescaler::DefaultX4), h / 2);
    assert_eq!(timer_kernel_clock(h, 16, TimerPrescaler::DefaultX4), h / 4);
}

#[test]
fn ceilings_per_scale() {
    assert_eq!(ceilings(VoltageScale::Scale0), (480_000_000, 240_000_000, 120_000_000));
    assert_eq!(ceilings(VoltageScale::Scale1), (400_000_000, 200_000_000, 100_000_000));
    assert_eq!(ceilings(VoltageScale::Scale2), (300_000_000, 150_000_000, 75_000_000));
    assert_eq!(ceilings(VoltageScale::Scale3), (200_000_000, 100_000_000, 50_000_000));
}

#[test]
fn apb_plan_defaults_and_errors() {
    assert_eq!(plan_apb(200_000_000, None, 100_000_000), Ok((2, 100_000_000)));
    assert_eq!(plan_apb(240_000_000, None, 100_000_000), Ok((4, 60_000_000)));
    assert_eq!(plan_apb(200_000_000, Some(25_000_000), 100_000_000), Ok((8, 25_000_000)));
    assert_eq!(plan_apb(200_000_000, Some(150_000_000), 100_000_000), Err(ClockError::ApbClockTooHigh));
    assert_eq!(plan_apb(200_000_000, Some(0), 100_000_000), Err(ClockError::ZeroFrequency));
    assert_eq!(plan_apb(1, None, 100_000_000), Err(ClockError::ZeroFrequency));
}

#[test]
fn flash_table_scale1() {
    let v = VoltageScale::Scale1;
    assert_eq!(flash_wait_states(0, v), (0, 0));
    assert_eq!(flash_wait_states(69_999_999, v), (0, 0));
    assert_eq!(flash_wait_states(70_000_000, v), (1, 1));
    assert_eq!(flash_wait_states(139_000_000, v), (1, 1));
    assert_eq!(flash_wait_states(140_000_000, v), (2, 1));
    assert_eq!(flash_wait_states(200_000_000, v), (2, 2));
    assert_eq!(flash_wait_states(224_000_000, v), (3, 2));
    assert_eq!(flash_wait_states(225_000_000, v), (7, 3));
    assert_eq!(flash_wait_states(480_000_000, VoltageScale::Scale0), (7, 3));
}

#[test]
fn flash_table_scale2_and_scale3() {
    assert_eq!(flash_wait_states(54_000_000, VoltageScale::Scale2), (0, 0));
    assert_eq!(flash_wait_states(55_000_000, VoltageScale::Scale2), (1, 1));
    assert_eq!(flash_wait_states(165_000_000, VoltageScale::Scale2), (3, 2));
    assert_eq!(flash_wait_states(225_000_000, VoltageScale::Scale2), (4, 2));
    assert_eq!(flash_wait_states(226_000_000, VoltageScale::Scale2), (7, 3));
    assert_eq!(flash_wait_states(44_000_000, VoltageScale::Scale3), (0, 0));
    assert_eq!(flash_wait_states(90_000_000, VoltageScale::Scale3), (2, 1));
    assert_eq!(flash_wait_states(180_000_000, VoltageScale::Scale3), (4, 2));
}

#[test]
fn flash_bands_cover_every_frequency() {
    for v in [VoltageScale::Scale0, VoltageScale::Scale1, VoltageScale::Scale2, VoltageScale::Scale3] {
        let mut last = (0u8, 0u8);
        for mhz in 0..=480u32 {
            let s = flash_wait_states(mhz * 1_000_000, v);
            assert_eq!(s, flash_wait_states(mhz * 1_000_000 + 999_999, v));
            assert!(s.0 >= last.0);
            last = s;
        }
        assert_eq!(last, (7, 3));
    }
}

#[test]
fn hertz_helpers() {
    assert_eq!(Hertz::hz(5), Hertz(5));
    assert_eq!(Hertz::khz(48), Hertz(48_000));
    assert_eq!(Hertz::mhz(400), Hertz(400_000_000));
}
