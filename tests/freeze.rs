use stm32h7xx_hal::error::{ClockError, WaitFlag};
use stm32h7xx_hal::pwr::VoltageScale;
use stm32h7xx_hal::rcc::{plan, Config, RccExt, CSI, HSI};
use stm32h7xx_hal::regs::{
    FlashRegisters, PerClockSource, PllSource, RccRegisters, SyscfgRegisters, SystemClockSource,
};
use stm32h7xx_hal::time::Hertz;

fn blocks() -> (FlashRegisters, SyscfgRegisters) {
    (FlashRegisters::reset(), SyscfgRegisters::reset())
}

#[test]
fn constrain_starts_empty() {
    let rcc = RccRegisters::reset().constrain();
    assert_eq!(rcc.config.hse, None);
    assert_eq!(rcc.config.sys_ck, None);
    assert_eq!(rcc.config.rcc_pclk4, None);
    assert_eq!(rcc.rb, RccRegisters::reset());
}

#[test]
fn builders_fill_fields() {
    let rcc = RccRegisters::reset()
        .constrain()
        .use_hse(Hertz::mhz(25))
        .sysclk(Hertz::mhz(200))
        .per_ck(Hertz::mhz(4))
        .hclk(Hertz::mhz(100))
        .pclk1(Hertz::mhz(50))
        .pclk2(Hertz::mhz(25))
        .pclk3(Hertz::mhz(12))
        .pclk4(Hertz::mhz(6));
    assert_eq!(
        rcc.config,
        Config {
            hse: Some(25_000_000),
            sys_ck: Some(200_000_000),
            per_ck: Some(4_000_000),
            rcc_hclk: Some(100_000_000),
            rcc_pclk1: Some(50_000_000),
            rcc_pclk2: Some(25_000_000),
            rcc_pclk3: Some(12_000_000),
            rcc_pclk4: Some(6_000_000),
        }
    );
}

#[test]
fn scenario_internal_to_400mhz() {
    let (mut flash, mut syscfg) = blocks();
    let rcc = RccRegisters::reset().constrain().sys_ck(Hertz::mhz(400));
    let ccdr = match rcc.freeze(VoltageScale::Scale0, &mut flash, &mut syscfg, 10) {
        Ok(c) => c,
        Err(_) => panic!("freeze refused a feasible request"),
    };
    let c = ccdr.clocks;
    assert_eq!(c.sys_ck(), Hertz(400_000_000));
    assert_eq!(c.sysclk(), Hertz(400_000_000));
    assert_eq!(c.c_ck(), Hertz(400_000_000));
    assert_eq!(c.pll1_p_ck(), Some(Hertz(400_000_000)));
    assert_eq!(c.pll1_q_ck(), Some(Hertz(400_000_000)));
    assert_eq!(c.pll1_r_ck(), None);
    assert_eq!(c.hclk(), Hertz(200_000_000));
    assert_eq!(c.aclk(), Hertz(200_000_000));
    assert_eq!(c.pclk1(), Hertz(100_000_000));
    assert_eq!(c.ppre1(), 2);
    assert_eq!(c.pclk4(), Hertz(100_000_000));
    assert_eq!(c.ppre4(), 2);
    assert_eq!(c.timx_ker_ck(), Hertz(200_000_000));
    assert_eq!(c.timy_ker_ck(), Hertz(200_000_000));
    assert_eq!(c.hsi_ck(), Some(Hertz(HSI)));
    assert_eq!(c.csi_ck(), Some(Hertz(CSI)));
    assert_eq!(c.hse_ck(), None);
    assert_eq!(c.per_ck(), Some(Hertz(HSI)));
    let rb = ccdr.rb;
    assert_eq!(rb.divm1, 32);
    assert_eq!(rb.divn1, 199);
    assert_eq!(rb.divp1, 0);
    assert_eq!(rb.divq1, 0);
    assert_eq!(rb.pllsrc, PllSource::Hsi);
    assert!(rb.pll1on && rb.pll1rdy && rb.pll1vcosel_medium);
    assert_eq!(rb.hpre, 0b1000);
    assert_eq!(rb.d2ppre1, 0b100);
    assert_eq!(rb.sw, SystemClockSource::Pll1);
    assert_eq!(rb.sws, SystemClockSource::Pll1);
    assert!(rb.csion && rb.csirdy && rb.syscfgen);
    // 200 MHz AXI clock on the highest-performance table.
    assert_eq!((flash.latency, flash.wrhighfreq), (2, 2));
    assert!(syscfg.cccsr_en && syscfg.cccsr_ready);
}

#[test]
fn scenario_source_equals_target() {
    let (mut flash, mut syscfg) = blocks();
    let rcc = RccRegisters::reset().constrain().sys_ck(Hertz::mhz(64));
    let ccdr = match rcc.freeze(VoltageScale::Scale1, &mut flash, &mut syscfg, 10) {
        Ok(c) => c,
        Err(_) => panic!("freeze refused a feasible request"),
    };
    let c = ccdr.clocks;
    assert_eq!(c.sys_ck(), Hertz(64_000_000));
    assert_eq!(c.pll1_p_ck(), None);
    assert_eq!(c.pll1_q_ck(), None);
    assert_eq!(c.pll2_p_ck(), None);
    assert_eq!(c.pll3_r_ck(), None);
    assert_eq!(c.hclk(), Hertz(32_000_000));
    assert_eq!(c.pclk2(), Hertz(16_000_000));
    assert_eq!(c.ppre2(), 2);
    assert_eq!(ccdr.rb.sw, SystemClockSource::Hsi);
    assert!(!ccdr.rb.pll1on);
    assert_eq!((flash.latency, flash.wrhighfreq), (0, 0));
}

#[test]
fn scenario_bus_above_ceiling_writes_nothing() {
    let (mut flash, mut syscfg) = blocks();
    let rcc = RccRegisters::reset().constrain().sys_ck(Hertz::mhz(400)).pclk1(Hertz::mhz(200));
    match rcc.freeze(VoltageScale::Scale1, &mut flash, &mut syscfg, 10) {
        Ok(_) => panic!("a bus clock above its ceiling was accepted"),
        Err((e, rb)) => {
            assert_eq!(e, ClockError::ApbClockTooHigh);
            assert_eq!(rb, RccRegisters::reset());
        }
    }
    assert_eq!(flash, FlashRegisters::reset());
    assert_eq!(syscfg, SyscfgRegisters::reset());
}

#[test]
fn external_oscillator_drives_pll() {
    let (mut flash, mut syscfg) = blocks();
    let rcc = RccRegisters::reset().constrain().use_hse(Hertz::mhz(25)).sys_ck(Hertz::mhz(400));
    let ccdr = match rcc.freeze(VoltageScale::Scale1, &mut flash, &mut syscfg, 3) {
        Ok(c) => c,
        Err(_) => panic!("freeze refused a feasible request"),
    };
    assert_eq!(ccdr.clocks.sys_ck(), Hertz(399_999_808));
    assert_eq!(ccdr.clocks.hse_ck(), Some(Hertz(25_000_000)));
    assert_eq!(ccdr.rb.pllsrc, PllSource::Hse);
    assert!(ccdr.rb.hseon && ccdr.rb.hserdy && !ccdr.rb.hsebyp);
    assert_eq!(ccdr.rb.divm1, 13);
    assert_eq!(ccdr.rb.divn1, 207);
}

#[test]
fn external_oscillator_direct() {
    let (mut flash, mut syscfg) = blocks();
    let rcc = RccRegisters::reset().constrain().use_hse(Hertz::mhz(25)).per_ck(Hertz::mhz(25));
    let ccdr = match rcc.freeze(VoltageScale::Scale3, &mut flash, &mut syscfg, 1) {
        Ok(c) => c,
        Err(_) => panic!("freeze refused a feasible request"),
    };
    assert_eq!(ccdr.clocks.sys_ck(), Hertz(25_000_000));
    assert_eq!(ccdr.clocks.per_ck(), Some(Hertz(25_000_000)));
    assert_eq!(ccdr.rb.ckpersel, PerClockSource::Hse);
    assert_eq!(ccdr.rb.sw, SystemClockSource::Hse);
}

#[test]
fn peripheral_clock_from_csi() {
    let cfg = RccRegisters::reset().constrain().per_ck(Hertz::mhz(4)).config;
    let p = plan(&cfg, VoltageScale::Scale1).unwrap();
    assert_eq!(p.per_ck, CSI);
    assert_eq!(p.per_source, PerClockSource::Csi);
    let cfg = RccRegisters::reset().constrain().per_ck(Hertz::mhz(7)).config;
    let p = plan(&cfg, VoltageScale::Scale1).unwrap();
    assert_eq!(p.per_source, PerClockSource::Hsi);
}

#[test]
fn core_clock_above_ceiling() {
    let cfg = RccRegisters::reset().constrain().sys_ck(Hertz::mhz(420)).config;
    assert_eq!(plan(&cfg, VoltageScale::Scale1), Err(ClockError::CoreClockTooHigh));
    assert!(plan(&cfg, VoltageScale::Scale0).is_ok());
}

#[test]
fn ahb_request_above_ceiling() {
    let cfg = RccRegisters::reset().constrain().sys_ck(Hertz::mhz(400)).hclk(Hertz::mhz(250)).config;
    assert_eq!(plan(&cfg, VoltageScale::Scale0), Err(ClockError::AhbClockTooHigh));
    let cfg = RccRegisters::reset().constrain().hclk(Hertz(0)).config;
    assert_eq!(plan(&cfg, VoltageScale::Scale0), Err(ClockError::ZeroFrequency));
}

#[test]
fn infeasible_pll_request() {
    let cfg = RccRegisters::reset().constrain().sys_ck(Hertz::mhz(1)).config;
    assert_eq!(plan(&cfg, VoltageScale::Scale0), Err(ClockError::PllOutputDivider));
}

#[test]
fn divided_internal_oscillator_is_refused() {
    let (mut flash, mut syscfg) = blocks();
    let mut rb = RccRegisters::reset();
    rb.hsidiv = 1;
    match rb.constrain().freeze(VoltageScale::Scale1, &mut flash, &mut syscfg, 10) {
        Ok(_) => panic!("a divided internal oscillator was accepted"),
        Err((e, back)) => {
            assert_eq!(e, ClockError::HsiNotDefault);
            assert_eq!(back, rb);
        }
    }
    assert_eq!(flash, FlashRegisters::reset());
}

#[test]
fn zero_polls_time_out() {
    let (mut flash, mut syscfg) = blocks();
    match RccRegisters::reset().constrain().freeze(VoltageScale::Scale1, &mut flash, &mut syscfg, 0) {
        Ok(_) => panic!("no poll was allowed"),
        Err((e, rb)) => {
            assert_eq!(e, ClockError::Timeout(WaitFlag::CsiReady));
            assert!(rb.csion);
        }
    }
}

#[test]
fn planning_is_repeatable() {
    let cfg = RccRegisters::reset().constrain().sys_ck(Hertz::mhz(300)).pclk3(Hertz::mhz(30)).config;
    assert_eq!(plan(&cfg, VoltageScale::Scale1), plan(&cfg, VoltageScale::Scale1));
}

#[test]
fn tick_answers_control_fields() {
    let mut rb = RccRegisters::reset();
    rb.csion = true;
    rb.sw = SystemClockSource::Hse;
    rb.tick();
    assert!(rb.csirdy);
    assert_eq!(rb.sws, SystemClockSource::Hse);
}
