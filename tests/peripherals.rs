use embedded_hal::spi::{MODE_0, MODE_3};
use stm32h7xx_hal::pwr::VoltageScale;
use stm32h7xx_hal::rcc::{CoreClocks, RccExt};
use stm32h7xx_hal::regs::{FlashRegisters, RccRegisters, SyscfgRegisters};
use stm32h7xx_hal::sai::{
    frame_layout, master_clock_divider, I2SBitRate, I2SMode, I2SPinFsA, I2SPinMclkA, I2SPinSckA,
    I2SPinSdA, I2SPinSdB, I2SSlotSize, I2SSynchronization, Sai, SaiChannel,
    SaiChannelRegisters, SaiI2sExt, SaiRegisters,
};
use stm32h7xx_hal::spi::{
    baud_rate_code, kernel_clk, Error, Event, NoMiso, NoMosi, NoSck, Spi, SpiExt,
    SpiKernelSource, SpiRegisters,
};
use stm32h7xx_hal::time::Hertz;

fn clocks_400mhz() -> CoreClocks {
    let mut flash = FlashRegisters::reset();
    let mut syscfg = SyscfgRegisters::reset();
    let rcc = RccRegisters::reset().constrain().sys_ck(Hertz::mhz(400));
    match rcc.freeze(VoltageScale::Scale0, &mut flash, &mut syscfg, 10) {
        Ok(c) => c.clocks,
        Err(_) => panic!("freeze refused a feasible request"),
    }
}

struct Mclk;
struct Sck;
struct Fs;
struct Sd;
struct SdB;
impl I2SPinMclkA<SaiRegisters> for Mclk {}
impl I2SPinSckA<SaiRegisters> for Sck {}
impl I2SPinFsA<SaiRegisters> for Fs {}
impl I2SPinSdA<SaiRegisters> for Sd {}
impl I2SPinSdB<SaiRegisters> for SdB {}

fn sai_reset() -> SaiRegisters {
    SaiRegisters { cha: SaiChannelRegisters::reset(), chb: SaiChannelRegisters::reset() }
}

#[test]
fn i2s_frame_layouts() {
    assert_eq!(frame_layout(I2SBitRate::BITS_8, 2), (16, I2SSlotSize::BITS_16));
    assert_eq!(frame_layout(I2SBitRate::BITS_16, 2), (32, I2SSlotSize::BITS_16));
    assert_eq!(frame_layout(I2SBitRate::BITS_24, 2), (64, I2SSlotSize::BITS_32));
    assert_eq!(frame_layout(I2SBitRate::BITS_16, 6), (96, I2SSlotSize::BITS_16));
    assert_eq!(frame_layout(I2SBitRate::BITS_8, 1), (0, I2SSlotSize::BITS_16));
}

#[test]
fn i2s_master_clock_divider() {
    assert_eq!(master_clock_divider(400_000_000, 48_000), Some(32));
    assert_eq!(master_clock_divider(400_000_000, 1_000), None);
    assert_eq!(master_clock_divider(1_000, 48_000), Some(0));
}

#[test]
fn i2s_channel_a_link() {
    let clocks = clocks_400mhz();
    let pins = (Mclk, Sck, Fs, Sd, Some(SdB));
    let sai = sai_reset().i2s_ch_a(pins, Hertz::khz(48), I2SBitRate::BITS_16, &clocks);
    assert_eq!(sai.master_channel, SaiChannel::ChannelA);
    assert_eq!(sai.slave_channel, Some(SaiChannel::ChannelB));
    let a = sai.rb.cha;
    assert_eq!(a.mode, 0b00);
    assert!(a.ckstr);
    assert_eq!(a.syncen, 0b00);
    assert_eq!(a.mckdiv, 33);
    assert_eq!(a.ds, 0b100);
    assert_eq!(a.frl, 31);
    assert_eq!(a.fsall, 16);
    assert_eq!(a.slotsz, 0b01);
    assert_eq!(a.nbslot, 2);
    assert_eq!(a.sloten, 3);
    assert!(a.dmaen && !a.saien);
    let b = sai.rb.chb;
    assert_eq!(b.mode, 0b11);
    assert!(!b.ckstr);
    assert_eq!(b.syncen, 0b01);
    assert_eq!(b.mckdiv, 33);
}

#[test]
fn i2s_enable_and_disable() {
    let clocks = clocks_400mhz();
    let pins = (Mclk, Sck, Fs, Sd, Some(SdB));
    let mut sai = Sai::i2s_sai1_ch_a(sai_reset(), pins, Hertz::khz(48), I2SBitRate::BITS_32, &clocks);
    sai.enable();
    assert!(sai.rb.cha.saien && sai.rb.chb.saien);
    sai.disable();
    assert!(!sai.rb.cha.saien && !sai.rb.chb.saien);
}

#[test]
fn i2s_mode_codes() {
    assert_eq!(I2SMode::SlaveTx.bits(), 0b10);
    assert!(I2SMode::SlaveTx.clock_strobe());
    assert!(!I2SMode::MasterRx.clock_strobe());
    assert_eq!(I2SSynchronization::EXTERNAL.bits(), 0b10);
    assert_eq!(I2SBitRate::BITS_8.bits(), 0b001);
}

fn spi_reset() -> SpiRegisters {
    SpiRegisters {
        mbr: 0,
        dsize: 7,
        ssoe: true,
        cpha: false,
        cpol: false,
        master: false,
        lsbfrst: false,
        ssm: false,
        comm: 0,
        ssi: false,
        spe: false,
        cstart: false,
        rxpie: false,
        txpie: false,
        udrie: false,
        ovrie: false,
        crceie: false,
        modfie: false,
        txp: false,
        rxp: false,
        modf: false,
        ovr: false,
        crce: false,
        rxdr: 0,
        txdr: 0,
    }
}

#[test]
fn spi_baud_rate_table() {
    assert_eq!(baud_rate_code(100_000_000, 50_000_000), 0);
    assert_eq!(baud_rate_code(100_000_000, 25_000_000), 1);
    assert_eq!(baud_rate_code(100_000_000, 1_000_000), 6);
    assert_eq!(baud_rate_code(100_000_000, 100_000), 7);
}

#[test]
fn spi_kernel_clock_selection() {
    let clocks = clocks_400mhz();
    assert_eq!(kernel_clk(SpiKernelSource::Pll1Q, &clocks), Some(Hertz(400_000_000)));
    assert_eq!(kernel_clk(SpiKernelSource::Apb2, &clocks), Some(Hertz(100_000_000)));
    assert_eq!(kernel_clk(SpiKernelSource::Pll2P, &clocks), None);
    assert_eq!(kernel_clk(SpiKernelSource::Hse, &clocks), None);
}

#[test]
fn spi_master_configuration() {
    let clocks = clocks_400mhz();
    let spi = spi_reset().spi((NoSck, NoMiso, NoMosi), MODE_3, Hertz::mhz(1), SpiKernelSource::Apb2, &clocks);
    assert_eq!(spi.spi.mbr, 6);
    assert_eq!(spi.spi.dsize, 7);
    assert!(spi.spi.cpha && spi.spi.cpol);
    assert!(spi.spi.master && spi.spi.ssm && spi.spi.ssi && spi.spi.spe);
    assert!(!spi.spi.ssoe);
    let spi0 = Spi::new(spi_reset(), (NoSck, NoMiso, NoMosi), MODE_0, Hertz::mhz(1), SpiKernelSource::Apb2, &clocks);
    assert!(!spi0.spi.cpha && !spi0.spi.cpol);
}

#[test]
fn spi_read_and_send_outcomes() {
    let clocks = clocks_400mhz();
    let mut spi = Spi::new(spi_reset(), (NoSck, NoMiso, NoMosi), MODE_0, Hertz::mhz(1), SpiKernelSource::Apb2, &clocks);
    assert_eq!(spi.read(), Err(nb::Error::WouldBlock));
    spi.spi.rxp = true;
    spi.spi.rxdr = 0xA5;
    assert_eq!(spi.read(), Ok(0xA5));
    spi.spi.crce = true;
    assert_eq!(spi.read(), Err(nb::Error::Other(Error::Crc)));
    spi.spi.modf = true;
    assert_eq!(spi.send(1), Err(nb::Error::Other(Error::ModeFault)));
    spi.spi.ovr = true;
    assert_eq!(spi.read(), Err(nb::Error::Other(Error::Overrun)));
    let (mut regs, pins) = spi.free();
    regs.ovr = false;
    regs.modf = false;
    regs.crce = false;
    regs.txp = true;
    let mut spi = Spi { spi: regs, pins };
    assert_eq!(spi.send(0x3C), Ok(()));
    assert_eq!(spi.spi.txdr, 0x3C);
    assert!(spi.spi.cstart);
    spi.spi.txp = false;
    assert_eq!(spi.send(0x00), Err(nb::Error::WouldBlock));
}

#[test]
fn spi_interrupts() {
    let clocks = clocks_400mhz();
    let mut spi = Spi::new(spi_reset(), (NoSck, NoMiso, NoMosi), MODE_0, Hertz::mhz(1), SpiKernelSource::Apb2, &clocks);
    spi.listen(Event::Error);
    assert!(spi.spi.udrie && spi.spi.ovrie && spi.spi.crceie && spi.spi.modfie);
    spi.listen(Event::Rxp);
    assert!(spi.spi.rxpie);
    spi.unlisten(Event::Error);
    assert!(!spi.spi.ovrie && spi.spi.rxpie);
    assert!(!spi.is_txp() && !spi.is_rxp() && !spi.is_modf() && !spi.is_ovr());
}
