//! Serial peripheral interface in master mode: the baud-rate divider from
//! the kernel clock, the configuration writes, and the non-blocking read
//! and send decisions on the status flags.

use crate::rcc::{opt_hz, CoreClocks};
use crate::time::Hertz;
pub use embedded_hal::spi::{Mode, Phase, Polarity};
use nb::Error as NbError;
use vstd::prelude::*;

verus! {

#[verifier::external_type_specification]
pub struct ExMode(embedded_hal::spi::Mode);

#[verifier::external_type_specification]
pub struct ExPhase(embedded_hal::spi::Phase);

#[verifier::external_type_specification]
pub struct ExPolarity(embedded_hal::spi::Polarity);

#[verifier::external_type_specification]
#[verifier::reject_recursive_types(E)]
pub struct ExNbError<E>(NbError<E>);

/// SPI error.
#[derive(Clone, Copy, Debug, PartialEq, Eq, Structural)]
pub enum Error {
    /// Overrun occurred.
    Overrun,
    /// Mode fault occurred.
    ModeFault,
    /// CRC error.
    Crc,
    /// Reserved for errors to come.
    _Extensible,
}

/// Pin sets of an SPI.
pub trait Pins<SPI> {}

/// Clock pins of an SPI.
pub trait PinSck<SPI> {}

/// Master-in pins of an SPI.
pub trait PinMiso<SPI> {}

/// Master-out pins of an SPI.
pub trait PinMosi<SPI> {}

impl<SPI, SCK, MISO, MOSI> Pins<SPI> for (SCK, MISO, MOSI) where
    SCK: PinSck<SPI>,
    MISO: PinMiso<SPI>,
    MOSI: PinMosi<SPI>,
 {

}

/// A filler type for when the SCK pin is unnecessary.
pub struct NoSck;

/// A filler type for when the MISO pin is unnecessary.
pub struct NoMiso;

/// A filler type for when the MOSI pin is unnecessary.
pub struct NoMosi;

impl<SPI> PinSck<SPI> for NoSck {

}

impl<SPI> PinMiso<SPI> for NoMiso {

}

impl<SPI> PinMosi<SPI> for NoMosi {

}

/// Interrupt events.
#[derive(Clone, Copy, Debug, PartialEq, Eq, Structural)]
pub enum Event {
    /// New data has been received.
    Rxp,
    /// Data can be sent.
    Txp,
    /// An error occurred.
    Error,
}

/// Where an SPI takes its kernel clock from.
#[derive(Clone, Copy, Debug, PartialEq, Eq, Structural)]
pub enum SpiKernelSource {
    Pll1Q,
    Pll2P,
    Pll2Q,
    Pll3P,
    Pll3Q,
    Per,
    Apb2,
    Apb4,
    HsiKer,
    CsiKer,
    Hse,
}

/// The kernel clock an SPI gets from `source`, in Hertz, if it runs.
pub open spec fn kernel_clock_of(source: SpiKernelSource, clocks: CoreClocks) -> Option<int> {
    match source {
        SpiKernelSource::Pll1Q => clocks@.pll1_q_ck,
        SpiKernelSource::Pll2P => clocks@.pll2_p_ck,
        SpiKernelSource::Pll2Q => clocks@.pll2_q_ck,
        SpiKernelSource::Pll3P => clocks@.pll3_p_ck,
        SpiKernelSource::Pll3Q => clocks@.pll3_q_ck,
        SpiKernelSource::Per => clocks@.per_ck,
        SpiKernelSource::Apb2 => Some(clocks@.pclk2),
        SpiKernelSource::Apb4 => Some(clocks@.pclk4),
        SpiKernelSource::HsiKer => clocks@.hsi_ck,
        SpiKernelSource::CsiKer => clocks@.csi_ck,
        SpiKernelSource::Hse => clocks@.hse_ck,
    }
}

/// The kernel clock an SPI gets from `source`.
pub fn kernel_clk(source: SpiKernelSource, clocks: &CoreClocks) -> (r: Option<Hertz>)
    ensures
        opt_hz(r) == kernel_clock_of(source, *clocks),
{
    match source {
        SpiKernelSource::Pll1Q => clocks.pll1_q_ck(),
        SpiKernelSource::Pll2P => clocks.pll2_p_ck(),
        SpiKernelSource::Pll2Q => clocks.pll2_q_ck(),
        SpiKernelSource::Pll3P => clocks.pll3_p_ck(),
        SpiKernelSource::Pll3Q => clocks.pll3_q_ck(),
        SpiKernelSource::Per => clocks.per_ck(),
        SpiKernelSource::Apb2 => Some(clocks.pclk2()),
        SpiKernelSource::Apb4 => Some(clocks.pclk4()),
        SpiKernelSource::HsiKer => clocks.hsi_ck(),
        SpiKernelSource::CsiKer => clocks.csi_ck(),
        SpiKernelSource::Hse => clocks.hse_ck(),
    }
}

/// The master baud-rate code (MBR) for a kernel clock `ratio` times the
/// requested frequency: 0 divides by 2, each step up doubles the divider,
/// 7 divides by 256.
pub open spec fn mbr_code(ratio: int) -> u8 {
    if ratio <= 2 {
        0
    } else if ratio <= 5 {
        1
    } else if ratio <= 11 {
        2
    } else if ratio <= 23 {
        3
    } else if ratio <= 47 {
        4
    } else if ratio <= 95 {
        5
    } else if ratio <= 191 {
        6
    } else {
        7
    }
}

/// The MBR code for a kernel clock of `ker_ck` Hertz and an SPI clock of
/// `freq` Hertz.
pub fn baud_rate_code(ker_ck: u32, freq: u32) -> (r: u8)
    requires
        0 < freq <= ker_ck,
    ensures
        r == mbr_code(ker_ck as int / freq as int),
        r <= 7,
{
    let ratio: u32 = ker_ck / freq;
    if ratio <= 2 {
        0
    } else if ratio <= 5 {
        1
    } else if ratio <= 11 {
        2
    } else if ratio <= 23 {
        3
    } else if ratio <= 47 {
        4
    } else if ratio <= 95 {
        5
    } else if ratio <= 191 {
        6
    } else {
        7
    }
}

/// An SPI register block, field by field.
#[derive(Clone, Copy, Debug, PartialEq, Eq, Structural)]
pub struct SpiRegisters {
    pub mbr: u8,
    pub dsize: u8,
    pub ssoe: bool,
    pub cpha: bool,
    pub cpol: bool,
    pub master: bool,
    pub lsbfrst: bool,
    pub ssm: bool,
    pub comm: u8,
    pub ssi: bool,
    pub spe: bool,
    pub cstart: bool,
    pub rxpie: bool,
    pub txpie: bool,
    pub udrie: bool,
    pub ovrie: bool,
    pub crceie: bool,
    pub modfie: bool,
    pub txp: bool,
    pub rxp: bool,
    pub modf: bool,
    pub ovr: bool,
    pub crce: bool,
    pub rxdr: u8,
    pub txdr: u8,
}

/// `r` with the interrupt enables of `event` set to `on`.
pub open spec fn interrupts_set(r: SpiRegisters, event: Event, on: bool) -> SpiRegisters {
    match event {
        Event::Rxp => SpiRegisters { rxpie: on, ..r },
        Event::Txp => SpiRegisters { txpie: on, ..r },
        Event::Error => SpiRegisters { udrie: on, ovrie: on, crceie: on, modfie: on, ..r },
    }
}

/// Sets the interrupt enables of `event` (for errors: underrun, overrun,
/// CRC and mode fault).
fn set_interrupts(r: SpiRegisters, event: Event, on: bool) -> (out: SpiRegisters)
    ensures
        out == interrupts_set(r, event, on),
{
    match event {
        Event::Rxp => SpiRegisters { rxpie: on, ..r },
        Event::Txp => SpiRegisters { txpie: on, ..r },
        Event::Error => SpiRegisters { udrie: on, ovrie: on, crceie: on, modfie: on, ..r },
    }
}

/// An SPI in master mode with its pins.
pub struct Spi<PINS> {
    pub spi: SpiRegisters,
    pub pins: PINS,
}

/// The block holds a full-duplex master configuration in `mode` with MBR
/// code `mbr` and 8-bit frames, and is enabled.
pub open spec fn configured(r: SpiRegisters, before: SpiRegisters, mode: Mode, mbr: u8) -> bool {
    &&& r.mbr == mbr
    &&& r.dsize == 7
    &&& !r.ssoe
    &&& r.cpha == (mode.phase == Phase::CaptureOnSecondTransition)
    &&& r.cpol == (mode.polarity == Polarity::IdleHigh)
    &&& r.master && !r.lsbfrst && r.ssm && r.comm == 0
    &&& r.ssi && r.spe && !r.cstart
    &&& r.rxpie == before.rxpie && r.txpie == before.txpie && r.udrie == before.udrie
    &&& r.ovrie == before.ovrie && r.crceie == before.crceie && r.modfie == before.modfie
    &&& r.txp == before.txp && r.rxp == before.rxp && r.modf == before.modf
    &&& r.ovr == before.ovr && r.crce == before.crce
    &&& r.rxdr == before.rxdr && r.txdr == before.txdr
}

/// The outcome of a read on a block in state `r`: the first error flag
/// that is up, else the received byte, else a retry.
pub open spec fn read_outcome(r: SpiRegisters) -> Result<u8, NbError<Error>> {
    if r.ovr {
        Err(NbError::Other(Error::Overrun))
    } else if r.modf {
        Err(NbError::Other(Error::ModeFault))
    } else if r.crce {
        Err(NbError::Other(Error::Crc))
    } else if r.rxp {
        Ok(r.rxdr)
    } else {
        Err(NbError::WouldBlock)
    }
}

/// The outcome of a send on a block in state `r`: the first error flag
/// that is up, else success when the transmit buffer has room, else a
/// retry.
pub open spec fn send_outcome(r: SpiRegisters) -> Result<(), NbError<Error>> {
    if r.ovr {
        Err(NbError::Other(Error::Overrun))
    } else if r.modf {
        Err(NbError::Other(Error::ModeFault))
    } else if r.crce {
        Err(NbError::Other(Error::Crc))
    } else if r.txp {
        Ok(())
    } else {
        Err(NbError::WouldBlock)
    }
}

/// An SPI can run at `freq` from `source`: its kernel clock runs, at
/// `freq` or faster.
pub open spec fn spi_feasible(source: SpiKernelSource, clocks: CoreClocks, freq: Hertz) -> bool {
    &&& freq.0 > 0
    &&& kernel_clock_of(source, clocks) is Some
    &&& freq.0 <= kernel_clock_of(source, clocks)->0
}

/// SPI register blocks that can become a master.
pub trait SpiExt<SPI>: Sized {
    /// A master at `freq` in `mode`, clocked from `source`.
    fn spi<PINS: Pins<SPI>>(
        self,
        pins: PINS,
        mode: Mode,
        freq: Hertz,
        source: SpiKernelSource,
        clocks: &CoreClocks,
    ) -> Spi<PINS>
        requires
            spi_feasible(source, *clocks, freq),
    ;
}

impl SpiExt<SpiRegisters> for SpiRegisters {
    fn spi<PINS: Pins<SpiRegisters>>(
        self,
        pins: PINS,
        mode: Mode,
        freq: Hertz,
        source: SpiKernelSource,
        clocks: &CoreClocks,
    ) -> Spi<PINS> {
        Spi::new(self, pins, mode, freq, source, clocks)
    }
}

impl<PINS> Spi<PINS> {
    /// Configures `spi` as a full-duplex master at `freq` in `mode`, with
    /// 8-bit frames and software slave management, clocked from
    /// `source`, and enables it.
    pub fn new(
        spi: SpiRegisters,
        pins: PINS,
        mode: Mode,
        freq: Hertz,
        source: SpiKernelSource,
        clocks: &CoreClocks,
    ) -> (r: Spi<PINS>)
        requires
            spi_feasible(source, *clocks, freq),
        ensures
            configured(
                r.spi,
                spi,
                mode,
                mbr_code(kernel_clock_of(source, *clocks)->0 / freq.0 as int),
            ),
            r.pins == pins,
    {
        let ker_ck: u32 = match kernel_clk(source, clocks) {
            Some(h) => h.0,
            None => freq.0,
        };
        let mut regs = spi;
        // Slave select output off.
        regs.ssoe = false;
        regs.mbr = baud_rate_code(ker_ck, freq.0);
        regs.dsize = 8 - 1;
        regs.ssi = true;
        regs.spe = false;
        regs.cstart = false;
        regs.cpha = match mode.phase {
            Phase::CaptureOnSecondTransition => true,
            Phase::CaptureOnFirstTransition => false,
        };
        regs.cpol = match mode.polarity {
            Polarity::IdleHigh => true,
            Polarity::IdleLow => false,
        };
        regs.master = true;
        regs.lsbfrst = false;
        regs.ssm = true;
        regs.comm = 0;
        // Enable the bus.
        regs.spe = true;
        Spi { spi: regs, pins }
    }

    /// Enables the interrupts of `event`.
    pub fn listen(&mut self, event: Event)
        ensures
            final(self).spi == interrupts_set(old(self).spi, event, true),
    {
        let spi = set_interrupts(self.spi, event, true);
        self.spi = spi;
    }

    /// Disables the interrupts of `event`.
    pub fn unlisten(&mut self, event: Event)
        ensures
            final(self).spi == interrupts_set(old(self).spi, event, false),
    {
        let spi = set_interrupts(self.spi, event, false);
        self.spi = spi;
    }

    /// New data to transmit can be written.
    pub fn is_txp(&self) -> (r: bool)
        ensures
            r == self.spi.txp,
    {
        self.spi.txp
    }

    /// New data has been received and can be read.
    pub fn is_rxp(&self) -> (r: bool)
        ensures
            r == self.spi.rxp,
    {
        self.spi.rxp
    }

    /// A mode fault occurred.
    pub fn is_modf(&self) -> (r: bool)
        ensures
            r == self.spi.modf,
    {
        self.spi.modf
    }

    /// Data was received while the receive register was full.
    pub fn is_ovr(&self) -> (r: bool)
        ensures
            r == self.spi.ovr,
    {
        self.spi.ovr
    }

    /// Gives back the register block and the pins.
    pub fn free(self) -> (r: (SpiRegisters, PINS))
        ensures
            r.0 == self.spi,
            r.1 == self.pins,
    {
        (self.spi, self.pins)
    }

    /// Reads a received byte, or reports an error flag, or asks to retry.
    pub fn read(&mut self) -> (r: Result<u8, NbError<Error>>)
        ensures
            r == read_outcome(old(self).spi),
            final(self).spi == old(self).spi,
    {
        if self.spi.ovr {
            Err(NbError::Other(Error::Overrun))
        } else if self.spi.modf {
            Err(NbError::Other(Error::ModeFault))
        } else if self.spi.crce {
            Err(NbError::Other(Error::Crc))
        } else if self.spi.rxp {
            Ok(self.spi.rxdr)
        } else {
            Err(NbError::WouldBlock)
        }
    }

    /// Writes `byte` and starts the transfer, or reports an error flag,
    /// or asks to retry.
    pub fn send(&mut self, byte: u8) -> (r: Result<(), NbError<Error>>)
        ensures
            r == send_outcome(old(self).spi),
            r is Ok ==> final(self).spi == (SpiRegisters {
                txdr: byte,
                cstart: true,
                ..old(self).spi
            }),
            r is Err ==> final(self).spi == old(self).spi,
    {
        if self.spi.ovr {
            Err(NbError::Other(Error::Overrun))
        } else if self.spi.modf {
            Err(NbError::Other(Error::ModeFault))
        } else if self.spi.crce {
            Err(NbError::Other(Error::Crc))
        } else if self.spi.txp {
            self.spi.txdr = byte;
            self.spi.cstart = true;
            Ok(())
        } else {
            Err(NbError::WouldBlock)
        }
    }
}

} // verus!
