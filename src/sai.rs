//! Serial audio interface in I2S mode: the frame, slot and master clock
//! divider settings derived from the audio frequency and the frozen
//! clocks, and the channel register writes that apply them.

use crate::rcc::CoreClocks;
use crate::time::Hertz;
use vstd::prelude::*;

verus! {

/// Audio block mode.
#[derive(Clone, Copy, Debug, PartialEq, Eq, Structural)]
pub enum I2SMode {
    MasterTx,
    MasterRx,
    SlaveTx,
    SlaveRx,
}

/// Data size.
#[allow(non_camel_case_types)]
#[derive(Clone, Copy, Debug, PartialEq, Eq, Structural)]
pub enum I2SBitRate {
    BITS_8,
    BITS_10,
    BITS_16,
    BITS_20,
    BITS_24,
    BITS_32,
}

/// Slot size.
#[allow(non_camel_case_types)]
#[derive(Clone, Copy, Debug, PartialEq, Eq, Structural)]
pub enum I2SSlotSize {
    BITS_16,
    BITS_32,
}

/// Justification of the data in a slot.
#[derive(Clone, Copy, Debug, PartialEq, Eq, Structural)]
pub enum I2SProtocol {
    LSB,
    MSB,
}

/// Synchronization of an audio block.
#[allow(non_camel_case_types)]
#[derive(Clone, Copy, Debug, PartialEq, Eq, Structural)]
pub enum I2SSynchronization {
    MASTER,
    INTERNAL,
    EXTERNAL,
}

/// Error of the I2S interface.
#[allow(non_camel_case_types)]
#[derive(Clone, Copy, Debug, PartialEq, Eq, Structural)]
pub enum I2SError {
    FUBAR,
}

/// Oversampling of the master clock.
#[derive(Clone, Copy, Debug, PartialEq, Eq, Structural)]
pub enum I2SOverSampling {
    Enabled,
    Disabled,
}

/// Register code of a mode (the MODE field).
pub open spec fn mode_code(m: I2SMode) -> u8 {
    match m {
        I2SMode::MasterTx => 0b00,
        I2SMode::MasterRx => 0b01,
        I2SMode::SlaveTx => 0b10,
        I2SMode::SlaveRx => 0b11,
    }
}

/// Register code of a data size (the DS field).
pub open spec fn bit_rate_code(b: I2SBitRate) -> u8 {
    match b {
        I2SBitRate::BITS_8 => 0b001,
        I2SBitRate::BITS_10 => 0b010,
        I2SBitRate::BITS_16 => 0b100,
        I2SBitRate::BITS_20 => 0b101,
        I2SBitRate::BITS_24 => 0b110,
        I2SBitRate::BITS_32 => 0b111,
    }
}

/// Register code of a synchronization (the SYNCEN field).
pub open spec fn sync_code(s: I2SSynchronization) -> u8 {
    match s {
        I2SSynchronization::MASTER => 0b00,
        I2SSynchronization::INTERNAL => 0b01,
        I2SSynchronization::EXTERNAL => 0b10,
    }
}

/// Register code of a slot size (the SLOTSZ field).
pub open spec fn slot_size_code(s: I2SSlotSize) -> u8 {
    match s {
        I2SSlotSize::BITS_16 => 0b01,
        I2SSlotSize::BITS_32 => 0b10,
    }
}

impl I2SMode {
    /// The MODE field code.
    pub fn bits(self) -> (r: u8)
        ensures
            r == mode_code(self),
    {
        match self {
            I2SMode::MasterTx => 0b00,
            I2SMode::MasterRx => 0b01,
            I2SMode::SlaveTx => 0b10,
            I2SMode::SlaveRx => 0b11,
        }
    }

    /// Transmitters drive data on the falling clock edge, receivers
    /// sample on the rising one.
    pub fn clock_strobe(self) -> (r: bool)
        ensures
            r == (self == I2SMode::MasterTx || self == I2SMode::SlaveTx),
    {
        match self {
            I2SMode::SlaveTx => true,
            I2SMode::MasterTx => true,
            I2SMode::MasterRx => false,
            I2SMode::SlaveRx => false,
        }
    }
}

impl I2SBitRate {
    /// The DS field code.
    pub fn bits(self) -> (r: u8)
        ensures
            r == bit_rate_code(self),
    {
        match self {
            I2SBitRate::BITS_8 => 0b001,
            I2SBitRate::BITS_10 => 0b010,
            I2SBitRate::BITS_16 => 0b100,
            I2SBitRate::BITS_20 => 0b101,
            I2SBitRate::BITS_24 => 0b110,
            I2SBitRate::BITS_32 => 0b111,
        }
    }
}

impl I2SSynchronization {
    /// The SYNCEN field code.
    pub fn bits(self) -> (r: u8)
        ensures
            r == sync_code(self),
    {
        match self {
            I2SSynchronization::MASTER => 0b00,
            I2SSynchronization::INTERNAL => 0b01,
            I2SSynchronization::EXTERNAL => 0b10,
        }
    }
}

impl I2SSlotSize {
    /// The SLOTSZ field code.
    pub fn bits(self) -> (r: u8)
        ensures
            r == slot_size_code(self),
    {
        match self {
            I2SSlotSize::BITS_16 => 0b01,
            I2SSlotSize::BITS_32 => 0b10,
        }
    }
}

impl I2SOverSampling {
    /// The oversampling factor.
    pub fn factor(self) -> (r: u32)
        ensures
            r == (if self == I2SOverSampling::Enabled {
                2u32
            } else {
                1u32
            }),
    {
        match self {
            I2SOverSampling::Enabled => 2,
            I2SOverSampling::Disabled => 1,
        }
    }
}

/// Frame length in bit clocks of one pair of slots, and the slot size,
/// for a data size.
pub open spec fn pair_frame_of(b: I2SBitRate) -> (int, I2SSlotSize) {
    match b {
        I2SBitRate::BITS_8 => (16, I2SSlotSize::BITS_16),
        I2SBitRate::BITS_10 | I2SBitRate::BITS_16 => (32, I2SSlotSize::BITS_16),
        _ => (64, I2SSlotSize::BITS_32),
    }
}

/// Frame length and slot size for a data size, with two slots per frame.
pub open spec fn frame_of(b: I2SBitRate) -> (u8, I2SSlotSize) {
    (pair_frame_of(b).0 as u8, pair_frame_of(b).1)
}

/// Frame length and slot size for a data size with `nbslot` slots: each
/// pair of slots adds a pair frame.
pub fn frame_layout(bit_rate: I2SBitRate, nbslot: u8) -> (r: (u8, I2SSlotSize))
    requires
        nbslot / 2 <= 3,
    ensures
        r.0 == pair_frame_of(bit_rate).0 * (nbslot / 2),
        r.1 == pair_frame_of(bit_rate).1,
        nbslot == 2 ==> r == frame_of(bit_rate),
{
    let pairs: u8 = nbslot / 2;
    match bit_rate {
        I2SBitRate::BITS_8 => (16 * pairs, I2SSlotSize::BITS_16),
        I2SBitRate::BITS_10 => (32 * pairs, I2SSlotSize::BITS_16),
        I2SBitRate::BITS_16 => (32 * pairs, I2SSlotSize::BITS_16),
        I2SBitRate::BITS_20 => (64 * pairs, I2SSlotSize::BITS_32),
        I2SBitRate::BITS_24 => (64 * pairs, I2SSlotSize::BITS_32),
        I2SBitRate::BITS_32 => (64 * pairs, I2SSlotSize::BITS_32),
    }
}

/// Master clock divider for a kernel clock of `ker` Hertz and an audio
/// frequency of `audio` Hertz, without oversampling.
pub open spec fn mclk_divider(ker: int, audio: int) -> int {
    ker / (audio * 256)
}

/// The master clock divider; `None` when it does not fit a byte.
pub fn master_clock_divider(ker: u32, audio: u32) -> (r: Option<u8>)
    requires
        audio > 0,
    ensures
        r == (if mclk_divider(ker as int, audio as int) <= 255 {
            Some(mclk_divider(ker as int, audio as int) as u8)
        } else {
            None::<u8>
        }),
{
    let oversampling: u64 = I2SOverSampling::Disabled.factor() as u64;
    let denom: u64 = audio as u64 * 256 * oversampling;
    assert(denom == audio * 256);
    let d: u64 = ker as u64 / denom;
    if d <= 255 {
        Some(d as u8)
    } else {
        None
    }
}

/// One audio block (channel) of the interface, field by field.
#[derive(Clone, Copy, Debug, PartialEq, Eq, Structural)]
pub struct SaiChannelRegisters {
    pub mode: u8,
    pub ds: u8,
    pub lsbfirst: bool,
    pub ckstr: bool,
    pub syncen: u8,
    pub mono: bool,
    pub dmaen: bool,
    pub nodiv: bool,
    pub mckdiv: u8,
    pub saien: bool,
    pub fth: u8,
    pub fflush: bool,
    pub tris: bool,
    pub mute: bool,
    pub muteval: bool,
    pub cpl: bool,
    pub comp: u8,
    pub frl: u8,
    pub fsall: u8,
    pub fsdef: bool,
    pub fspol: bool,
    pub fsoff: bool,
    pub fboff: u8,
    pub slotsz: u8,
    pub nbslot: u8,
    pub sloten: u16,
}

impl SaiChannelRegisters {
    /// The block as it comes out of reset.
    pub fn reset() -> (r: SaiChannelRegisters)
        ensures
            !r.saien,
    {
        SaiChannelRegisters {
            mode: 0,
            ds: 0b100,
            lsbfirst: false,
            ckstr: false,
            syncen: 0,
            mono: false,
            dmaen: false,
            nodiv: false,
            mckdiv: 0,
            saien: false,
            fth: 0,
            fflush: false,
            tris: false,
            mute: false,
            muteval: false,
            cpl: false,
            comp: 0,
            frl: 7,
            fsall: 0,
            fsdef: false,
            fspol: false,
            fsoff: false,
            fboff: 0,
            slotsz: 0,
            nbslot: 0,
            sloten: 0,
        }
    }
}

/// `c` with its enable bit set to `on`.
pub open spec fn with_enable(c: SaiChannelRegisters, on: bool) -> SaiChannelRegisters {
    SaiChannelRegisters { saien: on, ..c }
}

/// A link with these master and slave blocks drives block `ch`.
pub open spec fn drives(master: SaiChannel, slave: Option<SaiChannel>, ch: SaiChannel) -> bool {
    master == ch || slave == Some(ch)
}

/// The serial audio interface: two audio blocks.
#[derive(Clone, Copy, Debug, PartialEq, Eq, Structural)]
pub struct SaiRegisters {
    pub cha: SaiChannelRegisters,
    pub chb: SaiChannelRegisters,
}

/// One of the two audio blocks.
#[derive(Clone, Copy, Debug, PartialEq, Eq, Structural)]
pub enum SaiChannel {
    ChannelA,
    ChannelB,
}

/// The settings shared by both blocks of an I2S link.
pub struct ChannelSettings {
    pub mclk_div: u8,
    pub bit_rate: I2SBitRate,
    pub nbslot: u8,
    pub frame_length: u8,
    pub first_bit_offset: u8,
    pub slot_size: I2SSlotSize,
    pub slot_en_bits: u16,
}

/// The block holds `mode`, `sync` and the settings `s`, and is not yet
/// enabled beyond what it was.
pub open spec fn channel_configured(
    after: SaiChannelRegisters,
    before: SaiChannelRegisters,
    mode: I2SMode,
    sync: I2SSynchronization,
    s: ChannelSettings,
) -> bool {
    &&& after.mode == mode_code(mode)
    &&& after.ds == bit_rate_code(s.bit_rate)
    &&& !after.lsbfirst
    &&& after.ckstr == (mode == I2SMode::MasterTx || mode == I2SMode::SlaveTx)
    &&& after.syncen == sync_code(sync)
    &&& !after.mono
    &&& after.dmaen
    &&& !after.nodiv
    &&& after.mckdiv == s.mclk_div + 1
    &&& after.saien == before.saien
    &&& after.fth == 0 && !after.fflush && !after.tris && !after.mute && !after.muteval
    &&& !after.cpl && after.comp == 0
    &&& after.frl == s.frame_length - 1
    &&& after.fsall == s.frame_length / 2
    &&& after.fsdef && after.fspol && !after.fsoff
    &&& after.fboff == s.first_bit_offset
    &&& after.slotsz == slot_size_code(s.slot_size)
    &&& after.nbslot == s.nbslot
    &&& after.sloten == s.slot_en_bits
}

/// Writes the configuration of one audio block.
pub fn i2s_config_channel(
    audio_ch: &mut SaiChannelRegisters,
    mode_bits: I2SMode,
    sync_bits: I2SSynchronization,
    s: &ChannelSettings,
)
    requires
        s.mclk_div < 255,
        s.frame_length >= 1,
    ensures
        channel_configured(*final(audio_ch), *old(audio_ch), mode_bits, sync_bits, *s),
{
    let clock_strobe = mode_bits.clock_strobe();
    audio_ch.mode = mode_bits.bits();
    audio_ch.ds = s.bit_rate.bits();
    audio_ch.lsbfirst = false;
    audio_ch.ckstr = clock_strobe;
    audio_ch.syncen = sync_bits.bits();
    audio_ch.mono = false;
    audio_ch.dmaen = true;
    audio_ch.nodiv = false;
    audio_ch.mckdiv = s.mclk_div + 1;

    audio_ch.fth = 0;
    audio_ch.fflush = false;
    audio_ch.tris = false;
    audio_ch.mute = false;
    audio_ch.muteval = false;
    audio_ch.cpl = false;
    audio_ch.comp = 0;

    audio_ch.frl = s.frame_length - 1;
    audio_ch.fsall = s.frame_length / 2;
    audio_ch.fsdef = true;
    audio_ch.fspol = true;
    audio_ch.fsoff = false;

    audio_ch.fboff = s.first_bit_offset;
    audio_ch.slotsz = s.slot_size.bits();
    audio_ch.nbslot = s.nbslot;
    audio_ch.sloten = s.slot_en_bits;
}

/// Pin sets that can carry channel A.
pub trait I2SPinsChA<SAI> {}

/// Pin sets that can carry channel B.
pub trait I2SPinsChB<SAI> {}

/// Master clock pins of channel A.
pub trait I2SPinMclkA<SAI> {}

/// Master clock pins of channel B.
pub trait I2SPinMclkB<SAI> {}

/// Bit clock pins of channel A.
pub trait I2SPinSckA<SAI> {}

/// Bit clock pins of channel B.
pub trait I2SPinSckB<SAI> {}

/// Frame sync pins of channel A.
pub trait I2SPinFsA<SAI> {}

/// Frame sync pins of channel B.
pub trait I2SPinFsB<SAI> {}

/// Data pins of channel A.
pub trait I2SPinSdA<SAI> {}

/// Data pins of channel B.
pub trait I2SPinSdB<SAI> {}

impl<SAI, MCLK, SCK, FS, SD1, SD2> I2SPinsChA<SAI> for (MCLK, SCK, FS, SD1, Option<SD2>) where
    MCLK: I2SPinMclkA<SAI>,
    SCK: I2SPinSckA<SAI>,
    FS: I2SPinFsA<SAI>,
    SD1: I2SPinSdA<SAI>,
    SD2: I2SPinSdB<SAI>,
 {

}

impl<SAI, MCLK, SCK, FS, SD1, SD2> I2SPinsChB<SAI> for (MCLK, SCK, FS, SD1, Option<SD2>) where
    MCLK: I2SPinMclkB<SAI>,
    SCK: I2SPinSckB<SAI>,
    FS: I2SPinFsB<SAI>,
    SD1: I2SPinSdB<SAI>,
    SD2: I2SPinSdA<SAI>,
 {

}

/// The I2S interface of a serial audio interface.
#[derive(Clone, Copy, Debug, PartialEq, Eq, Structural)]
pub struct I2S {
    pub using_dma: bool,
}

/// A serial audio interface driven as an I2S link: a master block and,
/// optionally, a slave block synchronized to it.
pub struct Sai {
    pub rb: SaiRegisters,
    pub master_channel: SaiChannel,
    pub slave_channel: Option<SaiChannel>,
    pub interface: I2S,
}

/// The block `ch` of `rb`.
pub open spec fn block(rb: SaiRegisters, ch: SaiChannel) -> SaiChannelRegisters {
    match ch {
        SaiChannel::ChannelA => rb.cha,
        SaiChannel::ChannelB => rb.chb,
    }
}

/// `rb` with the enable bit of each block that the link drives set to
/// `on`, the other block unchanged.
pub open spec fn link_enabled(
    rb: SaiRegisters,
    master: SaiChannel,
    slave: Option<SaiChannel>,
    on: bool,
) -> SaiRegisters {
    SaiRegisters {
        cha: if drives(master, slave, SaiChannel::ChannelA) {
            with_enable(rb.cha, on)
        } else {
            rb.cha
        },
        chb: if drives(master, slave, SaiChannel::ChannelB) {
            with_enable(rb.chb, on)
        } else {
            rb.chb
        },
    }
}

/// Sets the enable bit of the blocks a link drives: the slave block
/// before the master block when enabling, after it when disabling.
fn set_link_enable(
    rb: SaiRegisters,
    master: SaiChannel,
    slave: Option<SaiChannel>,
    on: bool,
) -> (r: SaiRegisters)
    ensures
        r == link_enabled(rb, master, slave, on),
{
    let mut cha = rb.cha;
    let mut chb = rb.chb;
    if on {
        match slave {
            Some(SaiChannel::ChannelA) => {
                cha = set_enable(cha, on);
            },
            Some(SaiChannel::ChannelB) => {
                chb = set_enable(chb, on);
            },
            None => {},
        }
    }
    match master {
        SaiChannel::ChannelA => {
            cha = set_enable(cha, on);
        },
        SaiChannel::ChannelB => {
            chb = set_enable(chb, on);
        },
    }
    if !on {
        match slave {
            Some(SaiChannel::ChannelA) => {
                cha = set_enable(cha, on);
            },
            Some(SaiChannel::ChannelB) => {
                chb = set_enable(chb, on);
            },
            None => {},
        }
    }
    SaiRegisters { cha, chb }
}

/// Sets the enable bit of a block.
fn set_enable(c: SaiChannelRegisters, on: bool) -> (r: SaiChannelRegisters)
    ensures
        r == with_enable(c, on),
{
    let mut r = c;
    r.saien = on;
    r
}

/// The I2S settings for `audio_freq` at `bit_rate`, when the kernel clock
/// runs at `ker` Hertz.
pub open spec fn link_settings(ker: int, audio: int, bit_rate: I2SBitRate) -> ChannelSettings {
    ChannelSettings {
        mclk_div: mclk_divider(ker, audio) as u8,
        bit_rate,
        nbslot: 2,
        frame_length: frame_of(bit_rate).0,
        first_bit_offset: 0,
        slot_size: frame_of(bit_rate).1,
        slot_en_bits: 3,
    }
}

/// Channel A can run I2S at `audio` Hertz from these clocks: the kernel
/// clock (PLL1 Q, the reset selection) runs and gives a master clock
/// divider below 255.
pub open spec fn i2s_ch_a_feasible(clocks: CoreClocks, audio: Hertz) -> bool {
    &&& audio.0 > 0
    &&& clocks@.pll1_q_ck is Some
    &&& mclk_divider(clocks@.pll1_q_ck->0, audio.0 as int) < 255
}

/// Serial audio interfaces that can become an I2S link.
pub trait SaiI2sExt<SAI>: Sized {
    /// An I2S link with channel A as master transmitter and channel B as
    /// synchronized slave receiver.
    fn i2s_ch_a<PINS: I2SPinsChA<SAI>>(
        self,
        pins: PINS,
        audio_freq: Hertz,
        bit_rate: I2SBitRate,
        clocks: &CoreClocks,
    ) -> Sai
        requires
            i2s_ch_a_feasible(*clocks, audio_freq),
    ;

    /// An I2S link with channel B as master.
    fn i2s_ch_b<PINS: I2SPinsChB<SAI>>(
        self,
        pins: PINS,
        audio_freq: Hertz,
        bit_rate: I2SBitRate,
        clocks: &CoreClocks,
    ) -> Sai;
}

impl SaiI2sExt<SaiRegisters> for SaiRegisters {
    fn i2s_ch_a<PINS: I2SPinsChA<SaiRegisters>>(
        self,
        pins: PINS,
        audio_freq: Hertz,
        bit_rate: I2SBitRate,
        clocks: &CoreClocks,
    ) -> Sai {
        Sai::i2s_sai1_ch_a(self, pins, audio_freq, bit_rate, clocks)
    }

    fn i2s_ch_b<PINS: I2SPinsChB<SaiRegisters>>(
        self,
        pins: PINS,
        audio_freq: Hertz,
        bit_rate: I2SBitRate,
        clocks: &CoreClocks,
    ) -> Sai {
        Sai::i2s_sai1_ch_b(self, pins, audio_freq, bit_rate, clocks)
    }
}

impl Sai {
    /// Configures an I2S link: channel A master transmitter, channel B
    /// slave receiver synchronized to it, two slots per frame, the master
    /// clock divided from the kernel clock for `audio_freq`.
    pub fn i2s_sai1_ch_a<PINS: I2SPinsChA<SaiRegisters>>(
        sai: SaiRegisters,
        _pins: PINS,
        audio_freq: Hertz,
        bit_rate: I2SBitRate,
        clocks: &CoreClocks,
    ) -> (r: Sai)
        requires
            i2s_ch_a_feasible(*clocks, audio_freq),
        ensures
            r.master_channel == SaiChannel::ChannelA,
            r.slave_channel == Some(SaiChannel::ChannelB),
            !r.interface.using_dma,
            channel_configured(
                r.rb.cha,
                sai.cha,
                I2SMode::MasterTx,
                I2SSynchronization::MASTER,
                link_settings(clocks@.pll1_q_ck->0, audio_freq.0 as int, bit_rate),
            ),
            channel_configured(
                r.rb.chb,
                sai.chb,
                I2SMode::SlaveRx,
                I2SSynchronization::INTERNAL,
                link_settings(clocks@.pll1_q_ck->0, audio_freq.0 as int, bit_rate),
            ),
    {
        let nbslot: u8 = 2;
        let (frame_length, slot_size) = frame_layout(bit_rate, nbslot);
        let ker_ck = match clocks.pll1_q_ck() {
            Some(h) => h,
            None => Hertz(0),
        };
        let mclk_div: u8 = match master_clock_divider(ker_ck.0, audio_freq.0) {
            Some(d) => d,
            None => 0,
        };
        let settings = ChannelSettings {
            mclk_div,
            bit_rate,
            nbslot,
            frame_length,
            first_bit_offset: 0,
            slot_size,
            slot_en_bits: 3,
        };
        let mut per_sai = Sai {
            rb: sai,
            master_channel: SaiChannel::ChannelA,
            slave_channel: Some(SaiChannel::ChannelB),
            interface: I2S { using_dma: false },
        };
        i2s_config_channel(
            &mut per_sai.rb.cha,
            I2SMode::MasterTx,
            I2SSynchronization::MASTER,
            &settings,
        );
        i2s_config_channel(
            &mut per_sai.rb.chb,
            I2SMode::SlaveRx,
            I2SSynchronization::INTERNAL,
            &settings,
        );
        per_sai
    }

    /// An I2S link with channel B as master and no slave; the blocks are
    /// left as they are.
    pub fn i2s_sai1_ch_b<PINS: I2SPinsChB<SaiRegisters>>(
        sai: SaiRegisters,
        _pins: PINS,
        _audio_freq: Hertz,
        _bit_rate: I2SBitRate,
        _clocks: &CoreClocks,
    ) -> (r: Sai)
        ensures
            r.rb == sai,
            r.master_channel == SaiChannel::ChannelB,
            r.slave_channel is None,
            !r.interface.using_dma,
    {
        Sai {
            rb: sai,
            master_channel: SaiChannel::ChannelB,
            slave_channel: None,
            interface: I2S { using_dma: false },
        }
    }

    /// Enables the link: the slave block first, then the master block.
    pub fn enable(&mut self)
        ensures
            final(self).master_channel == old(self).master_channel,
            final(self).slave_channel == old(self).slave_channel,
            final(self).interface == old(self).interface,
            final(self).rb == link_enabled(old(self).rb, old(self).master_channel, old(self).slave_channel, true),
    {
        let rb = set_link_enable(self.rb, self.master_channel, self.slave_channel, true);
        self.rb = rb;
    }

    /// Disables the link: the master block first, then the slave block.
    pub fn disable(&mut self)
        ensures
            final(self).master_channel == old(self).master_channel,
            final(self).slave_channel == old(self).slave_channel,
            final(self).interface == old(self).interface,
            final(self).rb == link_enabled(old(self).rb, old(self).master_channel, old(self).slave_channel, false),
    {
        let rb = set_link_enable(self.rb, self.master_channel, self.slave_channel, false);
        self.rb = rb;
    }
}

} // verus!
