//! Clock-tree configuration for a dual-domain microcontroller: frequency
//! planning for the PLL, bus prescalers and flash wait states, the ordered
//! register sequence that commits a plan to a register block, and the
//! serial audio and SPI drivers that derive their own dividers from the
//! frozen clocks.

pub mod time;
pub mod pwr;
pub mod error;
pub mod pll;
pub mod bus;
pub mod flash;
pub mod regs;
pub mod rcc;
pub mod sai;
pub mod spi;
