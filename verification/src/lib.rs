//! Driver core for an AD7172-class multiplexed delta-sigma ADC reached over a
//! software-emulated (bit-banged) SPI link.
//!
//! The crate is organised around four components:
//! - [`softspi`]: a tick-driven serial shift engine, modelled as a pure state
//!   machine over the logic levels of the clock and data lines;
//! - [`checksum`]: the per-transaction checksum accumulator (off, XOR or
//!   CRC-8 with polynomial 0x07);
//! - [`regs`]: the register catalog: one address and fixed-size payload codec
//!   per device register, with bit-field accessors;
//! - [`adc`]: the transaction orchestrator that frames register reads and
//!   writes with an address byte and a trailing checksum byte.
//!
//! [`port`] is the byte-transfer boundary between the orchestrator and
//! whatever moves the bytes, with a verified scripted simulator; [`fields`]
//! holds the enumerated values the register codecs speak of; [`session`]
//! holds the small line-assembly and report-flag state kept per control
//! connection around the driver.

pub mod adc;
pub mod checksum;
pub mod fields;
pub mod port;
pub mod regs;
pub mod session;
pub mod softspi;
