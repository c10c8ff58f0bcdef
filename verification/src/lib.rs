//! Protocol layer for the MCP4725 12-bit digital-to-analog converter.
//!
//! The chip is driven over a two-wire serial bus. This crate holds the
//! bit-exact protocol logic: building the command frames that set the DAC
//! output (and optionally persist it to the chip's EEPROM), and parsing the
//! fixed five-byte status reply into typed views of the DAC register and the
//! EEPROM. Issuing the actual bus transactions is left to the caller.

pub mod encode;
pub mod laws;
pub mod types;

pub use encode::fast_write;
pub use encode::set_voltage;
pub use types::EEPROMStatus;
pub use types::PowerDownMode;
pub use types::RegisterStatus;
