//! Driver logic for a barometric pressure and temperature sensor on a
//! two-wire bus: calibration memory checksum and parsing, the conversion
//! command sequence, and the second-order fixed-point compensation. The bus
//! itself stays with the caller, who runs the commands this crate hands out
//! and hands back what was read.

pub mod compensation;
pub mod crc;
pub mod driver;
pub mod osr;
pub mod sequencer;
