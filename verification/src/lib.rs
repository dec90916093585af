//! Register-level core for an LIS331-family tri-axis MEMS accelerometer.
//!
//! The crate covers the typed register map, the bit-field codecs for the
//! full-scale range and the output data rate, the converters that turn
//! physical quantities (acceleration, time) into the one-byte values the
//! hardware expects, and the decoder for the status register.  Bus transport
//! (I2C or SPI) is deliberately out of scope: callers hand the bytes produced
//! here to whatever read/write primitives their platform provides.

use vstd::prelude::*;

pub mod codec;
pub mod convert;
pub mod regmap;
pub mod status;

verus! {

/// The two failure conditions of the register-level core.
#[derive(Clone, Copy, Debug, PartialEq, Eq)]
pub enum Error {
    /// A converted threshold or duration magnitude does not fit the
    /// one-byte register field for the selected range or data rate.
    Unrepresentable,
    /// A raw configuration field holds a reserved bit pattern that matches
    /// no known variant.
    UnknownBits,
}

} // verus!
