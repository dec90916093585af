//! Status decoder: parses the eight flag bits of the status register into a
//! structured, named view.  Decoding is total — every byte value is a valid
//! status — and touches no hardware; it is purely a parse of an
//! already-retrieved byte.

use vstd::prelude::*;

verus! {

// === STATUS_REG (27h) ===

/// X, Y and Z-axis data overrun.
pub const ZYXOR: u8 = 0b1000_0000;
/// Z-axis data overrun.
pub const ZOR: u8 = 0b0100_0000;
/// Y-axis data overrun.
pub const YOR: u8 = 0b0010_0000;
/// X-axis data overrun.
pub const XOR: u8 = 0b0001_0000;
/// X, Y and Z-axis new data available.
pub const ZYXDA: u8 = 0b0000_1000;
/// Z-axis new data available.
pub const ZDA: u8 = 0b0000_0100;
/// Y-axis new data available.
pub const YDA: u8 = 0b0000_0010;
/// X-axis new data available.
pub const XDA: u8 = 0b0000_0001;

/// A decoded snapshot of the status register at one point in time.
///
/// The eight flag bits are grouped for convenience:
///  * `zyxor` — the `ZYXOR` bit
///  * `xyzor` — the (`XOR`, `YOR`, `ZOR`) bits
///  * `zyxda` — the `ZYXDA` bit
///  * `xyzda` — the (`XDA`, `YDA`, `ZDA`) bits
///
/// It is a value, not a live view: it does not re-read the hardware.
#[derive(Clone, Copy, Debug, PartialEq, Eq)]
pub struct DataStatus {
    /// ZYXOR bit.
    pub zyxor: bool,
    /// (XOR, YOR, ZOR) bits.
    pub xyzor: (bool, bool, bool),
    /// ZYXDA bit.
    pub zyxda: bool,
    /// (XDA, YDA, ZDA) bits.
    pub xyzda: (bool, bool, bool),
}

impl DataStatus {
    /// Decode a raw status byte.  Total over all 256 byte values: each flag
    /// of the result holds exactly when its mask's bit is set in `raw`.
    pub fn decode(raw: u8) -> (r: DataStatus)
        ensures
            r.zyxor == (raw & ZYXOR != 0),
            r.xyzor.0 == (raw & XOR != 0),
            r.xyzor.1 == (raw & YOR != 0),
            r.xyzor.2 == (raw & ZOR != 0),
            r.zyxda == (raw & ZYXDA != 0),
            r.xyzda.0 == (raw & XDA != 0),
            r.xyzda.1 == (raw & YDA != 0),
            r.xyzda.2 == (raw & ZDA != 0),
    {
        DataStatus {
            zyxor: raw & ZYXOR != 0,
            xyzor: (raw & XOR != 0, raw & YOR != 0, raw & ZOR != 0),
            zyxda: raw & ZYXDA != 0,
            xyzda: (raw & XDA != 0, raw & YDA != 0, raw & ZDA != 0),
        }
    }
}

} // verus!
