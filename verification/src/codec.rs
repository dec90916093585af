//! Field codecs: the full-scale range and output-data-rate enumerations,
//! their bit-pattern encodings, the mask constants that isolate each field
//! inside its control register, and the fallible decode direction used when
//! reading the current configuration back from the device.

use vstd::prelude::*;

use crate::Error;

verus! {

// === CTRL_REG1 (20h) ===

/// Bits of CTRL1 that hold the output-data-rate field.
pub const ODR_MASK: u8 = 0b1111_0000;
/// Low-power enable bit of CTRL1.
pub const LP_EN: u8 = 0b0000_1000;
/// Z-axis enable bit of CTRL1.
pub const Z_EN: u8 = 0b0000_0100;
/// Y-axis enable bit of CTRL1.
pub const Y_EN: u8 = 0b0000_0010;
/// X-axis enable bit of CTRL1.
pub const X_EN: u8 = 0b0000_0001;

// === CTRL_REG4 (23h) ===

/// Block-data-update bit of CTRL4.
pub const BDU: u8 = 0b1000_0000;
/// Bits of CTRL4 that hold the full-scale field.
pub const FS_MASK: u8 = 0b0011_0000;
/// High-resolution bit of CTRL4.
pub const HR: u8 = 0b0000_1000;

/// Full-scale selection.
#[derive(Clone, Copy, Debug, PartialEq, Eq)]
pub enum Range {
    /// +/- 24 g
    G24,
    /// +/- 12 g
    G12,
    /// +/- 6 g (default)
    G6,
}

impl Range {
    /// The two-bit pattern the hardware's full-scale field uses for each
    /// range.
    pub open spec fn spec_bits(self) -> u8 {
        match self {
            Range::G24 => 0b11,
            Range::G12 => 0b01,
            Range::G6 => 0b00,
        }
    }

    /// Get the bit pattern to write into the full-scale field, after masking
    /// the field's positions out with [`FS_MASK`].
    pub fn bits(self) -> (r: u8)
        ensures
            r == self.spec_bits(),
    {
        match self {
            Range::G24 => 0b11,
            Range::G12 => 0b01,
            Range::G6 => 0b00,
        }
    }

    /// The fixed scale of each range in milli-g per least-significant bit.
    /// Whether these values match the hardware's actual scale exactly is an
    /// open question; they are kept fixed because changing them would change
    /// every converted threshold.
    pub open spec fn spec_as_mg(self) -> u8 {
        match self {
            Range::G24 => 192,
            Range::G12 => 96,
            Range::G6 => 48,
        }
    }

    /// Convert the range into its scale in milli-g per least-significant bit.
    pub fn as_mg(self) -> (r: u8)
        ensures
            r == self.spec_as_mg(),
    {
        match self {
            Range::G24 => 192,
            Range::G12 => 96,
            Range::G6 => 48,
        }
    }

    /// The range a raw full-scale field decodes to: the variant whose
    /// encoding matches, or [`Error::UnknownBits`] for a reserved pattern.
    pub open spec fn spec_try_from_bits(bits: u8) -> Result<Range, Error> {
        match bits {
            0b00 => Ok(Range::G6),
            0b01 => Ok(Range::G12),
            0b11 => Ok(Range::G24),
            _ => Err(Error::UnknownBits),
        }
    }

    /// Decode a raw full-scale field back into a range.  Reserved bit
    /// patterns are reported, never defaulted, so a read-back cannot
    /// silently misstate the device's configuration.
    pub fn try_from_bits(bits: u8) -> (r: Result<Range, Error>)
        ensures
            r == Range::spec_try_from_bits(bits),
    {
        match bits {
            0b00 => Ok(Range::G6),
            0b01 => Ok(Range::G12),
            0b11 => Ok(Range::G24),
            _ => Err(Error::UnknownBits),
        }
    }
}

impl Default for Range {
    /// The device powers up with the +/- 6 g full scale selected.
    fn default() -> (r: Self)
        ensures
            r == Range::G6,
    {
        Range::G6
    }
}

/// Decoding the pattern a range encodes to reconstructs that range: the
/// full-scale field round-trips without collision.
pub proof fn lemma_range_bits_round_trip(range: Range)
    ensures
        Range::spec_try_from_bits(range.spec_bits()) == Ok::<Range, Error>(range),
{
}

/// Output data rate.
#[allow(non_camel_case_types)]
#[derive(Clone, Copy, Debug, PartialEq, Eq)]
pub enum DataRate {
    /// 1000 Hz
    Hz_1000,
    /// 400 Hz
    Hz_400,
    /// 100 Hz
    Hz_100,
    /// 50 Hz
    Hz_50,
    /// 10 Hz
    Hz_10,
    /// 5 Hz
    Hz_5,
    /// 2 Hz
    Hz_2,
    /// 1 Hz
    Hz_1,
    /// 0.5 Hz
    Hz_05,
    /// Power down
    PowerDown,
}

impl DataRate {
    /// The five-bit pattern the hardware's data-rate field uses for each
    /// rate.  The ordering is the wire format's own and is not monotonic in
    /// frequency.
    pub open spec fn spec_bits(self) -> u8 {
        match self {
            DataRate::Hz_1000 => 0b00111,
            DataRate::Hz_400 => 0b00110,
            DataRate::Hz_100 => 0b00101,
            DataRate::Hz_50 => 0b00100,
            DataRate::Hz_10 => 0b11000,
            DataRate::Hz_5 => 0b10100,
            DataRate::Hz_2 => 0b10000,
            DataRate::Hz_1 => 0b01100,
            DataRate::Hz_05 => 0b01000,
            DataRate::PowerDown => 0b00000,
        }
    }

    /// Get the bit pattern to write into the data-rate field, after masking
    /// the field's positions out with [`ODR_MASK`].
    pub fn bits(self) -> (r: u8)
        ensures
            r == self.spec_bits(),
    {
        match self {
            DataRate::Hz_1000 => 0b00111,
            DataRate::Hz_400 => 0b00110,
            DataRate::Hz_100 => 0b00101,
            DataRate::Hz_50 => 0b00100,
            DataRate::Hz_10 => 0b11000,
            DataRate::Hz_5 => 0b10100,
            DataRate::Hz_2 => 0b10000,
            DataRate::Hz_1 => 0b01100,
            DataRate::Hz_05 => 0b01000,
            DataRate::PowerDown => 0b00000,
        }
    }

    /// The nominal output frequency of each rate in milli-hertz, the exact
    /// integer unit the duration converter computes with: 500 stands for the
    /// 0.5 Hz rate and 0 for power-down.
    pub open spec fn spec_sample_rate_milli_hz(self) -> u32 {
        match self {
            DataRate::Hz_1000 => 1_000_000,
            DataRate::Hz_400 => 400_000,
            DataRate::Hz_100 => 100_000,
            DataRate::Hz_50 => 50_000,
            DataRate::Hz_10 => 10_000,
            DataRate::Hz_5 => 5_000,
            DataRate::Hz_2 => 2_000,
            DataRate::Hz_1 => 1_000,
            DataRate::Hz_05 => 500,
            DataRate::PowerDown => 0,
        }
    }

    /// Get the nominal output frequency in milli-hertz (0 for power-down).
    pub fn sample_rate_milli_hz(self) -> (r: u32)
        ensures
            r == self.spec_sample_rate_milli_hz(),
    {
        match self {
            DataRate::Hz_1000 => 1_000_000,
            DataRate::Hz_400 => 400_000,
            DataRate::Hz_100 => 100_000,
            DataRate::Hz_50 => 50_000,
            DataRate::Hz_10 => 10_000,
            DataRate::Hz_5 => 5_000,
            DataRate::Hz_2 => 2_000,
            DataRate::Hz_1 => 1_000,
            DataRate::Hz_05 => 500,
            DataRate::PowerDown => 0,
        }
    }

    /// The data rate a raw field value decodes to: the variant whose
    /// encoding matches, or [`Error::UnknownBits`] for a reserved pattern.
    pub open spec fn spec_try_from_bits(bits: u8) -> Result<DataRate, Error> {
        match bits {
            0b00111 => Ok(DataRate::Hz_1000),
            0b00110 => Ok(DataRate::Hz_400),
            0b00101 => Ok(DataRate::Hz_100),
            0b00100 => Ok(DataRate::Hz_50),
            0b11000 => Ok(DataRate::Hz_10),
            0b10100 => Ok(DataRate::Hz_5),
            0b10000 => Ok(DataRate::Hz_2),
            0b01100 => Ok(DataRate::Hz_1),
            0b01000 => Ok(DataRate::Hz_05),
            0b00000 => Ok(DataRate::PowerDown),
            _ => Err(Error::UnknownBits),
        }
    }

    /// Decode a raw data-rate field back into a rate.  Reserved bit patterns
    /// are reported, never defaulted.
    pub fn try_from_bits(bits: u8) -> (r: Result<DataRate, Error>)
        ensures
            r == DataRate::spec_try_from_bits(bits),
    {
        match bits {
            0b00111 => Ok(DataRate::Hz_1000),
            0b00110 => Ok(DataRate::Hz_400),
            0b00101 => Ok(DataRate::Hz_100),
            0b00100 => Ok(DataRate::Hz_50),
            0b11000 => Ok(DataRate::Hz_10),
            0b10100 => Ok(DataRate::Hz_5),
            0b10000 => Ok(DataRate::Hz_2),
            0b01100 => Ok(DataRate::Hz_1),
            0b01000 => Ok(DataRate::Hz_05),
            0b00000 => Ok(DataRate::PowerDown),
            _ => Err(Error::UnknownBits),
        }
    }
}

/// Decoding the pattern a data rate encodes to reconstructs that rate: the
/// data-rate field round-trips without collision.
pub proof fn lemma_data_rate_bits_round_trip(rate: DataRate)
    ensures
        DataRate::spec_try_from_bits(rate.spec_bits()) == Ok::<DataRate, Error>(rate),
{
}

} // verus!
