//! The register map: every addressable register, its fixed address, and
//! whether the hardware (rather than the host) drives its contents, together
//! with the two legal I2C slave addresses of the device family.

use vstd::prelude::*;

verus! {

/// Possible I2C slave addresses.
#[derive(Clone, Copy, Debug, PartialEq, Eq)]
pub enum SlaveAddr {
    /// Default slave address (`0x18`).
    Default,
    /// Alternate slave address (`0x19`).
    Alternate,
}

impl SlaveAddr {
    /// The fixed 7-bit bus address each variant stands for.
    pub open spec fn spec_addr(self) -> u8 {
        match self {
            SlaveAddr::Default => 0x18,
            SlaveAddr::Alternate => 0x19,
        }
    }

    /// Get the 7-bit I2C address.
    pub fn addr(self) -> (r: u8)
        ensures
            r == self.spec_addr(),
    {
        match self {
            SlaveAddr::Default => 0x18,
            SlaveAddr::Alternate => 0x19,
        }
    }
}

/// Every addressable register of the device.
#[allow(non_camel_case_types)]
#[derive(Clone, Copy, Debug, PartialEq, Eq)]
pub enum Register {
    CTRL1,
    CTRL2,
    CTRL3,
    CTRL4,
    CTRL5,
    HP_FILTER_RESET,
    REFERENCE,
    STATUS,
    OUT_X_L,
    OUT_X_H,
    OUT_Y_L,
    OUT_Y_H,
    OUT_Z_L,
    OUT_Z_H,
    INT1_CFG,
    INT1_SRC,
    INT1_THS,
    INT1_DURATION,
    INT2_CFG,
    INT2_SRC,
    INT2_THS,
    INT2_DURATION,
}

impl Register {
    /// The fixed hardware address of each register, as the datasheet gives it.
    pub open spec fn spec_addr(self) -> u8 {
        match self {
            Register::CTRL1 => 0x20,
            Register::CTRL2 => 0x21,
            Register::CTRL3 => 0x22,
            Register::CTRL4 => 0x23,
            Register::CTRL5 => 0x24,
            Register::HP_FILTER_RESET => 0x25,
            Register::REFERENCE => 0x26,
            Register::STATUS => 0x27,
            Register::OUT_X_L => 0x28,
            Register::OUT_X_H => 0x29,
            Register::OUT_Y_L => 0x2A,
            Register::OUT_Y_H => 0x2B,
            Register::OUT_Z_L => 0x2C,
            Register::OUT_Z_H => 0x2D,
            Register::INT1_CFG => 0x30,
            Register::INT1_SRC => 0x31,
            Register::INT1_THS => 0x32,
            Register::INT1_DURATION => 0x33,
            Register::INT2_CFG => 0x34,
            Register::INT2_SRC => 0x35,
            Register::INT2_THS => 0x36,
            Register::INT2_DURATION => 0x37,
        }
    }

    /// Get the register's address.
    pub fn addr(self) -> (r: u8)
        ensures
            r == self.spec_addr(),
    {
        match self {
            Register::CTRL1 => 0x20,
            Register::CTRL2 => 0x21,
            Register::CTRL3 => 0x22,
            Register::CTRL4 => 0x23,
            Register::CTRL5 => 0x24,
            Register::HP_FILTER_RESET => 0x25,
            Register::REFERENCE => 0x26,
            Register::STATUS => 0x27,
            Register::OUT_X_L => 0x28,
            Register::OUT_X_H => 0x29,
            Register::OUT_Y_L => 0x2A,
            Register::OUT_Y_H => 0x2B,
            Register::OUT_Z_L => 0x2C,
            Register::OUT_Z_H => 0x2D,
            Register::INT1_CFG => 0x30,
            Register::INT1_SRC => 0x31,
            Register::INT1_THS => 0x32,
            Register::INT1_DURATION => 0x33,
            Register::INT2_CFG => 0x34,
            Register::INT2_SRC => 0x35,
            Register::INT2_THS => 0x36,
            Register::INT2_DURATION => 0x37,
        }
    }

    /// A register is read-only exactly when the hardware drives its contents:
    /// the status register, the six axis-output registers, and the two
    /// interrupt-source registers.  Everything else is host-configurable.
    pub open spec fn spec_read_only(self) -> bool {
        self is STATUS || self is OUT_X_L || self is OUT_X_H || self is OUT_Y_L
            || self is OUT_Y_H || self is OUT_Z_L || self is OUT_Z_H || self is INT1_SRC
            || self is INT2_SRC
    }

    /// Is the register read-only?
    pub fn read_only(self) -> (r: bool)
        ensures
            r == self.spec_read_only(),
    {
        matches!(
            self,
            Register::STATUS
                | Register::OUT_X_L
                | Register::OUT_X_H
                | Register::OUT_Y_L
                | Register::OUT_Y_H
                | Register::OUT_Z_L
                | Register::OUT_Z_H
                | Register::INT1_SRC
                | Register::INT2_SRC
        )
    }
}

} // verus!
