//! Register map of the MPU-6050: addresses and bit positions.
//!
//! A bit field is given by its `_START` bit and `_LEN` width, in the masking
//! convention of [`crate::bits::set_bits`].
use vstd::prelude::*;

pub mod accel_out;
pub mod gyro_out;

verus! {

/// Slave address of the device, which its identity register also holds.
pub const MPU_ADDR: u8 = 0x68;

/// Gyroscope configuration register.
pub struct GYRO_CONFIG;

impl GYRO_CONFIG {
    pub const ADDR: u8 = 0x1b;
    pub const XG_ST_BIT: u8 = 7;
    pub const YG_ST_BIT: u8 = 6;
    pub const ZG_ST_BIT: u8 = 5;
    pub const GYRO_FS_SEL_START: u8 = 4;
    pub const GYRO_FS_SEL_LEN: u8 = 2;
    pub const FCHOICE_B_START: u8 = 0;
    pub const FCHOICE_B_LEN: u8 = 2;
}

/// Accelerometer configuration register.
pub struct ACCEL_CONFIG;

impl ACCEL_CONFIG {
    pub const ADDR: u8 = 0x1c;
    pub const XA_ST_BIT: u8 = 7;
    pub const YA_ST_BIT: u8 = 6;
    pub const ZA_ST_BIT: u8 = 5;
    pub const ACCEL_FS_SEL_START: u8 = 4;
    pub const ACCEL_FS_SEL_LEN: u8 = 2;
}

/// First power-management register.
pub struct PWR_MGMT_1;

impl PWR_MGMT_1 {
    pub const ADDR: u8 = 0x6b;
    pub const RESET_BIT: u8 = 7;
    pub const SLEEP_BIT: u8 = 6;
    pub const CYCLE_BIT: u8 = 5;
    pub const GYRO_STANDBY_BIT: u8 = 4;
    pub const TEMP_DIS_BIT: u8 = 3;
    pub const CLKSEL_START: u8 = 0;
    pub const CLKSEL_LEN: u8 = 3;
}

/// Configuration register (FIFO mode, external sync, low-pass filter).
pub struct CONFIG;

impl CONFIG {
    pub const ADDR: u8 = 0x1a;
    pub const FIFO_MODE_BIT: u8 = 6;
    pub const EXT_SYNC_SET_START: u8 = 3;
    pub const EXT_SYNC_SET_LEN: u8 = 3;
    pub const DLPF_CFG_START: u8 = 0;
    pub const DLPF_CFG_LEN: u8 = 3;
}

/// Second power-management register.
pub struct PWR_MGMT_2;

impl PWR_MGMT_2 {
    pub const ADDR: u8 = 0x6c;
    pub const LP_WAKE_CTRL_START: u8 = 6;
    pub const LP_WAKE_CTRL_LEN: u8 = 2;
    pub const DIS_XA_BIT: u8 = 5;
    pub const DIS_YA_BIT: u8 = 4;
    pub const DIS_ZA_BIT: u8 = 3;
    pub const DIS_XG_BIT: u8 = 2;
    pub const DIS_YG_BIT: u8 = 1;
    pub const DIS_ZG_BIT: u8 = 0;
}

/// Identity register.
pub struct WHO_AM_I;

impl WHO_AM_I {
    pub const ADDR: u8 = 0x75;
    pub const WHO_AM_I_START: u8 = 0;
    pub const WHO_AM_I_LEN: u8 = 8;
}

/// Temperature output: one big-endian signed word.
pub struct TEMP_OUT;

impl TEMP_OUT {
    pub const ADDR: u8 = 0x41;
    pub const BYTES_START: u8 = 0;
    pub const BYTES_LEN: u8 = 2;
}

} // verus!
