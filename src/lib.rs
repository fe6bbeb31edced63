//! Register-level driver for an MPU-6050 class inertial measurement unit.
//!
//! The crate covers the byte and bit-field protocol over an addressed serial
//! bus, the device driver (identity check, reset and wake sequencing, range
//! configuration with exact sensitivities), integer bias accumulation, and the
//! sampling step of an orientation estimator.
#![allow(non_camel_case_types)]

pub mod adafruit1893;
pub mod bits;
pub mod consts;
pub mod i2c;
pub mod mpu6050;
pub mod sampler;
pub mod vector;

pub use adafruit1893::{Adafruit1893, Adafruit1893Error};
pub use bits::{read_word_2c, set_bits, BitBlock, ByteBlock};
pub use i2c::{DelayMs, I2cBus, I2cDevice, I2cWrapperError};
pub use mpu6050::{
    AccelRange, BiasSum, GyroRange, Mpu6050, Mpu6050Error, Reading, Sensitivity,
};
pub use sampler::{elapsed_ms, ImuSampler, MotionSample};
pub use vector::{to_vec3, Vector2, Vector3};
