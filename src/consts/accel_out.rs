//! Accelerometer output: three big-endian signed words, x then y then z.
use vstd::prelude::*;

verus! {

/// First register of the block.
pub const ADDR: u8 = 0x3b;

/// The x word.
pub struct X;

impl X {
    pub const ADDR: u8 = 0x3b;
    pub const BYTES_START: u8 = 0;
    pub const BYTES_LEN: u8 = 2;
}

/// The y word.
pub struct Y;

impl Y {
    pub const ADDR: u8 = 0x3d;
    pub const BYTES_START: u8 = 0;
    pub const BYTES_LEN: u8 = 2;
}

/// The z word.
pub struct Z;

impl Z {
    pub const ADDR: u8 = 0x3f;
    pub const BYTES_START: u8 = 0;
    pub const BYTES_LEN: u8 = 2;
}

} // verus!
