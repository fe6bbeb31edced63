//! Gyroscope output: three big-endian signed words, x then y then z.
use vstd::prelude::*;

verus! {

/// First register of the block.
pub const ADDR: u8 = 0x43;

/// The x word.
pub struct X;

impl X {
    pub const ADDR: u8 = 0x43;
    pub const BYTES_START: u8 = 0;
    pub const BYTES_LEN: u8 = 2;
}

/// The y word.
pub struct Y;

impl Y {
    pub const ADDR: u8 = 0x45;
    pub const BYTES_START: u8 = 0;
    pub const BYTES_LEN: u8 = 2;
}

/// The z word.
pub struct Z;

impl Z {
    pub const ADDR: u8 = 0x47;
    pub const BYTES_START: u8 = 0;
    pub const BYTES_LEN: u8 = 2;
}

} // verus!
