//! Bit-field masking within one byte register and decoding of signed
//! big-endian 16-bit sensor words.
use vstd::prelude::*;

verus! {

/// A contiguous run of bits within one byte register.
///
/// The run is `len` bits wide; where the field sits is fixed by the device's
/// masking convention, see [`mask_shift`].
#[derive(Clone, Copy, Debug, PartialEq, Eq)]
pub struct BitBlock {
    pub start: u8,
    pub len: u8,
}

/// A contiguous run of bytes within a multi-byte register block.
#[derive(Clone, Copy, Debug, PartialEq, Eq)]
pub struct ByteBlock {
    pub start: u8,
    pub len: u8,
}

impl BitBlock {
    /// A field that the masking arithmetic accepts: a start bit of the byte
    /// and a width of one to eight bits.
    pub open spec fn valid(self) -> bool {
        self.start < 8 && 1 <= self.len <= 8
    }
}

/// Position of the field's lowest bit: zero when `start < length`, and
/// `start - length + 1` otherwise, so that the field ends at bit `start`.
pub open spec fn mask_shift(start: u8, length: u8) -> u8 {
    if start < length {
        0
    } else {
        (start - length + 1) as u8
    }
}

/// The `length` lowest bits set.
pub open spec fn low_mask(length: u8) -> u8 {
    (((1u16 << length) - 1) as u16) as u8
}

/// The bits of the register that the field covers.
pub open spec fn field_mask(start: u8, length: u8) -> u8 {
    ((((1u16 << length) - 1) as u16) << mask_shift(start, length)) as u8
}

/// The register byte after the field has been set to `data`: the field's bits
/// are replaced by the low bits of `data`, all other bits are kept.
pub open spec fn apply_bits(byte: u8, start: u8, length: u8, data: u8) -> u8 {
    (byte & !field_mask(start, length)) | (((data << mask_shift(start, length)) as u8) & field_mask(
        start,
        length,
    ))
}

/// The value held in the field, read back from a register byte.
pub open spec fn field_value(byte: u8, start: u8, length: u8) -> u8 {
    (byte >> mask_shift(start, length)) & low_mask(length)
}

/// The signed value of the big-endian two's-complement word `high, low`.
pub open spec fn word_2c(high: u8, low: u8) -> int {
    let w = high * 256 + low;
    if w >= 0x8000 {
        w - 0x10000
    } else {
        w
    }
}

/// Writing a field and reading the same field back gives the low `length`
/// bits of the written value, and every bit outside the field keeps its
/// previous value.
pub proof fn lemma_write_then_read_field(byte: u8, start: u8, length: u8, data: u8)
    requires
        start < 8,
        1 <= length <= 8,
    ensures
        field_value(apply_bits(byte, start, length, data), start, length) == data & low_mask(
            length,
        ),
        apply_bits(byte, start, length, data) & !field_mask(start, length) == byte & !field_mask(
            start,
            length,
        ),
{
    let s = mask_shift(start, length);
    assert(s + length <= 8);
    assert(((byte & !(((((1u16 << length) - 1) as u16) << s) as u8)) | (((data << s) as u8) & (((((
    1u16 << length) - 1) as u16) << s) as u8))) >> s & ((((1u16 << length) - 1) as u16) as u8) == data
        & ((((1u16 << length) - 1) as u16) as u8)) by (bit_vector)
        requires
            1 <= length <= 8,
            s + length <= 8,
    ;
    assert(((byte & !(((((1u16 << length) - 1) as u16) << s) as u8)) | (((data << s) as u8) & (((((
    1u16 << length) - 1) as u16) << s) as u8))) & !(((((1u16 << length) - 1) as u16) << s) as u8)
        == byte & !(((((1u16 << length) - 1) as u16) << s) as u8)) by (bit_vector);
}

/// Sets the field of `length` bits that ends at `bit_start` (or starts at bit
/// zero when `bit_start < length`) to the low bits of `data`, keeping every
/// other bit of `byte`.
pub fn set_bits(byte: &mut u8, bit_start: u8, length: u8, data: u8)
    requires
        bit_start < 8,
        1 <= length <= 8,
    ensures
        *final(byte) == apply_bits(*old(byte), bit_start, length, data),
        field_value(*final(byte), bit_start, length) == data & low_mask(length),
        *final(byte) & !field_mask(bit_start, length) == *old(byte) & !field_mask(
            bit_start,
            length,
        ),
{
    let mask_shift: u8 = if bit_start < length {
        0
    } else {
        bit_start - length + 1
    };
    assert(mask_shift + length <= 8);
    assert(1 <= (1u16 << length) && (((1u16 << length) - 1) as u16) << mask_shift <= 0xff)
        by (bit_vector)
        requires
            1 <= length <= 8,
            mask_shift + length <= 8,
    ;
    let wide: u16 = ((1u16 << length) - 1) << mask_shift;
    let mask: u8 = wide as u8;
    let shifted: u8 = (data << mask_shift) & mask;
    *byte = (*byte & !mask) | shifted;
    proof {
        lemma_write_then_read_field(*old(byte), bit_start, length, data);
    }
}

/// Reads the first two bytes as a big-endian two's-complement word.
pub fn read_word_2c(byte: &[u8]) -> (word: i32)
    requires
        byte@.len() >= 2,
    ensures
        word == word_2c(byte@[0], byte@[1]),
        -32768 <= word <= 32767,
{
    let high: i32 = byte[0] as i32;
    let low: i32 = byte[1] as i32;
    let mut word: i32 = high * 256 + low;
    if word >= 0x8000 {
        word = -((65535 - word) + 1);
    }
    word
}

} // verus!
