//! From raw stick readings to wire bytes.
//!
//! A stick axis is read as a raw number that rests near the middle of its
//! range.  The reading is first scaled to a signed magnitude of at most
//! eight, negative to the left of the rest band and positive to its right.
//! On the wire a magnitude takes one byte: a negative one sits in the low
//! nibble, a positive one in the high nibble, each without its sign.

use vstd::prelude::*;

verus! {

/// Readings strictly between the two bounds count as the stick at rest.
pub const REST_LOW: u16 = 1550;

pub const REST_HIGH: u16 = 1750;

/// Width of the band of readings to the right of the rest band.
pub const RIGHT_SPAN: u32 = 1015;

/// Steps that the scaled right band lies above zero at its lower end.
pub const RIGHT_OFFSET: u32 = 13;

/// Largest magnitude of a channel.
pub const MAX_MAGNITUDE: u32 = 8;

/// Signed magnitude of a raw reading.
pub open spec fn magnitude_of_reading(value: int) -> int {
    if 1550 < value < 1750 {
        0
    } else if value < 1550 {
        -(8 - value * 8 / 1550)
    } else if value * 8 / 1015 < 13 {
        0
    } else if value * 8 / 1015 - 13 > 8 {
        8
    } else {
        value * 8 / 1015 - 13
    }
}

/// Wire byte of a signed magnitude.
pub open spec fn byte_of_magnitude(magnitude: int) -> int {
    if magnitude > 0 {
        16 * magnitude
    } else {
        -magnitude
    }
}

/// Scales a raw reading to a signed magnitude.
pub fn stick_magnitude(value: u16) -> (out: i8)
    ensures
        out == magnitude_of_reading(value as int),
        -8 <= out <= 8,
{
    if value > REST_LOW && value < REST_HIGH {
        0
    } else if value < REST_LOW {
        let left: u32 = MAX_MAGNITUDE - (value as u32 * 8 / 1550);
        -(left as i8)
    } else {
        let scaled: u32 = value as u32 * 8 / RIGHT_SPAN;
        if scaled < RIGHT_OFFSET {
            0
        } else if scaled - RIGHT_OFFSET > MAX_MAGNITUDE {
            MAX_MAGNITUDE as i8
        } else {
            (scaled - RIGHT_OFFSET) as i8
        }
    }
}

/// Puts a signed magnitude into its wire byte.
pub fn encode_magnitude(magnitude: i8) -> (out: u8)
    requires
        -8 <= magnitude <= 8,
    ensures
        out == byte_of_magnitude(magnitude as int),
{
    if magnitude > 0 {
        let nibble: u8 = magnitude as u8;
        assert(nibble <= 8 ==> (nibble << 4) == 16 * nibble) by (bit_vector);
        nibble << 4
    } else {
        (-magnitude) as u8
    }
}

/// Scales a raw reading and puts it into its wire byte.
pub fn scale_value(value: u16) -> (out: u8)
    ensures
        out == byte_of_magnitude(magnitude_of_reading(value as int)),
{
    encode_magnitude(stick_magnitude(value))
}

/// The three wire bytes of one stick: both axes scaled, and the button line
/// as one when high and zero when low.
pub fn sample(x_val: u16, y_val: u16, button_high: bool) -> (out: [u8; 3])
    ensures
        out[0] == byte_of_magnitude(magnitude_of_reading(x_val as int)),
        out[1] == byte_of_magnitude(magnitude_of_reading(y_val as int)),
        out[2] == (if button_high { 1int } else { 0int }),
{
    let button_val: u8 = if button_high { 1 } else { 0 };
    [scale_value(x_val), scale_value(y_val), button_val]
}

} // verus!
