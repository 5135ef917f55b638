//! Decoding of the frames of the remote.
//!
//! A frame is one datagram of six bytes, one per channel, in the order x, y,
//! roll, pitch, button one, button two.  A byte of at most eight holds its
//! magnitude as it is, a larger byte holds it in the high nibble.  Either
//! way the channel reads as the magnitude with a minus sign, so that the two
//! nibbles do not stand for opposite directions.  The y and roll sticks are
//! mounted mirrored, and their channels are negated once more.

use vstd::prelude::*;
use crate::controller::joystick_interface::byte_of_magnitude;
use super::data_handler::DataHandler;

verus! {

/// Largest byte that is read as a low-nibble magnitude.
pub const LOW_NIBBLE_MAX: u8 = 8;

/// The value that one wire byte stands for, before mirroring.
pub open spec fn decode_byte(byte: u8) -> int {
    if byte > 8 {
        -(byte / 16)
    } else {
        -byte
    }
}

/// Whether the stick of a channel is mounted mirrored.
pub open spec fn mirrored(channel: int) -> bool {
    channel == 1 || channel == 2
}

/// The value of channel number `channel` when its wire byte is `byte`.
pub open spec fn channel_value(channel: int, byte: u8) -> int {
    if mirrored(channel) {
        -decode_byte(byte)
    } else {
        decode_byte(byte)
    }
}

/// Decodes the byte of one channel.
pub fn decode_channel(channel: usize, byte: u8) -> (out: i16)
    ensures
        out == channel_value(channel as int, byte),
{
    let mut value: i16 = if byte > LOW_NIBBLE_MAX {
        assert(byte >> 4 == byte / 16) by (bit_vector);
        -((byte >> 4) as i16)
    } else {
        -(byte as i16)
    };
    if channel == 1 || channel == 2 {
        value = -value;
    }
    value
}

/// Decodes one frame.  Every sequence of six bytes decodes.
pub fn process_buffer(buffer: &[u8; 6]) -> (out: DataHandler)
    ensures
        forall|channel: int|
            0 <= channel < 6 ==> out.channels()[channel] == channel_value(
                channel,
                #[trigger] buffer[channel],
            ),
{
    let mut buffer_i16: [i16; 6] = [0; 6];
    let mut i: usize = 0;
    while i < 6
        invariant
            i <= 6,
            forall|channel: int|
                0 <= channel < i ==> buffer_i16[channel] == channel_value(
                    channel,
                    #[trigger] buffer[channel],
                ),
        decreases 6 - i,
    {
        buffer_i16[i] = decode_channel(i, buffer[i]);
        i += 1;
    }
    DataHandler::from_buffer(&buffer_i16)
}

/// Encoding a magnitude and decoding its byte on a channel that is not
/// mirrored gives the magnitude back with a minus sign, whichever sign it
/// went in with: a negative magnitude returns as it was, a positive one
/// returns negated.
pub proof fn lemma_codec_round_trip(magnitude: int)
    requires
        -8 <= magnitude <= 8,
    ensures
        magnitude <= 0 ==> decode_byte(byte_of_magnitude(magnitude) as u8) == magnitude,
        magnitude > 0 ==> decode_byte(byte_of_magnitude(magnitude) as u8) == -magnitude,
{
}

/// On a mirrored channel the round trip gives the magnitude without its
/// sign.
pub proof fn lemma_codec_round_trip_mirrored(channel: int, magnitude: int)
    requires
        -8 <= magnitude <= 8,
        mirrored(channel),
    ensures
        magnitude <= 0 ==> channel_value(channel, byte_of_magnitude(magnitude) as u8)
            == -magnitude,
        magnitude > 0 ==> channel_value(channel, byte_of_magnitude(magnitude) as u8) == magnitude,
{
}

} // verus!
