//! Reception of motor commands, one byte at a time.
//!
//! A command arrives as two bytes with an arbitrary pause between them.  A
//! byte with its top bit set opens a command and replaces any half-received
//! one.  A byte with its top bit clear closes the command that is open, and
//! is dropped when none is.

use vstd::prelude::*;
use crate::robotics::robot_driver::{lsw_byte, msw_byte, payload_of};

verus! {

/// What the receiver remembers between two bytes.
pub struct Reception {
    /// The six payload bits of the last opening byte.
    pub msw: u8,
    /// The last closing byte.
    pub lsw: u8,
    /// The motor the last opening byte selected.
    pub motor: u8,
    /// Whether a command is open, that is, a closing byte is awaited.
    pub awaiting_lsw: bool,
}

impl Reception {
    /// Whether `data` opens a command.
    pub open spec fn opens(data: u8) -> bool {
        data >= 128
    }

    /// Whether `data` closes the command that is open.
    pub open spec fn completes(self, data: u8) -> bool {
        !Self::opens(data) && self.awaiting_lsw
    }

    /// The memory of the receiver after it was handed `data`.
    pub open spec fn fed(self, data: u8) -> Reception {
        if Self::opens(data) {
            Reception {
                msw: (data % 64) as u8,
                lsw: self.lsw,
                motor: ((data / 64) % 2) as u8,
                awaiting_lsw: true,
            }
        } else if self.awaiting_lsw {
            Reception { lsw: data, awaiting_lsw: false, ..self }
        } else {
            self
        }
    }

    /// The position spelled by the two payload fields.
    pub open spec fn position(self) -> int {
        assembled(self.msw, self.lsw)
    }
}

/// The receiver memory held in the three places the caller keeps.
pub open spec fn reception_of(buffer: [u8; 2], motor: u8, add_lsw: bool) -> Reception {
    Reception { msw: buffer[0], lsw: buffer[1], motor, awaiting_lsw: add_lsw }
}

/// The two payload fields joined bit by bit: `msw` above the seven bits of
/// `lsw`.
pub open spec fn assembled(msw: u8, lsw: u8) -> int {
    (((msw as u16) << 7) | (lsw as u16)) as int
}

/// Hands one received byte to the receiver.  Returns whether the byte closed
/// a command, in which case `buffer` holds its two payload fields and `motor`
/// its motor selector.
pub fn decode_transmission(data: u8, buffer: &mut [u8; 2], motor: &mut u8, add_lsw: &mut bool) -> (done:
    bool)
    ensures
        reception_of(*final(buffer), *final(motor), *final(add_lsw)) == reception_of(
            *old(buffer),
            *old(motor),
            *old(add_lsw),
        ).fed(data),
        done == reception_of(*old(buffer), *old(motor), *old(add_lsw)).completes(data),
{
    if data >> 7 == 1 {
        *motor = (data >> 6) & 0b01;
        buffer[0] = data & 0b111111;
        *add_lsw = true;
        assert(data >> 7 == 1 ==> data >= 128 && (data >> 6) & 1 == (data / 64) % 2 && data & 63
            == data % 64) by (bit_vector);
    } else if *add_lsw {
        assert(data >> 7 != 1 ==> data < 128) by (bit_vector);
        buffer[1] = data;
        *add_lsw = false;
        return true;
    } else {
        assert(data >> 7 != 1 ==> data < 128) by (bit_vector);
        *add_lsw = false;
    }
    false
}

/// Joins the two payload fields of a received command into the position it
/// carries.  The result is never negative: no field reaches the sign bit.
pub fn assemble_position(buffer: &[u8; 2]) -> (pos: i16)
    ensures
        pos == assembled(buffer[0], buffer[1]),
        0 <= pos,
        buffer[0] < 64 && buffer[1] < 128 ==> pos == 128 * buffer[0] + buffer[1],
{
    let msw: u16 = buffer[0] as u16;
    let lsw: u16 = buffer[1] as u16;
    let joined: u16 = (msw << 7) | lsw;
    assert(msw < 256 && lsw < 256 ==> ((msw << 7) | lsw) < 32768) by (bit_vector);
    assert(msw < 64 && lsw < 128 ==> ((msw << 7) | lsw) == 128 * msw + lsw) by (bit_vector);
    joined as i16
}

/// A command survives the wire.  Whatever the receiver remembered, the first
/// byte of a packed command opens it without closing anything, the second
/// closes it, and the receiver then holds the thirteen payload bits of the
/// data and the low bit of the motor number.
pub proof fn lemma_command_round_trip(before: Reception, data: int, motor: int)
    ensures
        !before.completes(msw_byte(data, motor) as u8),
        before.fed(msw_byte(data, motor) as u8).completes(lsw_byte(data) as u8),
        before.fed(msw_byte(data, motor) as u8).fed(lsw_byte(data) as u8).position()
            == payload_of(data),
        before.fed(msw_byte(data, motor) as u8).fed(lsw_byte(data) as u8).motor == motor % 2,
{
    let first = msw_byte(data, motor) as u8;
    let second = lsw_byte(data) as u8;
    let high = (payload_of(data) / 128) as u8;
    assert(first == 128 + 64 * (motor % 2) + high);
    assert(first % 64 == high);
    assert((first / 64) % 2 == motor % 2);
    let after = before.fed(first).fed(second);
    assert(after.msw == high && after.lsw == second);
    assert(high < 64 && second < 128 ==> (((high as u16) << 7) | (second as u16)) == 128 * high
        + second) by (bit_vector);
}

/// A delta that is not negative arrives as it was sent.
pub proof fn lemma_forward_delta_round_trip(before: Reception, delta: int, motor: int)
    requires
        0 <= delta < 8192,
        0 <= motor <= 1,
    ensures
        before.fed(msw_byte(delta, motor) as u8).fed(lsw_byte(delta) as u8).position() == delta,
        before.fed(msw_byte(delta, motor) as u8).fed(lsw_byte(delta) as u8).motor == motor,
{
    lemma_command_round_trip(before, delta, motor);
}

/// A negative delta arrives without its sign: the receiver reads the low
/// thirteen bits of its two's complement as a position.
pub proof fn lemma_backward_delta_round_trip(before: Reception, delta: int, motor: int)
    requires
        -8192 <= delta < 0,
    ensures
        before.fed(msw_byte(delta, motor) as u8).fed(lsw_byte(delta) as u8).position() == delta
            + 8192,
{
    lemma_command_round_trip(before, delta, motor);
}

} // verus!
