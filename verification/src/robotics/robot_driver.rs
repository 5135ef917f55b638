//! Wire format of a motor command.
//!
//! A command travels as two single-byte transfers.  The first byte has its
//! top bit set, carries the motor selector in bit 6 and the upper six of the
//! thirteen payload bits below it.  The second byte has its top bit clear and
//! carries the lower seven payload bits.

use vstd::prelude::*;
use crate::arm_errors::RoboticArmError;

verus! {

/// Number of distinct payloads of one command: two to the thirteenth.
pub const PAYLOAD_SPAN: i16 = 8192;

/// Largest magnitude of a delta that a command may carry.
pub const MAX_DELTA: i32 = 8191;

/// The thirteen payload bits of `data`.
pub open spec fn payload_of(data: int) -> int {
    data % 8192
}

/// First byte on the wire for payload `data` addressed to `motor`.
pub open spec fn msw_byte(data: int, motor: int) -> int {
    128 + 64 * (motor % 2) + payload_of(data) / 128
}

/// Second byte on the wire for payload `data`.
pub open spec fn lsw_byte(data: int) -> int {
    payload_of(data) % 128
}

/// Splits `data` into the two bytes sent to a motor controller.
///
/// `data` has to fit the thirteen payload bits.  A caller that cannot tell
/// builds the command with [`MotorCommand::new`], which reports a value that
/// does not fit.  Of `motor` only the low bit selects.
pub fn data_decomposition(data: u16, motor: u8) -> (bytes: [u8; 2])
    requires
        data < 8192,
    ensures
        bytes[0] == msw_byte(data as int, motor as int),
        bytes[1] == lsw_byte(data as int),
{
    let selector: u8 = (motor & 1) << 6;
    let high: u8 = ((data >> 7) & 0x3f) as u8;
    let msw: u8 = 0x80 | selector | high;
    let lsw: u8 = (data & 0x7f) as u8;
    assert(((motor & 1) << 6) == 64 * (motor % 2)) by (bit_vector);
    assert(((data >> 7) & 0x3f) == (data % 8192) / 128) by (bit_vector);
    assert((data & 0x7f) == (data % 8192) % 128) by (bit_vector);
    assert((0x80u8 | ((motor & 1) << 6) | (((data >> 7) & 0x3f) as u8)) == 128 + 64 * (motor % 2) + (
    data % 8192) / 128) by (bit_vector);
    [msw, lsw]
}

/// A relative move for one of the two motors of a controller.
#[derive(Clone, Copy, Debug, PartialEq, Eq)]
pub struct MotorCommand {
    pub motor_id: u8,
    pub delta: i16,
}

impl MotorCommand {
    /// Whether `delta` is within what a command may carry.
    pub open spec fn fits(delta: int) -> bool {
        -8192 < delta < 8192
    }

    /// `delta` moved to the nearest value that a command may carry.
    pub open spec fn clamp(delta: int) -> int {
        if delta > 8191 {
            8191
        } else if delta < -8191 {
            -8191
        } else {
            delta
        }
    }

    /// The delta is within range and the motor selector is a single bit.
    pub open spec fn wf(&self) -> bool {
        Self::fits(self.delta as int) && self.motor_id <= 1
    }

    /// The command for moving `motor_id` by `delta`, or `CommandOverflow`
    /// when the delta is out of range.  Of the motor number only the low bit
    /// selects.
    pub fn new(delta: i32, motor_id: u8) -> (res: Result<MotorCommand, RoboticArmError>)
        ensures
            Self::fits(delta as int) ==> res == Ok::<MotorCommand, RoboticArmError>(
                MotorCommand { motor_id: (motor_id % 2) as u8, delta: delta as i16 },
            ),
            !Self::fits(delta as int) ==> (res matches Err(RoboticArmError::CommandOverflow(em))
                && em@ == "Delta exceeds the thirteen bits of a motor command"@),
    {
        if -MAX_DELTA <= delta && delta <= MAX_DELTA {
            Ok(MotorCommand { motor_id: motor_id % 2, delta: delta as i16 })
        } else {
            Err(
                RoboticArmError::CommandOverflow(
                    "Delta exceeds the thirteen bits of a motor command".to_owned(),
                ),
            )
        }
    }

    /// The command nearest to the one asked for, and whether the delta had
    /// to be clamped to make it fit.
    pub fn clamped(delta: i32, motor_id: u8) -> (out: (MotorCommand, bool))
        ensures
            out.0 == (MotorCommand {
                motor_id: (motor_id % 2) as u8,
                delta: Self::clamp(delta as int) as i16,
            }),
            out.0.wf(),
            out.1 == !Self::fits(delta as int),
    {
        if delta > MAX_DELTA {
            (MotorCommand { motor_id: motor_id % 2, delta: MAX_DELTA as i16 }, true)
        } else if delta < -MAX_DELTA {
            (MotorCommand { motor_id: motor_id % 2, delta: (-MAX_DELTA) as i16 }, true)
        } else {
            (MotorCommand { motor_id: motor_id % 2, delta: delta as i16 }, false)
        }
    }

    /// The two bytes that carry this command.  A negative delta travels as
    /// the low thirteen bits of its two's complement.
    pub fn pack(&self) -> (bytes: [u8; 2])
        ensures
            bytes[0] == msw_byte(self.delta as int, self.motor_id as int),
            bytes[1] == lsw_byte(self.delta as int),
    {
        let payload: u16 = match self.delta.checked_rem_euclid(PAYLOAD_SPAN) {
            Some(rest) => rest as u16,
            None => 0,
        };
        data_decomposition(payload, self.motor_id)
    }
}

} // verus!
