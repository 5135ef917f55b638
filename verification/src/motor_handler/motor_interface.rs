//! Bang-bang position servo.
//!
//! Each pass of the control loop compares the commanded position with the
//! ticks counted so far and drives the motor at a fixed duty toward the
//! target, or stops it on the target.  Nothing is remembered between passes.

use vstd::prelude::*;
use super::motor_state::{EncoderState, Motor, phase_of};

verus! {

/// Duty applied to the enable line while the motor is driven.
pub const DRIVE_DUTY: u8 = 80;

/// Ticks per revolution of the encoder fitted to the motor.
pub const ENCODER_TICKS_PER_REV: i16 = 8000;

/// What the servo asks of the motor driver in one pass.
#[derive(Clone, Copy, Debug, PartialEq, Eq)]
pub enum DriveAction {
    /// Turn toward higher counts: first direction line high, second low.
    Forward,
    /// Turn toward lower counts: first direction line low, second high.
    Reverse,
    /// On target: take the duty away and leave the direction lines alone.
    Hold,
}

/// The action for a servo that stands at `current` and is to reach `target`.
pub open spec fn drive_action(target: int, current: int) -> DriveAction {
    if target - current > 0 {
        DriveAction::Forward
    } else if target - current < 0 {
        DriveAction::Reverse
    } else {
        DriveAction::Hold
    }
}

impl DriveAction {
    /// Duty for the enable line.
    pub open spec fn spec_duty(&self) -> u8 {
        match self {
            DriveAction::Hold => 0,
            _ => 80,
        }
    }

    /// Levels for the two direction lines, where the action sets them.
    pub open spec fn spec_direction_levels(&self) -> Option<(bool, bool)> {
        match self {
            DriveAction::Forward => Some((true, false)),
            DriveAction::Reverse => Some((false, true)),
            DriveAction::Hold => None,
        }
    }

    /// Whether the motor stood on its target in this pass.
    pub open spec fn spec_at_target(&self) -> bool {
        *self is Hold
    }

    #[verifier::when_used_as_spec(spec_duty)]
    pub fn duty(&self) -> (out: u8)
        ensures
            out == self.spec_duty(),
    {
        match self {
            DriveAction::Hold => 0,
            _ => DRIVE_DUTY,
        }
    }

    #[verifier::when_used_as_spec(spec_direction_levels)]
    pub fn direction_levels(&self) -> (out: Option<(bool, bool)>)
        ensures
            out == self.spec_direction_levels(),
    {
        match self {
            DriveAction::Forward => Some((true, false)),
            DriveAction::Reverse => Some((false, true)),
            DriveAction::Hold => None,
        }
    }

    #[verifier::when_used_as_spec(spec_at_target)]
    pub fn at_target(&self) -> (out: bool)
        ensures
            out == self.spec_at_target(),
    {
        match self {
            DriveAction::Hold => true,
            _ => false,
        }
    }
}

/// The servo of one motor: its encoder channel, sampled from line levels that
/// the caller reads, and the drive decision, carried out by the caller.
#[derive(Debug)]
pub struct MotorInterface {
    state: Motor,
}

impl View for MotorInterface {
    type V = EncoderState;

    closed spec fn view(&self) -> EncoderState {
        self.state@
    }
}

impl MotorInterface {
    /// A servo at position zero, with the encoder lines at levels `a` and `b`.
    pub fn new(a: bool, b: bool) -> (out: MotorInterface)
        ensures
            out@ == (EncoderState { phase: phase_of(a, b), position: 0, ticks_per_rev: 8000 }),
    {
        MotorInterface { state: Motor::new(a, b, ENCODER_TICKS_PER_REV) }
    }

    /// Decides how to drive the motor toward `new_position`.
    pub fn turn_to_position(&self, new_position: i16) -> (out: DriveAction)
        ensures
            out == drive_action(new_position as int, self@.position),
    {
        let position: i16 = self.state.get_position();
        if new_position > position {
            DriveAction::Forward
        } else if new_position < position {
            DriveAction::Reverse
        } else {
            DriveAction::Hold
        }
    }

    /// Takes one sample of the encoder lines, read at levels `a` and `b`.
    pub fn update_position(&mut self, a: bool, b: bool)
        ensures
            final(self)@ == old(self)@.sampled(a, b),
    {
        self.state.update_motor_state(a, b);
    }

    /// Ticks counted so far.
    pub fn get_position(&self) -> (out: i16)
        ensures
            out == self@.position,
    {
        self.state.get_position()
    }
}

} // verus!
