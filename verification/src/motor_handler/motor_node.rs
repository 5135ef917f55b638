//! One pass of the control loop of a motor node.
//!
//! Two events may have been flagged since the last pass: a change on the
//! encoder lines and the arrival of a byte on the bus.  A pass serves the
//! encoder first and the bus second, each at most once, and then decides
//! afresh how to drive the motor from the latest target and the latest count.

use vstd::prelude::*;
use super::motor_interface::{drive_action, DriveAction, MotorInterface};
use super::motor_state::{phase_of, EncoderState};
use super::transmission::{
    assemble_position, decode_transmission, lemma_command_round_trip, reception_of, Reception,
};
use crate::robotics::robot_driver::{lsw_byte, msw_byte, payload_of};

verus! {

/// What a motor node knows between two passes.
pub struct NodeState {
    pub encoder: EncoderState,
    pub reception: Reception,
    /// The position the servo is to reach.
    pub target: int,
}

impl NodeState {
    /// The state after a pass that found the encoder lines at `levels`, if
    /// they were flagged, and `received` on the bus, if a byte was flagged.
    pub open spec fn after_pass(self, levels: Option<(bool, bool)>, received: Option<u8>)
        -> NodeState {
        NodeState {
            encoder: match levels {
                Some((a, b)) => self.encoder.sampled(a, b),
                None => self.encoder,
            },
            reception: match received {
                Some(data) => self.reception.fed(data),
                None => self.reception,
            },
            target: match received {
                Some(data) if self.reception.completes(data) => self.reception.fed(
                    data,
                ).position(),
                _ => self.target,
            },
        }
    }

    /// The drive decision taken in this state.
    pub open spec fn action(self) -> DriveAction {
        drive_action(self.target, self.encoder.position)
    }

    /// The position that a pass emits when `received` closes a command.
    pub open spec fn emitted(self, received: Option<u8>) -> Option<i16> {
        match received {
            Some(data) if self.reception.completes(data) => Some(
                self.reception.fed(data).position() as i16,
            ),
            _ => None,
        }
    }
}

/// What one pass hands back to the loop that runs it.
#[derive(Clone, Copy, Debug, PartialEq, Eq)]
pub struct PassOutcome {
    /// How to drive the motor until the next pass.
    pub action: DriveAction,
    /// The position of the command that this pass completed, if it did.
    pub emitted: Option<i16>,
}

/// The control state of one motor node.
#[derive(Debug)]
pub struct MotorNode {
    servo: MotorInterface,
    buffer: [u8; 2],
    motor_number: u8,
    add_lsw: bool,
    target: i16,
}

impl View for MotorNode {
    type V = NodeState;

    closed spec fn view(&self) -> NodeState {
        NodeState {
            encoder: self.servo@,
            reception: reception_of(self.buffer, self.motor_number, self.add_lsw),
            target: self.target as int,
        }
    }
}

impl MotorNode {
    /// A node whose encoder lines stand at levels `a` and `b`, that has
    /// received nothing yet and is to reach `target`.
    pub fn new(a: bool, b: bool, target: i16) -> (out: MotorNode)
        ensures
            out@ == (NodeState {
                encoder: EncoderState { phase: phase_of(a, b), position: 0, ticks_per_rev: 8000 },
                reception: Reception { msw: 0, lsw: 0, motor: 0, awaiting_lsw: false },
                target: target as int,
            }),
    {
        MotorNode {
            servo: MotorInterface::new(a, b),
            buffer: [0, 0],
            motor_number: 0,
            add_lsw: false,
            target,
        }
    }

    /// Runs one pass.  `levels` holds the encoder line levels when a change
    /// was flagged, `received` the byte of the bus register when an arrival
    /// was flagged.  A command completed in this pass becomes the target at
    /// once.
    pub fn control_pass(&mut self, levels: Option<(bool, bool)>, received: Option<u8>) -> (out:
        PassOutcome)
        ensures
            final(self)@ == old(self)@.after_pass(levels, received),
            out.action == final(self)@.action(),
            out.emitted == old(self)@.emitted(received),
    {
        if let Some((a, b)) = levels {
            self.servo.update_position(a, b);
        }
        let mut emitted: Option<i16> = None;
        if let Some(data) = received {
            let read_buffer: bool = decode_transmission(
                data,
                &mut self.buffer,
                &mut self.motor_number,
                &mut self.add_lsw,
            );
            if read_buffer {
                self.target = assemble_position(&self.buffer);
                emitted = Some(self.target);
            }
        }
        PassOutcome { action: self.servo.turn_to_position(self.target), emitted }
    }

    /// The position the servo is to reach.
    pub fn target(&self) -> (out: i16)
        ensures
            out == self@.target,
    {
        self.target
    }

    /// Ticks counted so far.
    pub fn get_position(&self) -> (out: i16)
        ensures
            out == self@.encoder.position,
    {
        self.servo.get_position()
    }

    /// The motor that the last opening byte selected.
    pub fn motor_number(&self) -> (out: u8)
        ensures
            out == self@.reception.motor,
    {
        self.motor_number
    }
}

/// A command sent as its two bytes in two successive passes becomes the
/// target with the second pass and not before, whatever the node had received
/// until then and whatever the encoder did meanwhile.
pub proof fn lemma_command_becomes_target(
    node: NodeState,
    data: int,
    motor: int,
    first_levels: Option<(bool, bool)>,
    second_levels: Option<(bool, bool)>,
)
    ensures
        ({
            let first = Some(msw_byte(data, motor) as u8);
            let second = Some(lsw_byte(data) as u8);
            let between = node.after_pass(first_levels, first);
            let after = between.after_pass(second_levels, second);
            &&& node.emitted(first) is None
            &&& between.target == node.target
            &&& between.emitted(second) == Some(payload_of(data) as i16)
            &&& after.target == payload_of(data)
            &&& after.reception.motor == motor % 2
        }),
{
    lemma_command_round_trip(node.reception, data, motor);
}

} // verus!
