//! Errors raised along the pipeline.

use vstd::prelude::*;

verus! {

/// What can go wrong between the remote and the motors.  Every variant
/// carries the text shown to the operator.
#[derive(Debug, PartialEq)]
pub enum RoboticArmError {
    /// The requested end-effector pose has no joint-angle solution.
    Singularity(String),
    /// The wireless link could not be bound or read.
    NetworkError(String),
    /// The channel between the receiver and the control loop is gone.
    BadPipe(String),
    /// The kinematic joints were left as they were.  The tracker itself
    /// reports the singularity behind it instead.
    KinematicJointsNotUpdated(String),
    /// A delta does not fit the thirteen payload bits of a motor command.
    CommandOverflow(String),
}

impl RoboticArmError {
    /// The text carried by the error, whatever its kind.
    pub open spec fn text(&self) -> Seq<char> {
        match self {
            RoboticArmError::Singularity(em) => em@,
            RoboticArmError::NetworkError(em) => em@,
            RoboticArmError::BadPipe(em) => em@,
            RoboticArmError::KinematicJointsNotUpdated(em) => em@,
            RoboticArmError::CommandOverflow(em) => em@,
        }
    }

    /// The text to print for this error.
    pub fn message(&self) -> (out: String)
        ensures
            out@ == self.text(),
    {
        match self {
            RoboticArmError::Singularity(em) => em.clone(),
            RoboticArmError::NetworkError(em) => em.clone(),
            RoboticArmError::BadPipe(em) => em.clone(),
            RoboticArmError::KinematicJointsNotUpdated(em) => em.clone(),
            RoboticArmError::CommandOverflow(em) => em.clone(),
        }
    }
}

} // verus!
