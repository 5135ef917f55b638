//! Tick bookkeeping of the arm.
//!
//! Every joint position is an unsigned count of encoder ticks, kept modulo
//! the ticks of one revolution of that joint.  The tracker remembers the
//! state the arm started in and the state the operator has steered it to, and
//! hands the motor controllers the difference.

use vstd::prelude::*;
use vstd::arithmetic::div_mod::{
    lemma_add_mod_noop, lemma_add_mod_noop_right, lemma_mod_bound, lemma_small_mod,
    lemma_sub_mod_noop,
};
use crate::arm_errors::RoboticArmError;
use crate::networking::data_handler::DataHandler;

verus! {

/// Ticks the spool advances for one frame with a single button held.
pub const SPOOL_STEP: i32 = 8;

/// `value` reduced into `[0, ticks_per_rev)`.
pub open spec fn wrap_ticks(value: int, ticks_per_rev: int) -> int {
    value % ticks_per_rev
}

/// Signed spool movement asked for by the buttons of `data`: none while both
/// or neither are held, forward for button two alone, backward for button one
/// alone.
pub open spec fn spool_step(data: DataHandler) -> int {
    if data.both_pressed() {
        0
    } else if data.button2 == 0 {
        SPOOL_STEP as int
    } else if data.button1 == 0 {
        -SPOOL_STEP
    } else {
        0
    }
}

/// Encoder ticks per revolution of each joint.
#[derive(Clone, Copy, Debug, PartialEq, Eq)]
pub struct AngleToEncoderMap {
    pub shoulder: u16,
    pub elbow: u16,
    pub wrist: u16,
    pub roll: u16,
    pub spool: u16,
}

impl AngleToEncoderMap {
    /// Every joint has at least one tick per revolution.
    pub open spec fn wf(&self) -> bool {
        &&& self.shoulder > 0
        &&& self.elbow > 0
        &&& self.wrist > 0
        &&& self.roll > 0
        &&& self.spool > 0
    }

    /// The map with the given ticks per revolution.
    pub fn new(shoulder: u16, elbow: u16, wrist: u16, roll: u16, spool: u16) -> (out:
        AngleToEncoderMap)
        ensures
            out == (AngleToEncoderMap { shoulder, elbow, wrist, roll, spool }),
    {
        AngleToEncoderMap { shoulder, elbow, wrist, roll, spool }
    }

    /// Tells whether the map can be used to track an arm.
    pub fn is_well_formed(&self) -> (out: bool)
        ensures
            out == self.wf(),
    {
        self.shoulder > 0 && self.elbow > 0 && self.wrist > 0 && self.roll > 0 && self.spool > 0
    }
}

/// Joint angles of one kinematic solution, each converted to a rounded count
/// of encoder ticks.  A count may be negative or exceed one revolution.
#[derive(Clone, Copy, Debug, PartialEq, Eq)]
pub struct JointTicks {
    pub shoulder: i32,
    pub elbow: i32,
    pub wrist: i32,
}

/// Positions of the five motors.
#[derive(Clone, Copy, Debug, PartialEq, Eq)]
pub struct ArmState {
    pub shoulder: u16,
    pub elbow: u16,
    pub wrist: u16,
    pub roll: u16,
    pub spool: u16,
}

impl ArmState {
    /// Every position lies within one revolution of its joint.
    pub open spec fn within(&self, map: AngleToEncoderMap) -> bool {
        &&& self.shoulder < map.shoulder
        &&& self.elbow < map.elbow
        &&& self.wrist < map.wrist
        &&& self.roll < map.roll
        &&& self.spool < map.spool
    }

    /// The state with the kinematic joints moved to `ticks`.
    pub open spec fn with_joints(&self, ticks: JointTicks, map: AngleToEncoderMap) -> ArmState {
        ArmState {
            shoulder: wrap_ticks(ticks.shoulder as int, map.shoulder as int) as u16,
            elbow: wrap_ticks(ticks.elbow as int, map.elbow as int) as u16,
            wrist: wrap_ticks(ticks.wrist as int, map.wrist as int) as u16,
            roll: self.roll,
            spool: self.spool,
        }
    }

    /// The state after the roll channel and the buttons of `data` have acted.
    pub open spec fn with_roll_and_spool(&self, data: DataHandler, map: AngleToEncoderMap)
        -> ArmState {
        ArmState {
            shoulder: self.shoulder,
            elbow: self.elbow,
            wrist: self.wrist,
            roll: wrap_ticks(self.roll + data.roll, map.roll as int) as u16,
            spool: wrap_ticks(self.spool + spool_step(data), map.spool as int) as u16,
        }
    }

    /// The state after one frame: roll and spool always move, the kinematic
    /// joints only when the pose was solved.
    pub open spec fn after_frame(
        &self,
        data: DataHandler,
        solution: Option<JointTicks>,
        map: AngleToEncoderMap,
    ) -> ArmState {
        let moved = self.with_roll_and_spool(data, map);
        match solution {
            Some(ticks) => moved.with_joints(ticks, map),
            None => moved,
        }
    }

    /// Ticks each joint has to travel from `origin` to reach this state,
    /// counted forward around the revolution.
    pub open spec fn delta_from(&self, origin: ArmState, map: AngleToEncoderMap) -> ArmState {
        ArmState {
            shoulder: wrap_ticks(self.shoulder - origin.shoulder, map.shoulder as int) as u16,
            elbow: wrap_ticks(self.elbow - origin.elbow, map.elbow as int) as u16,
            wrist: wrap_ticks(self.wrist - origin.wrist, map.wrist as int) as u16,
            roll: wrap_ticks(self.roll - origin.roll, map.roll as int) as u16,
            spool: wrap_ticks(self.spool - origin.spool, map.spool as int) as u16,
        }
    }

    /// The state with the given positions.
    pub fn new(shoulder: u16, elbow: u16, wrist: u16, roll: u16, spool: u16) -> (out: ArmState)
        ensures
            out == (ArmState { shoulder, elbow, wrist, roll, spool }),
    {
        ArmState { shoulder, elbow, wrist, roll, spool }
    }

    /// Moves all five motors.
    pub fn update(&mut self, shoulder: u16, elbow: u16, wrist: u16, roll: u16, spool: u16)
        ensures
            *final(self) == (ArmState { shoulder, elbow, wrist, roll, spool }),
    {
        self.shoulder = shoulder;
        self.elbow = elbow;
        self.wrist = wrist;
        self.roll = roll;
        self.spool = spool;
    }

    /// Moves the three joints that the kinematic solver positions.
    pub fn update_kinematic_joints(&mut self, shoulder: u16, elbow: u16, wrist: u16)
        ensures
            *final(self) == (ArmState { shoulder, elbow, wrist, ..*old(self) }),
    {
        self.shoulder = shoulder;
        self.elbow = elbow;
        self.wrist = wrist;
    }

    /// Difference to `state`, joint by joint and around the revolution.
    pub fn sub(self, state: ArmState, map: &AngleToEncoderMap) -> (out: ArmState)
        requires
            map.wf(),
        ensures
            out == self.delta_from(state, *map),
            out.within(*map),
    {
        ArmState {
            shoulder: wrap_value(self.shoulder as i64 - state.shoulder as i64, map.shoulder),
            elbow: wrap_value(self.elbow as i64 - state.elbow as i64, map.elbow),
            wrist: wrap_value(self.wrist as i64 - state.wrist as i64, map.wrist),
            roll: wrap_value(self.roll as i64 - state.roll as i64, map.roll),
            spool: wrap_value(self.spool as i64 - state.spool as i64, map.spool),
        }
    }
}

/// Reduces a tick count of any sign into one revolution.
pub fn wrap_value(value: i64, ticks_per_rev: u16) -> (out: u16)
    requires
        ticks_per_rev > 0,
    ensures
        out == wrap_ticks(value as int, ticks_per_rev as int),
        out < ticks_per_rev,
{
    proof {
        lemma_mod_bound(value as int, ticks_per_rev as int);
    }
    match value.checked_rem_euclid(ticks_per_rev as i64) {
        Some(rest) => rest as u16,
        None => 0,
    }
}

/// Tracks where the arm started and where the operator has steered it.
#[derive(Debug)]
pub struct RoboticArmSolver {
    initial_state: ArmState,
    updated_state: ArmState,
    joint_map: AngleToEncoderMap,
}

impl RoboticArmSolver {
    /// Motor positions captured when tracking began.
    pub closed spec fn initial(&self) -> ArmState {
        self.initial_state
    }

    /// Motor positions after every frame applied so far.
    pub closed spec fn updated(&self) -> ArmState {
        self.updated_state
    }

    /// Ticks per revolution the tracker counts with.
    pub closed spec fn map(&self) -> AngleToEncoderMap {
        self.joint_map
    }

    /// Both states lie within one revolution of every joint.
    pub open spec fn wf(&self) -> bool {
        &&& self.map().wf()
        &&& self.initial().within(self.map())
        &&& self.updated().within(self.map())
    }

    /// Starts tracking at the solved starting pose, with roll and spool at
    /// zero.  Fails when the starting pose had no solution.
    pub fn try_new_from_ef_position(solution: Option<JointTicks>, joint_map: AngleToEncoderMap) -> (res:
        Result<RoboticArmSolver, RoboticArmError>)
        requires
            joint_map.wf(),
        ensures
            match solution {
                Some(ticks) => res matches Ok(arm) && arm.wf() && arm.map() == joint_map
                    && arm.updated() == arm.initial() && arm.initial() == (ArmState {
                    shoulder: 0,
                    elbow: 0,
                    wrist: 0,
                    roll: 0,
                    spool: 0,
                }).with_joints(ticks, joint_map),
                None => res matches Err(RoboticArmError::Singularity(em)) && em@
                    == "Singularity in theta 2"@,
            },
    {
        match solution {
            Some(ticks) => {
                let initial_state = ArmState::new(
                    wrap_value(ticks.shoulder as i64, joint_map.shoulder),
                    wrap_value(ticks.elbow as i64, joint_map.elbow),
                    wrap_value(ticks.wrist as i64, joint_map.wrist),
                    0,
                    0,
                );
                let updated_state = initial_state;
                Ok(RoboticArmSolver { initial_state, updated_state, joint_map })
            },
            None => Err(RoboticArmError::Singularity("Singularity in theta 2".to_owned())),
        }
    }

    /// Applies one frame of the remote.
    ///
    /// The buttons move the spool and the roll channel moves the roll joint,
    /// whatever became of the pose.  The kinematic joints follow `solution`,
    /// the solved candidate pose in ticks; without one they stay where they
    /// are and the singularity is handed to the caller, with roll and spool
    /// already moved.
    pub fn update_from_data_handler(&mut self, data: DataHandler, solution: Option<JointTicks>) -> (res:
        Result<(), RoboticArmError>)
        requires
            old(self).wf(),
        ensures
            final(self).wf(),
            final(self).map() == old(self).map(),
            final(self).initial() == old(self).initial(),
            final(self).updated() == old(self).updated().after_frame(data, solution, old(self).map()),
            match solution {
                Some(_) => res is Ok,
                None => res matches Err(RoboticArmError::Singularity(em)) && em@
                    == "Joints not updated due to singularity"@,
            },
    {
        if data.both_buttons_pressed() {
            // reserved for a homing routine
        } else if data.button2 == 0 {
            self.updated_state.spool = self.add_value_wrap(
                self.updated_state.spool,
                SPOOL_STEP,
                self.joint_map.spool,
            );
        } else if data.button1 == 0 {
            self.updated_state.spool = self.add_value_wrap(
                self.updated_state.spool,
                -SPOOL_STEP,
                self.joint_map.spool,
            );
        }
        proof {
            lemma_small_mod(old(self).updated_state.spool as nat, self.joint_map.spool as nat);
        }
        self.updated_state.roll = self.add_value_wrap(
            self.updated_state.roll,
            data.roll as i32,
            self.joint_map.roll,
        );
        match solution {
            Some(ticks) => {
                let shoulder: u16 = wrap_value(ticks.shoulder as i64, self.joint_map.shoulder);
                let elbow: u16 = wrap_value(ticks.elbow as i64, self.joint_map.elbow);
                let wrist: u16 = wrap_value(ticks.wrist as i64, self.joint_map.wrist);
                self.updated_state.update_kinematic_joints(shoulder, elbow, wrist);
                Ok(())
            },
            None => Err(
                RoboticArmError::Singularity("Joints not updated due to singularity".to_owned()),
            ),
        }
    }

    /// Motor positions captured when tracking began.
    pub fn initial_state(&self) -> (out: ArmState)
        ensures
            out == self.initial(),
    {
        self.initial_state
    }

    /// Motor positions after every frame applied so far.
    pub fn updated_state(&self) -> (out: ArmState)
        ensures
            out == self.updated(),
    {
        self.updated_state
    }

    /// Ticks per revolution the tracker counts with.
    pub fn joint_map(&self) -> (out: AngleToEncoderMap)
        ensures
            out == self.map(),
    {
        self.joint_map
    }

    /// Ticks each motor has to travel from where the arm started.
    pub fn get_delta_joints(&self) -> (out: ArmState)
        requires
            self.wf(),
        ensures
            out == self.updated().delta_from(self.initial(), self.map()),
            out.within(self.map()),
    {
        self.updated_state.sub(self.initial_state, &self.joint_map)
    }

    /// Adds a signed step to a position and wraps the sum into one
    /// revolution of `map_value` ticks.
    pub fn add_value_wrap(&self, curr_value: u16, add: i32, map_value: u16) -> (out: u16)
        requires
            map_value > 0,
        ensures
            out == wrap_ticks(curr_value + add, map_value as int),
            out < map_value,
    {
        wrap_value(curr_value as i64 + add as i64, map_value)
    }
}

/// A frame whose pose could not be solved is applied in part.  Counted from
/// the state the frame met, the kinematic joints have not moved, while roll
/// and spool have moved by what the frame asked for.
pub proof fn lemma_partial_commit(origin: ArmState, data: DataHandler, map: AngleToEncoderMap)
    requires
        map.wf(),
        origin.within(map),
    ensures
        origin.after_frame(data, None, map).within(map),
        origin.after_frame(data, None, map).delta_from(origin, map) == (ArmState {
            shoulder: 0,
            elbow: 0,
            wrist: 0,
            roll: wrap_ticks(data.roll as int, map.roll as int) as u16,
            spool: wrap_ticks(spool_step(data), map.spool as int) as u16,
        }),
{
    lemma_mod_bound(origin.roll + data.roll, map.roll as int);
    lemma_mod_bound(origin.spool + spool_step(data), map.spool as int);
    lemma_small_mod(origin.roll as nat, map.roll as nat);
    lemma_small_mod(origin.spool as nat, map.spool as nat);
    lemma_small_mod(0, map.shoulder as nat);
    lemma_small_mod(0, map.elbow as nat);
    lemma_small_mod(0, map.wrist as nat);
    lemma_sub_mod_noop(origin.roll + data.roll, origin.roll as int, map.roll as int);
    lemma_sub_mod_noop(origin.spool + spool_step(data), origin.spool as int, map.spool as int);
}

/// Frames add up: roll and spool after two frames are what one frame with
/// the summed steps would have left.
pub proof fn lemma_frames_accumulate(
    origin: ArmState,
    first: DataHandler,
    second: DataHandler,
    map: AngleToEncoderMap,
)
    requires
        map.wf(),
    ensures
        origin.with_roll_and_spool(first, map).with_roll_and_spool(second, map).roll
            == wrap_ticks(origin.roll + first.roll + second.roll, map.roll as int),
        origin.with_roll_and_spool(first, map).with_roll_and_spool(second, map).spool
            == wrap_ticks(
            origin.spool + spool_step(first) + spool_step(second),
            map.spool as int,
        ),
{
    lemma_mod_bound(origin.roll + first.roll, map.roll as int);
    lemma_mod_bound(origin.spool + spool_step(first), map.spool as int);
    lemma_add_mod_noop(origin.roll + first.roll, second.roll as int, map.roll as int);
    lemma_add_mod_noop(origin.spool + spool_step(first), spool_step(second), map.spool as int);
    lemma_add_mod_noop_right(
        ((origin.roll + first.roll) % (map.roll as int)),
        second.roll as int,
        map.roll as int,
    );
    lemma_add_mod_noop_right(
        ((origin.spool + spool_step(first)) % (map.spool as int)),
        spool_step(second),
        map.spool as int,
    );
}

} // verus!
