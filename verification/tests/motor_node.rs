use robot_arm::motor_handler::motor_interface::{DriveAction, MotorInterface};
use robot_arm::motor_handler::motor_node::{MotorNode, PassOutcome};
use robot_arm::motor_handler::motor_state::{Motor, MotorState};
use robot_arm::motor_handler::transmission::{assemble_position, decode_transmission};

// line levels of the four phases
const PHASE_1: (bool, bool) = (false, false);
const PHASE_2: (bool, bool) = (false, true);
const PHASE_3: (bool, bool) = (true, true);
const PHASE_4: (bool, bool) = (true, false);

#[test]
fn phase_is_read_off_the_lines() {
    assert_eq!(MotorState::new(false, false), MotorState::State1);
    assert_eq!(MotorState::new(false, true), MotorState::State2);
    assert_eq!(MotorState::new(true, true), MotorState::State3);
    assert_eq!(MotorState::new(true, false), MotorState::State4);
    assert_eq!(MotorState::State1.code(), 0b00);
    assert_eq!(MotorState::State2.code(), 0b01);
    assert_eq!(MotorState::State3.code(), 0b11);
    assert_eq!(MotorState::State4.code(), 0b10);
}

#[test]
fn forward_cycle_counts_four() {
    let mut motor = Motor::new(PHASE_1.0, PHASE_1.1, 8000);
    assert_eq!(motor.get_position(), 0);
    assert_eq!(motor.get_state(), MotorState::State1);
    for (step, (a, b)) in [PHASE_2, PHASE_3, PHASE_4, PHASE_1].into_iter().enumerate() {
        motor.update_motor_state(a, b);
        assert_eq!(motor.get_position(), step as i16 + 1);
    }
    assert_eq!(motor.get_position(), 4);
    assert_eq!(motor.get_state(), MotorState::State1);
}

#[test]
fn backward_cycle_takes_four_off() {
    let mut motor = Motor::new(PHASE_1.0, PHASE_1.1, 8000);
    for (step, (a, b)) in [PHASE_4, PHASE_3, PHASE_2, PHASE_1].into_iter().enumerate() {
        motor.update_motor_state(a, b);
        assert_eq!(motor.get_position(), -(step as i16) - 1);
    }
    assert_eq!(motor.get_position(), -4);
}

#[test]
fn skipped_phase_resynchronises_without_counting() {
    let mut motor = Motor::new(PHASE_1.0, PHASE_1.1, 8000);
    motor.update_motor_state(PHASE_3.0, PHASE_3.1);
    assert_eq!(motor.get_position(), 0);
    assert_eq!(motor.get_state(), MotorState::State3);
    // counting goes on from the adopted phase
    motor.update_motor_state(PHASE_4.0, PHASE_4.1);
    assert_eq!(motor.get_position(), 1);
    // the other skip, and a sample without a change
    motor.update_motor_state(PHASE_2.0, PHASE_2.1);
    assert_eq!(motor.get_position(), 1);
    assert_eq!(motor.get_state(), MotorState::State2);
    motor.update_motor_state(PHASE_2.0, PHASE_2.1);
    assert_eq!(motor.get_position(), 1);
    assert_eq!(motor.get_state(), MotorState::State2);
}

#[test]
fn every_change_of_phase_counts_as_tabled() {
    let phases = [PHASE_1, PHASE_2, PHASE_3, PHASE_4];
    for from in 0..4usize {
        for to in 0..4usize {
            let mut motor = Motor::new(phases[from].0, phases[from].1, 8000);
            motor.update_motor_state(phases[to].0, phases[to].1);
            let expected = if to == (from + 1) % 4 {
                1
            } else if from == (to + 1) % 4 {
                -1
            } else {
                0
            };
            assert_eq!(motor.get_position(), expected, "from {} to {}", from + 1, to + 1);
            assert_eq!(motor.get_state(), MotorState::new(phases[to].0, phases[to].1));
        }
    }
}

#[test]
fn set_motor_state_never_counts() {
    let mut motor = Motor::new(PHASE_1.0, PHASE_1.1, 8000);
    motor.set_motor_state(PHASE_2.0, PHASE_2.1);
    assert_eq!(motor.get_position(), 0);
    assert_eq!(motor.get_state(), MotorState::State2);
    motor.update_motor_state(PHASE_3.0, PHASE_3.1);
    assert_eq!(motor.get_position(), 1);
}

#[test]
fn counter_rolls_over_at_its_ends() {
    let phases = [PHASE_1, PHASE_2, PHASE_3, PHASE_4];
    let mut motor = Motor::new(PHASE_1.0, PHASE_1.1, 8000);
    for step in 1..=32767usize {
        motor.update_motor_state(phases[step % 4].0, phases[step % 4].1);
    }
    assert_eq!(motor.get_position(), i16::MAX);
    motor.update_motor_state(phases[32768 % 4].0, phases[32768 % 4].1);
    assert_eq!(motor.get_position(), i16::MIN);
    motor.update_motor_state(phases[32767 % 4].0, phases[32767 % 4].1);
    assert_eq!(motor.get_position(), i16::MAX);
}

#[test]
fn opening_byte_then_closing_byte_completes() {
    let mut buffer = [0u8; 2];
    let mut motor = 0u8;
    let mut add_lsw = false;
    assert!(!decode_transmission(0b11100111, &mut buffer, &mut motor, &mut add_lsw));
    assert_eq!((buffer, motor, add_lsw), ([0b100111, 0], 1, true));
    assert!(decode_transmission(0b00001000, &mut buffer, &mut motor, &mut add_lsw));
    assert_eq!((buffer, motor, add_lsw), ([0b100111, 0b1000], 1, false));
    assert_eq!(assemble_position(&buffer), 5000);
}

#[test]
fn closing_byte_without_an_open_command_is_dropped() {
    let mut buffer = [3u8, 4];
    let mut motor = 1u8;
    let mut add_lsw = false;
    assert!(!decode_transmission(0x7f, &mut buffer, &mut motor, &mut add_lsw));
    assert_eq!((buffer, motor, add_lsw), ([3, 4], 1, false));
    // a second closing byte right after a completed command is dropped too
    assert!(!decode_transmission(0x80, &mut buffer, &mut motor, &mut add_lsw));
    assert!(decode_transmission(0x01, &mut buffer, &mut motor, &mut add_lsw));
    assert!(!decode_transmission(0x02, &mut buffer, &mut motor, &mut add_lsw));
    assert_eq!((buffer, motor, add_lsw), ([0, 1], 0, false));
}

#[test]
fn new_opening_byte_replaces_a_half_received_command() {
    let mut buffer = [0u8; 2];
    let mut motor = 0u8;
    let mut add_lsw = false;
    assert!(!decode_transmission(0b11000001, &mut buffer, &mut motor, &mut add_lsw));
    assert!(!decode_transmission(0b10000010, &mut buffer, &mut motor, &mut add_lsw));
    assert_eq!((buffer, motor, add_lsw), ([2, 0], 0, true));
    assert!(decode_transmission(0b0000011, &mut buffer, &mut motor, &mut add_lsw));
    assert_eq!(assemble_position(&buffer), 2 * 128 + 3);
}

#[test]
fn assembled_position_is_never_negative() {
    assert_eq!(assemble_position(&[0, 0]), 0);
    assert_eq!(assemble_position(&[63, 127]), 8191);
    assert_eq!(assemble_position(&[1, 0]), 128);
    assert_eq!(assemble_position(&[255, 255]), 32767);
    assert_eq!(assemble_position(&[1, 128]), 128);
}

#[test]
fn servo_drives_toward_the_target() {
    let mut servo = MotorInterface::new(false, false);
    assert_eq!(servo.get_position(), 0);
    assert_eq!(servo.turn_to_position(0), DriveAction::Hold);
    assert_eq!(servo.turn_to_position(1), DriveAction::Forward);
    assert_eq!(servo.turn_to_position(-1), DriveAction::Reverse);
    assert_eq!(servo.turn_to_position(i16::MAX), DriveAction::Forward);
    assert_eq!(servo.turn_to_position(i16::MIN), DriveAction::Reverse);
    servo.update_position(false, true);
    servo.update_position(true, true);
    assert_eq!(servo.get_position(), 2);
    assert_eq!(servo.turn_to_position(2), DriveAction::Hold);
    assert_eq!(servo.turn_to_position(1), DriveAction::Reverse);
    assert_eq!(servo.turn_to_position(3), DriveAction::Forward);
}

#[test]
fn servo_decides_at_the_far_ends_of_the_counter() {
    let mut servo = MotorInterface::new(false, false);
    servo.update_position(true, false);
    assert_eq!(servo.get_position(), -1);
    // the distance to the target does not fit the counter, the decision stands
    assert_eq!(servo.turn_to_position(i16::MAX), DriveAction::Forward);
    assert_eq!(servo.turn_to_position(i16::MIN), DriveAction::Reverse);
}

#[test]
fn drive_actions_spell_out_the_outputs() {
    assert_eq!(DriveAction::Forward.duty(), 80);
    assert_eq!(DriveAction::Reverse.duty(), 80);
    assert_eq!(DriveAction::Hold.duty(), 0);
    assert_eq!(DriveAction::Forward.direction_levels(), Some((true, false)));
    assert_eq!(DriveAction::Reverse.direction_levels(), Some((false, true)));
    assert_eq!(DriveAction::Hold.direction_levels(), None);
    assert!(DriveAction::Hold.at_target());
    assert!(!DriveAction::Forward.at_target());
    assert!(!DriveAction::Reverse.at_target());
}

#[test]
fn node_starts_toward_its_first_target() {
    let mut node = MotorNode::new(false, false, 4500);
    assert_eq!(node.target(), 4500);
    assert_eq!(node.get_position(), 0);
    assert_eq!(node.motor_number(), 0);
    let outcome = node.control_pass(None, None);
    assert_eq!(outcome, PassOutcome { action: DriveAction::Forward, emitted: None });
    assert_eq!(node.target(), 4500);
}

#[test]
fn node_takes_a_completed_command_as_target_in_the_same_pass() {
    let mut node = MotorNode::new(false, false, 0);
    assert_eq!(node.control_pass(None, None).action, DriveAction::Hold);
    // the opening byte alone changes nothing
    let outcome = node.control_pass(None, Some(0b11100111));
    assert_eq!(outcome, PassOutcome { action: DriveAction::Hold, emitted: None });
    assert_eq!(node.target(), 0);
    assert_eq!(node.motor_number(), 1);
    // the closing byte completes the pair
    let outcome = node.control_pass(None, Some(0b00001000));
    assert_eq!(outcome, PassOutcome { action: DriveAction::Forward, emitted: Some(5000) });
    assert_eq!(node.target(), 5000);
    // a stray closing byte is dropped
    let outcome = node.control_pass(None, Some(0b00000001));
    assert_eq!(outcome, PassOutcome { action: DriveAction::Forward, emitted: None });
    assert_eq!(node.target(), 5000);
}

#[test]
fn node_serves_the_encoder_before_it_decides() {
    let mut node = MotorNode::new(false, false, 1);
    let outcome = node.control_pass(Some((false, true)), None);
    assert_eq!(node.get_position(), 1);
    assert_eq!(outcome.action, DriveAction::Hold);
    let outcome = node.control_pass(Some((true, true)), None);
    assert_eq!(node.get_position(), 2);
    assert_eq!(outcome.action, DriveAction::Reverse);
    // both events in one pass
    assert_eq!(node.control_pass(None, Some(0x80)).emitted, None);
    let outcome = node.control_pass(Some((true, false)), Some(0x03));
    assert_eq!(node.get_position(), 3);
    assert_eq!(outcome, PassOutcome { action: DriveAction::Hold, emitted: Some(3) });
}
