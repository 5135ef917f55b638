use robot_arm::controller::data_handler::DataHandler as OutgoingFrame;
use robot_arm::controller::joystick_interface::{encode_magnitude, sample, scale_value, stick_magnitude};
use robot_arm::networking::data_handler::DataHandler;
use robot_arm::networking::network_interface::{decode_channel, process_buffer};

#[test]
fn magnitudes_take_their_nibble() {
    assert_eq!(encode_magnitude(0), 0);
    for m in 1i8..=8 {
        assert_eq!(encode_magnitude(-m), m as u8);
        assert_eq!(encode_magnitude(m), (m as u8) << 4);
    }
    assert_eq!(encode_magnitude(8), 0x80);
    assert_eq!(encode_magnitude(-8), 0x08);
}

#[test]
fn round_trip_returns_every_magnitude_with_a_minus_sign() {
    for channel in [0usize, 3, 4, 5] {
        for m in -8i8..=8 {
            let back = decode_channel(channel, encode_magnitude(m));
            if m <= 0 {
                assert_eq!(back, m as i16);
            } else {
                assert_eq!(back, -(m as i16));
            }
        }
    }
    assert_eq!(decode_channel(0, encode_magnitude(3)), -3);
    assert_eq!(decode_channel(0, encode_magnitude(-3)), -3);
}

#[test]
fn round_trip_on_a_mirrored_channel_drops_the_sign() {
    for channel in [1usize, 2] {
        for m in -8i8..=8 {
            assert_eq!(decode_channel(channel, encode_magnitude(m)), (m as i16).abs());
        }
    }
}

#[test]
fn bytes_no_encoder_sends_still_decode() {
    assert_eq!(decode_channel(0, 9), 0);
    assert_eq!(decode_channel(0, 15), 0);
    assert_eq!(decode_channel(0, 0x11), -1);
    assert_eq!(decode_channel(0, 0x9f), -9);
    assert_eq!(decode_channel(0, 0xff), -15);
    assert_eq!(decode_channel(1, 0xff), 15);
    assert_eq!(decode_channel(2, 9), 0);
}

#[test]
fn frame_is_decoded_channel_by_channel() {
    let frame = process_buffer(&[0x80, 0x03, 0x50, 0x08, 1, 0]);
    assert_eq!(frame, DataHandler::new(-8, 3, 5, -8, -1, 0));
    assert_eq!(frame.return_joystick_data(), ([-8, 3, -1], [5, -8, 0]));
    assert!(!frame.both_buttons_pressed());

    let rest = process_buffer(&[0, 0, 0, 0, 0, 0]);
    assert_eq!(rest, DataHandler::new(0, 0, 0, 0, 0, 0));
    assert!(rest.both_buttons_pressed());
}

#[test]
fn frame_from_buffer_keeps_the_wire_order() {
    let frame = DataHandler::from_buffer(&[1, -2, 3, -4, 0, 1]);
    assert_eq!(frame, DataHandler { x: 1, y: -2, roll: 3, pitch: -4, button1: 0, button2: 1 });
    assert_eq!(frame.return_joystick_data(), ([1, -2, 0], [3, -4, 1]));
    assert!(!frame.both_buttons_pressed());
    assert!(!DataHandler::new(0, 0, 0, 0, 1, 0).both_buttons_pressed());
    assert!(DataHandler::new(5, 5, 5, 5, 0, 0).both_buttons_pressed());
}

#[test]
fn readings_left_of_rest_scale_to_the_low_nibble() {
    assert_eq!(stick_magnitude(0), -8);
    assert_eq!(stick_magnitude(193), -8);
    assert_eq!(stick_magnitude(194), -7);
    assert_eq!(stick_magnitude(775), -4);
    assert_eq!(stick_magnitude(1549), -1);
    assert_eq!(scale_value(0), 8);
    assert_eq!(scale_value(194), 7);
    assert_eq!(scale_value(1549), 1);
}

#[test]
fn readings_in_the_rest_band_scale_to_zero() {
    assert_eq!(stick_magnitude(1551), 0);
    assert_eq!(stick_magnitude(1650), 0);
    assert_eq!(stick_magnitude(1749), 0);
    assert_eq!(scale_value(1650), 0);
    // the two bounds of the band scale to zero as well
    assert_eq!(scale_value(1550), 0);
    assert_eq!(scale_value(1750), 0);
}

#[test]
fn readings_right_of_rest_scale_to_the_high_nibble() {
    assert_eq!(stick_magnitude(1776), 0);
    assert_eq!(stick_magnitude(1777), 1);
    assert_eq!(stick_magnitude(2000), 2);
    assert_eq!(stick_magnitude(2664), 7);
    assert_eq!(stick_magnitude(2665), 8);
    assert_eq!(stick_magnitude(2765), 8);
    assert_eq!(stick_magnitude(4095), 8);
    assert_eq!(stick_magnitude(u16::MAX), 8);
    assert_eq!(scale_value(1777), 0x10);
    assert_eq!(scale_value(2000), 0x20);
    assert_eq!(scale_value(2765), 0x80);
    assert_eq!(scale_value(u16::MAX), 0x80);
}

#[test]
fn stick_sample_holds_both_axes_and_the_button() {
    assert_eq!(sample(0, 2765, true), [8, 0x80, 1]);
    assert_eq!(sample(1650, 1650, false), [0, 0, 0]);
}

#[test]
fn outgoing_frame_starts_at_rest() {
    let frame = OutgoingFrame::new();
    assert_eq!(frame.data_as_bytes(), [0, 0, 0, 0, 1, 1]);
    assert!(!frame.input_detected());
}

#[test]
fn outgoing_frame_takes_over_both_sticks() {
    let mut frame = OutgoingFrame::new();
    frame.update([0x10, 2, 1], [0x30, 4, 0]);
    // wire order: x, y, roll, pitch, button one, button two
    assert_eq!(frame.data_as_bytes(), [0x10, 2, 0x30, 4, 1, 0]);
    assert!(frame.input_detected());
}

#[test]
fn any_channel_counts_as_input() {
    let idle = ([0u8, 0, 1], [0u8, 0, 1]);
    let mut frame = OutgoingFrame::new();
    frame.update(idle.0, idle.1);
    assert!(!frame.input_detected());
    for (first, second) in [
        ([1u8, 0, 1], [0u8, 0, 1]),
        ([0, 1, 1], [0, 0, 1]),
        ([0, 0, 0], [0, 0, 1]),
        ([0, 0, 1], [1, 0, 1]),
        ([0, 0, 1], [0, 1, 1]),
        ([0, 0, 1], [0, 0, 0]),
    ] {
        frame.update(first, second);
        assert!(frame.input_detected());
    }
    // a button byte other than zero is idle
    frame.update([0, 0, 2], [0, 0, 255]);
    assert!(!frame.input_detected());
}

#[test]
fn remote_frame_decodes_at_the_coordinator() {
    let mut frame = OutgoingFrame::new();
    frame.update(sample(0, 2765, true), sample(2765, 0, false));
    let decoded = process_buffer(&frame.data_as_bytes());
    assert_eq!(decoded, DataHandler::new(-8, 8, 8, -8, -1, 0));
}
