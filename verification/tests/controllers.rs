use hotline::hotline_protocol::{HotlineMessage, ParseError};
use hotline::inputs::{
    input_states, pilot_transition, select_mode, ConfigError, InputMode, PilotEvent,
};
use hotline::outputs::apply_message;
use hotline::receiver::{FrameReceiver, ReceiveEvent};

fn states_with(on: &[usize]) -> [bool; 16] {
    let mut states = [false; 16];
    for &i in on {
        states[i] = true;
    }
    states
}

#[test]
fn receiver_assembles_a_frame() {
    let message = HotlineMessage::new(0x01, states_with(&[0, 2, 3]));
    let mut receiver = FrameReceiver::new();
    let bytes = message.to_bytes();
    for &b in &bytes[..7] {
        assert_eq!(receiver.push_byte(b), ReceiveEvent::Pending);
    }
    assert_eq!(receiver.push_byte(bytes[7]), ReceiveEvent::Received(message));
    // and it is ready for the next frame
    for &b in &bytes[..7] {
        assert_eq!(receiver.push_byte(b), ReceiveEvent::Pending);
    }
    assert_eq!(receiver.push_byte(bytes[7]), ReceiveEvent::Received(message));
}

#[test]
fn receiver_resynchronises_on_noise() {
    let message = HotlineMessage::new(0xFF, states_with(&[7]));
    let mut receiver = FrameReceiver::new();
    assert_eq!(receiver.push_byte(0x00), ReceiveEvent::StreamReset);
    assert_eq!(receiver.push_byte(0xBE), ReceiveEvent::Pending);
    assert_eq!(receiver.push_byte(0xBE), ReceiveEvent::StreamReset);
    assert_eq!(receiver.push_byte(0xEF), ReceiveEvent::StreamReset);
    for &b in &message.to_bytes()[..7] {
        assert_eq!(receiver.push_byte(b), ReceiveEvent::Pending);
    }
    assert_eq!(receiver.push_byte(0xAD), ReceiveEvent::Received(message));
}

#[test]
fn receiver_reports_a_corrupted_frame() {
    let mut receiver = FrameReceiver::new();
    for &b in &[0xBE, 0xEF, 0x01, 0xFF, 0x00, 0x00, 0xDE] {
        assert_eq!(receiver.push_byte(b), ReceiveEvent::Pending);
    }
    assert_eq!(receiver.push_byte(0xAD), ReceiveEvent::Rejected(ParseError::InvalidCrc));
    let message = HotlineMessage::new(0x00, states_with(&[1]));
    let mut bytes = message.to_bytes();
    bytes[7] = 0x00;
    for &b in &bytes[..7] {
        assert_eq!(receiver.push_byte(b), ReceiveEvent::Pending);
    }
    assert_eq!(receiver.push_byte(bytes[7]), ReceiveEvent::Rejected(ParseError::InvalidDelimiters));
}

#[test]
fn megapoofer_message_drives_the_first_four_outputs() {
    let mut states = [false; 8];
    let message = HotlineMessage::new(0x01, states_with(&[0, 1, 4, 6, 7]));
    let changes = apply_message(&mut states, &message);
    assert_eq!(changes, [Some(true), Some(true), None, None, None, None, None, None]);
    assert_eq!(states, [true, true, false, false, false, false, false, false]);
}

#[test]
fn sign_message_drives_six_outputs() {
    let mut states = [true; 8];
    let message = HotlineMessage::new(0x00, states_with(&[0, 5, 7]));
    let changes = apply_message(&mut states, &message);
    assert_eq!(
        changes,
        [None, Some(false), Some(false), Some(false), Some(false), None, None, None]
    );
    assert_eq!(states, [true, false, false, false, false, true, true, true]);
}

#[test]
fn broadcast_drives_all_outputs_and_other_devices_none() {
    let mut states = [false; 8];
    let message = HotlineMessage::new(0xFF, states_with(&[6, 7]));
    let changes = apply_message(&mut states, &message);
    assert_eq!(changes, [None, None, None, None, None, None, Some(true), Some(true)]);
    assert_eq!(states, [false, false, false, false, false, false, true, true]);

    let other = HotlineMessage::new(0x02, [true; 16]);
    let changes = apply_message(&mut states, &other);
    assert_eq!(changes, [None; 8]);
    assert_eq!(states, [false, false, false, false, false, false, true, true]);
}

#[test]
fn applying_a_message_twice_changes_nothing_the_second_time() {
    let mut states = [false, true, false, true, false, true, false, true];
    let message = HotlineMessage::new(0xFF, states_with(&[0, 3, 4, 9]));
    apply_message(&mut states, &message);
    let after = states;
    assert_eq!(apply_message(&mut states, &message), [None; 8]);
    assert_eq!(states, after);
}

#[test]
fn mode_selection() {
    assert_eq!(select_mode(true, false), Ok(InputMode::Sign));
    assert_eq!(select_mode(false, true), Ok(InputMode::MegaPoofer));
    assert_eq!(select_mode(true, true), Err(ConfigError::BothSelected));
    assert_eq!(select_mode(false, false), Err(ConfigError::NoneSelected));
    assert_eq!(InputMode::Sign.device_id(), 0x00);
    assert_eq!(InputMode::MegaPoofer.device_id(), 0x01);
    assert_eq!(InputMode::Sign.switch_count(), 5);
    assert_eq!(InputMode::MegaPoofer.switch_count(), 3);
}

#[test]
fn input_states_follow_the_switches() {
    let states = input_states(true, &[false, true, false, false, true], false);
    assert_eq!(states, states_with(&[0, 2, 5]));
    let states = input_states(false, &[false, true, false], true);
    assert_eq!(states, states_with(&[1, 2, 3]));
    assert_eq!(input_states(false, &[], true), [false; 16]);
}

#[test]
fn pilot_transitions() {
    assert_eq!(pilot_transition(false, true), Some(PilotEvent::Lit));
    assert_eq!(pilot_transition(true, false), Some(PilotEvent::TurnedOff));
    assert_eq!(pilot_transition(true, true), None);
    assert_eq!(pilot_transition(false, false), None);
}
