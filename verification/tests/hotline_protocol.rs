use hotline::hotline_protocol::{
    bool_array_to_dio_states, calculate_crc8, dio_states_to_bool_array, HotlineMessage, ParseError,
};

#[test]
fn test_create_message() {
    let states: [bool; 16] = [
        true, false, true, false, true, false, true, false, false, true, false, true, false, true,
        false, true,
    ];
    let message = HotlineMessage::new(0x01, states);
    assert_eq!(message.device_id, 0x01);
    assert_eq!(message.dio_state_0, 0x55); // 0b01010101
    assert_eq!(message.dio_state_1, 0xAA); // 0b10101010
    assert_eq!(message.crc8, calculate_crc8(0x01, 0x55, 0xAA));
}

#[test]
fn test_serialize_message() {
    let states: [bool; 16] = [
        true, false, true, false, true, false, true, false, false, true, false, true, false, true,
        false, true,
    ];
    let message = HotlineMessage::new(0x01, states);
    let bytes = message.to_bytes();
    assert_eq!(bytes, [0xBE, 0xEF, 0x01, 0x55, 0xAA, message.crc8, 0xDE, 0xAD]);
}

#[test]
fn test_parse_message() {
    let states: [bool; 16] = [
        true, false, true, false, true, false, true, false, false, true, false, true, false, true,
        false, true,
    ];
    let original_message = HotlineMessage::new(0x01, states);
    let bytes = original_message.to_bytes();
    let parsed_message = HotlineMessage::from_bytes(&bytes).unwrap();
    assert_eq!(parsed_message, original_message);
}

#[test]
fn test_invalid_message() {
    let invalid_bytes = [0xBE, 0xEF, 0x01, 0xFF, 0x00, 0x00, 0xDE, 0xAD];
    assert!(HotlineMessage::from_bytes(&invalid_bytes).ok().is_none());
}

#[test]
fn test_bool_array_to_dio_states() {
    let states: [bool; 16] = [
        true, false, true, false, true, false, true, false, false, true, false, true, false, true,
        false, true,
    ];

    let (dio_state_0, dio_state_1) = bool_array_to_dio_states(&states);
    assert_eq!(dio_state_0, 0b01010101);
    assert_eq!(dio_state_1, 0b10101010);
}

#[test]
fn test_dio_states_to_bool_array() {
    let dio_state_0 = 0b01010101;
    let dio_state_1 = 0b10101010;
    let expected_states: [bool; 16] = [
        true, false, true, false, true, false, true, false, false, true, false, true, false, true,
        false, true,
    ];

    let states = dio_states_to_bool_array(dio_state_0, dio_state_1);
    assert_eq!(states, expected_states);
}

#[test]
fn test_all_false() {
    let states: [bool; 16] = [false; 16];
    let (dio_state_0, dio_state_1) = bool_array_to_dio_states(&states);
    assert_eq!(dio_state_0, 0b00000000);
    assert_eq!(dio_state_1, 0b00000000);

    let bool_array = dio_states_to_bool_array(dio_state_0, dio_state_1);
    assert_eq!(bool_array, states);
}

#[test]
fn test_all_true() {
    let states: [bool; 16] = [true; 16];
    let (dio_state_0, dio_state_1) = bool_array_to_dio_states(&states);
    assert_eq!(dio_state_0, 0b11111111);
    assert_eq!(dio_state_1, 0b11111111);

    let bool_array = dio_states_to_bool_array(dio_state_0, dio_state_1);
    assert_eq!(bool_array, states);
}

#[test]
fn test_get_dio_state() {
    let states: [bool; 16] = [
        true, false, true, false, true, false, true, false, false, true, false, true, false, true,
        false, true,
    ];
    let message = HotlineMessage::new(0x01, states);
    assert_eq!(message.get_dio_state(0), Some(true));
    assert_eq!(message.get_dio_state(1), Some(false));
    assert_eq!(message.get_dio_state(8), Some(false));
    assert_eq!(message.get_dio_state(9), Some(true));
    assert_eq!(message.get_dio_state(15), Some(true));
    assert_eq!(message.get_dio_state(16), None); // Out of range
}

// ---------------------------------------------------------------------------

#[test]
fn crc8_of_known_payloads() {
    assert_eq!(calculate_crc8(0x01, 0x55, 0xAA), 0x79);
    assert_eq!(calculate_crc8(0x01, 0xFF, 0x00), 0xBC);
    assert_eq!(calculate_crc8(0x00, 0x00, 0x00), 0x00);
}

#[test]
fn invalid_message_is_refused_for_its_crc() {
    let invalid_bytes = [0xBE, 0xEF, 0x01, 0xFF, 0x00, 0x00, 0xDE, 0xAD];
    assert_eq!(HotlineMessage::from_bytes(&invalid_bytes), Err(ParseError::InvalidCrc));
}

#[test]
fn short_and_long_frames_are_refused_for_their_length() {
    assert_eq!(HotlineMessage::from_bytes(&[]), Err(ParseError::InvalidLength));
    assert_eq!(
        HotlineMessage::from_bytes(&[0xBE, 0xEF, 0x01, 0x55, 0xAA, 0x79, 0xDE]),
        Err(ParseError::InvalidLength)
    );
    assert_eq!(
        HotlineMessage::from_bytes(&[0xBE, 0xEF, 0x01, 0x55, 0xAA, 0x79, 0xDE, 0xAD, 0x00]),
        Err(ParseError::InvalidLength)
    );
}

#[test]
fn wrong_delimiters_are_refused_before_the_crc() {
    // the check byte is wrong too: the delimiters are checked first
    assert_eq!(
        HotlineMessage::from_bytes(&[0xBE, 0xEE, 0x01, 0x55, 0xAA, 0x00, 0xDE, 0xAD]),
        Err(ParseError::InvalidDelimiters)
    );
    assert_eq!(
        HotlineMessage::from_bytes(&[0xBE, 0xEF, 0x01, 0x55, 0xAA, 0x79, 0xDE, 0xAE]),
        Err(ParseError::InvalidDelimiters)
    );
}

#[test]
fn frame_parses_into_its_fields() {
    let message = HotlineMessage::from_bytes(&[0xBE, 0xEF, 0x01, 0x55, 0xAA, 0x79, 0xDE, 0xAD])
        .unwrap();
    assert_eq!(
        message,
        HotlineMessage { device_id: 0x01, dio_state_0: 0x55, dio_state_1: 0xAA, crc8: 0x79 }
    );
    assert_eq!(message.to_bytes(), [0xBE, 0xEF, 0x01, 0x55, 0xAA, 0x79, 0xDE, 0xAD]);
}

#[test]
fn single_output_lands_in_its_bit() {
    let mut states = [false; 16];
    states[11] = true;
    assert_eq!(bool_array_to_dio_states(&states), (0x00, 0x08));
    let message = HotlineMessage::new(0xFF, states);
    for i in 0..16 {
        assert_eq!(message.get_dio_state(i), Some(i == 11));
    }
    assert_eq!(message.get_dio_state(usize::MAX), None);
}
