use hotline::hex::HexFormatter;
use hotline::modbus::{
    configuration_commands, modbus_crc, relay_command, relay_round, with_crc,
    write_register_command,
};
use hotline::writer::SimpleWriter;

fn bitwise_modbus_crc(data: &[u8]) -> u16 {
    let mut crc: u16 = 0xFFFF;
    for &b in data {
        crc ^= b as u16;
        for _ in 0..8 {
            if crc & 1 != 0 {
                crc = (crc >> 1) ^ 0xA001;
            } else {
                crc >>= 1;
            }
        }
    }
    crc
}

#[test]
fn modbus_crc_check_value() {
    assert_eq!(modbus_crc(b"123456789"), 0x4B37);
    assert_eq!(modbus_crc(&[]), 0xFFFF);
}

#[test]
fn modbus_crc_agrees_with_the_bitwise_algorithm() {
    let mut data = Vec::new();
    for i in 0..300u32 {
        data.push((i.wrapping_mul(37) ^ (i >> 3)) as u8);
        assert_eq!(modbus_crc(&data), bitwise_modbus_crc(&data));
    }
}

#[test]
fn set_device_address_command() {
    // "write register 0x4000 := 1" to device 0, CRC 0x1B5C sent low byte first
    assert_eq!(
        write_register_command(0x00, 0x4000, 0x0001),
        [0x00, 0x06, 0x40, 0x00, 0x00, 0x01, 0x5C, 0x1B]
    );
}

#[test]
fn set_baud_rate_command() {
    assert_eq!(
        write_register_command(0x00, 0x2000, 0x0007),
        [0x00, 0x06, 0x20, 0x00, 0x00, 0x07, 0xC2, 0x19]
    );
}

#[test]
fn relay_commands() {
    assert_eq!(relay_command(0x00, 0x03, true), [0x00, 0x05, 0x00, 0x03, 0xFF, 0x00, 0x7D, 0xEB]);
    assert_eq!(relay_command(0x00, 0x00, false), [0x00, 0x05, 0x00, 0x00, 0x00, 0x00, 0xCC, 0x1B]);
}

#[test]
fn framed_payload_checks_to_zero() {
    let frame = with_crc([0x11, 0x22, 0x33, 0x44, 0x55, 0x66]);
    assert_eq!(&frame[..6], &[0x11, 0x22, 0x33, 0x44, 0x55, 0x66]);
    assert_eq!(modbus_crc(&frame), 0x0000);
}

#[test]
fn byte_to_hex_digits() {
    assert_eq!(HexFormatter::byte_to_hex(0x00), ('0', '0'));
    assert_eq!(HexFormatter::byte_to_hex(0x5C), ('5', 'C'));
    assert_eq!(HexFormatter::byte_to_hex(0xAF), ('A', 'F'));
    assert_eq!(HexFormatter::byte_to_hex(0xFF), ('F', 'F'));
}

#[test]
fn configuration_then_relay_rounds() {
    assert_eq!(
        configuration_commands(0x00),
        [
            [0x00, 0x06, 0x20, 0x00, 0x00, 0x07, 0xC2, 0x19],
            [0x00, 0x06, 0x40, 0x00, 0x00, 0x01, 0x5C, 0x1B],
        ]
    );
    let open = relay_round(0x00, true);
    let close = relay_round(0x00, false);
    for relay in 0..8u8 {
        assert_eq!(open[relay as usize], relay_command(0x00, relay, true));
        assert_eq!(close[relay as usize], relay_command(0x00, relay, false));
    }
    assert_eq!(open[3], [0x00, 0x05, 0x00, 0x03, 0xFF, 0x00, 0x7D, 0xEB]);
    assert_eq!(close[0], [0x00, 0x05, 0x00, 0x00, 0x00, 0x00, 0xCC, 0x1B]);
}

#[test]
fn bytes_to_hex_string_writes_spaced_pairs() {
    let mut output = [b'#'; 32];
    let text = HexFormatter::bytes_to_hex_string(&[0x00, 0x06, 0x40, 0x5C, 0x1B], &mut output);
    assert_eq!(text, "00 06 40 5C 1B");
    assert_eq!(&output[..14], b"00 06 40 5C 1B");
    assert!(output[14..].iter().all(|&b| b == b'#'));
}

#[test]
fn bytes_to_hex_string_edge_cases() {
    let mut output = [b'#'; 2];
    assert_eq!(HexFormatter::bytes_to_hex_string(&[], &mut output), "");
    assert_eq!(output, [b'#'; 2]);
    assert_eq!(HexFormatter::bytes_to_hex_string(&[0xBE], &mut output), "BE");
    assert_eq!(&output, b"BE");
}

#[test]
fn simple_writer_fills_and_refuses() {
    let mut buffer = [b'#'; 8];
    {
        let mut writer = SimpleWriter::new(&mut buffer);
        assert_eq!(writer.as_str(), "");
        assert_eq!(writer.write_str("Pin"), Ok(()));
        assert_eq!(writer.write_str("Err"), Ok(()));
        assert_eq!(writer.as_str(), "PinErr");
        assert_eq!(writer.write_str("or"), Ok(()));
        assert_eq!(writer.write_str("!"), Err(core::fmt::Error));
        assert_eq!(writer.as_str(), "PinError");
    }
    assert_eq!(&buffer, b"PinError");
}

#[test]
fn simple_writer_refuses_a_write_that_does_not_fit_whole() {
    let mut buffer = [b'#'; 5];
    {
        let mut writer = SimpleWriter::new(&mut buffer);
        assert_eq!(writer.write_str("abc"), Ok(()));
        assert_eq!(writer.write_str("def"), Err(core::fmt::Error));
        assert_eq!(writer.as_str(), "abc");
        assert_eq!(writer.write_str("é"), Ok(())); // two bytes in UTF-8
        assert_eq!(writer.as_str(), "abcé");
        assert_eq!(writer.write_str("d"), Err(core::fmt::Error));
    }
    assert_eq!(&buffer, "abcé".as_bytes());
}

#[test]
fn simple_writer_leaves_the_rest_of_the_buffer() {
    let mut buffer = [b'#'; 6];
    {
        let mut writer = SimpleWriter::new(&mut buffer);
        assert_eq!(writer.write_str("ab"), Ok(()));
        assert_eq!(writer.write_str("cdefg"), Err(core::fmt::Error));
    }
    assert_eq!(&buffer, b"ab####");
}
