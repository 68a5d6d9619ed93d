use msi_kvm::errors::ProtocolError;
use msi_kvm::packet::{
    decode, get_input_packet, get_kvm_packet, make_packet, set_input_packet, set_kvm_packet,
};

fn response(header: u8, digits: [u8; 3]) -> [u8; 64] {
    let mut buf = [0u8; 64];
    buf[0] = 0x01;
    buf[1] = header;
    buf[8] = digits[0];
    buf[9] = digits[1];
    buf[10] = digits[2];
    buf[11] = 0x0d;
    buf
}

#[test]
fn make_packet_copies_short_input_and_zero_pads() {
    let input: [u8; 5] = [0x01, 0x35, 0x38, 0x30, 0x0d];
    let packet = make_packet(&input);
    assert_eq!(packet.len(), 64);
    assert_eq!(&packet[..5], &input[..]);
    for i in 5..64 {
        assert_eq!(packet[i], 0, "byte {} should be zero padding", i);
    }
}

#[test]
fn make_packet_of_empty_input_is_all_zero() {
    let packet = make_packet(&[]);
    assert_eq!(packet, [0u8; 64]);
}

#[test]
fn make_packet_keeps_a_full_64_byte_input() {
    let mut input = [0u8; 64];
    for i in 0..64 {
        input[i] = i as u8;
    }
    let packet = make_packet(&input);
    assert_eq!(packet, input);
}

#[test]
fn make_packet_truncates_longer_input() {
    let mut input = [0xaau8; 70];
    input[63] = 0x55;
    input[64] = 0x99;
    let packet = make_packet(&input);
    assert_eq!(packet.len(), 64);
    assert_eq!(&packet[..], &input[..64]);
    assert_eq!(packet[63], 0x55);
}

#[test]
fn decode_parses_three_ascii_digits() {
    let buf = response(0x35, [0x30, 0x30, 0x37]);
    let (raw, value) = decode(buf).expect("a valid response must decode");
    assert_eq!(value, 7);
    assert_eq!(raw, buf);
}

#[test]
fn decode_parses_the_largest_value() {
    let buf = response(0x35, [0x39, 0x39, 0x39]);
    let (_, value) = decode(buf).expect("a valid response must decode");
    assert_eq!(value, 999);
}

#[test]
fn decode_parses_a_mixed_value_exactly() {
    // "205" = 2*100 + 0*10 + 5
    let buf = response(0x35, [0x32, 0x30, 0x35]);
    let (_, value) = decode(buf).expect("a valid response must decode");
    assert_eq!(value, 205);
}

#[test]
fn decode_rejects_an_unexpected_header() {
    let buf = response(0x99, [0x30, 0x30, 0x37]);
    assert_eq!(decode(buf), Err(ProtocolError::UnexpectedHeader));
}

#[test]
fn decode_rejects_an_unexpected_header_whatever_else_the_buffer_holds() {
    let mut buf = response(0x99, [0x31, 0x32, 0x33]);
    for i in 12..64 {
        buf[i] = 0xff;
    }
    assert_eq!(decode(buf), Err(ProtocolError::UnexpectedHeader));
}

#[test]
fn decode_rejects_a_non_digit_value_field() {
    // "0A9": the middle byte is not an ASCII digit.
    let buf = response(0x35, [0x30, 0x41, 0x39]);
    assert_eq!(decode(buf), Err(ProtocolError::MalformedValue));
}

#[test]
fn get_input_packet_matches_the_wire_template() {
    let packet = get_input_packet();
    assert_eq!(
        &packet[..9],
        &[0x01, 0x35, 0x38, 0x30, 0x30, 0x35, 0x30, 0x30, 0x0d]
    );
    for i in 9..64 {
        assert_eq!(packet[i], 0);
    }
}

#[test]
fn get_kvm_packet_matches_the_wire_template() {
    let packet = get_kvm_packet();
    assert_eq!(
        &packet[..9],
        &[0x01, 0x35, 0x38, 0x30, 0x30, 0x38, 0x3e, 0x30, 0x0d]
    );
    for i in 9..64 {
        assert_eq!(packet[i], 0);
    }
}

#[test]
fn set_input_packet_encodes_the_position_as_an_ascii_digit() {
    let packet = set_input_packet(3);
    assert_eq!(
        &packet[..12],
        &[0x01, 0x35, 0x62, 0x30, 0x30, 0x35, 0x30, 0x30, 0x30, 0x30, 0x33, 0x0d]
    );
    for i in 12..64 {
        assert_eq!(packet[i], 0);
    }
}

#[test]
fn set_input_packet_encodes_position_nine() {
    let packet = set_input_packet(9);
    assert_eq!(packet[10], 0x39);
}

#[test]
fn set_kvm_packet_matches_the_wire_template() {
    let packet = set_kvm_packet(2);
    assert_eq!(
        &packet[..12],
        &[0x01, 0x35, 0x62, 0x30, 0x30, 0x38, 0x3e, 0x30, 0x30, 0x30, 0x32, 0x0d]
    );
    for i in 12..64 {
        assert_eq!(packet[i], 0);
    }
}

#[test]
fn a_write_packet_round_trips_through_decode_as_a_response_would() {
    // A response echoing a set command's value field decodes to the
    // position that was set.
    let packet = set_input_packet(2);
    let mut echoed = [0u8; 64];
    echoed[..12].copy_from_slice(&packet[..12]);
    let (_, value) = decode(echoed).expect("the echoed packet has a valid header and digits");
    assert_eq!(value, 2);
}
