//! Fixed-size command and response packets.
//!
//! Every packet on the wire is exactly 64 bytes, zero-padded past its
//! meaningful prefix. A response carries the monitor index at byte 0, the
//! reply header at byte 1, and the decoded decimal value as three ASCII
//! digits at bytes 8..=10, followed by the command terminator.

use vstd::prelude::*;

use crate::errors::ProtocolError;

verus! {

/// Index of the monitor on a multi-unit bus; fixed at one here.
pub const MONITOR_INDEX: u8 = 0x01;

/// Header byte of every request, and of every valid response.
pub const REPLY_HEADER: u8 = 0x35;

/// Marker byte distinguishing a write command from a read command.
pub const WRITE_MARKER: u8 = 0x62;

/// Marker byte of a read command.
pub const READ_MARKER: u8 = 0x38;

/// End-of-command byte.
pub const TERMINATOR: u8 = 0x0d;

/// Base byte of an ASCII-digit payload: the digit for position `p` is
/// `PAYLOAD_BASE + p`.
pub const PAYLOAD_BASE: u8 = 0x30;

/// Copies up to 64 bytes of `slice` into a zeroed 64-byte buffer, starting
/// at offset 0. Longer input is silently truncated to its first 64 bytes.
pub fn make_packet(slice: &[u8]) -> (buffer: [u8; 64])
    ensures
        forall|i: int| 0 <= i < 64 && i < slice@.len() ==> buffer@[i] == slice@[i],
        forall|i: int| slice@.len() <= i < 64 ==> buffer@[i] == 0,
{
    let mut buffer = [0u8; 64];
    let n: usize = if slice.len() < 64 {
        slice.len()
    } else {
        64
    };
    let mut i: usize = 0;
    while i < n
        invariant
            i <= n,
            n <= 64,
            n <= slice@.len(),
            forall|j: int| 0 <= j < i ==> buffer@[j] == slice@[j],
            forall|j: int| i <= j < 64 ==> buffer@[j] == 0,
        decreases n - i,
    {
        buffer[i] = slice[i];
        i += 1;
    }
    buffer
}

/// The five feature-address bytes selecting the active input source.
pub open spec fn input_feature() -> Seq<u8> {
    seq![0x30u8, 0x30u8, 0x35u8, 0x30u8, 0x30u8]
}

/// The five feature-address bytes selecting the active KVM port.
pub open spec fn kvm_feature() -> Seq<u8> {
    seq![0x30u8, 0x30u8, 0x38u8, 0x3eu8, 0x30u8]
}

/// The wire form of a read request for a feature address: monitor index,
/// header, read marker, the five feature-address bytes, the terminator,
/// and zeros up to 64 bytes.
pub open spec fn read_request(feature: Seq<u8>, p: Seq<u8>) -> bool {
    &&& p.len() == 64
    &&& p[0] == MONITOR_INDEX
    &&& p[1] == REPLY_HEADER
    &&& p[2] == READ_MARKER
    &&& (forall|i: int| 0 <= i < 5 ==> p[3 + i] == feature[i])
    &&& p[8] == TERMINATOR
    &&& (forall|i: int| 9 <= i < 64 ==> p[i] == 0)
}

/// The wire form of a write request for a feature address and a position:
/// monitor index, header, write marker, the five feature-address bytes,
/// a three-digit ASCII payload whose last digit encodes the position, the
/// terminator, and zeros up to 64 bytes.
pub open spec fn write_request(feature: Seq<u8>, position: u8, p: Seq<u8>) -> bool {
    &&& p.len() == 64
    &&& p[0] == MONITOR_INDEX
    &&& p[1] == REPLY_HEADER
    &&& p[2] == WRITE_MARKER
    &&& (forall|i: int| 0 <= i < 5 ==> p[3 + i] == feature[i])
    &&& p[8] == PAYLOAD_BASE
    &&& p[9] == PAYLOAD_BASE
    &&& p[10] == PAYLOAD_BASE + position
    &&& p[11] == TERMINATOR
    &&& (forall|i: int| 12 <= i < 64 ==> p[i] == 0)
}

/// Frames the read request for a feature address.
fn read_request_packet(feature: &[u8; 5]) -> (p: [u8; 64])
    ensures
        read_request(feature@, p@),
{
    let template: [u8; 9] = [
        MONITOR_INDEX,
        REPLY_HEADER,
        READ_MARKER,
        feature[0],
        feature[1],
        feature[2],
        feature[3],
        feature[4],
        TERMINATOR,
    ];
    make_packet(&template)
}

/// Frames the write request for a feature address and a position in 0–9.
fn write_request_packet(feature: &[u8; 5], position: u8) -> (p: [u8; 64])
    requires
        position <= 9,
    ensures
        write_request(feature@, position, p@),
{
    let template: [u8; 12] = [
        MONITOR_INDEX,
        REPLY_HEADER,
        WRITE_MARKER,
        feature[0],
        feature[1],
        feature[2],
        feature[3],
        feature[4],
        PAYLOAD_BASE,
        PAYLOAD_BASE,
        PAYLOAD_BASE + position,
        TERMINATOR,
    ];
    make_packet(&template)
}

/// The command packet asking for the active input source.
pub fn get_input_packet() -> (p: [u8; 64])
    ensures
        read_request(input_feature(), p@),
{
    let feature: [u8; 5] = [0x30, 0x30, 0x35, 0x30, 0x30];
    read_request_packet(&feature)
}

/// The command packet asking for the active KVM port.
pub fn get_kvm_packet() -> (p: [u8; 64])
    ensures
        read_request(kvm_feature(), p@),
{
    let feature: [u8; 5] = [0x30, 0x30, 0x38, 0x3e, 0x30];
    read_request_packet(&feature)
}

/// The command packet switching the input source to `position` (0–9); the
/// payload digit is `PAYLOAD_BASE + position`.
pub fn set_input_packet(position: u8) -> (p: [u8; 64])
    requires
        position <= 9,
    ensures
        write_request(input_feature(), position, p@),
{
    let feature: [u8; 5] = [0x30, 0x30, 0x35, 0x30, 0x30];
    write_request_packet(&feature, position)
}

/// The command packet switching the KVM port to `position` (0–9); the
/// payload digit is `PAYLOAD_BASE + position`.
pub fn set_kvm_packet(position: u8) -> (p: [u8; 64])
    requires
        position <= 9,
    ensures
        write_request(kvm_feature(), position, p@),
{
    let feature: [u8; 5] = [0x30, 0x30, 0x38, 0x3e, 0x30];
    write_request_packet(&feature, position)
}

/// Whether a byte is an ASCII decimal digit.
pub open spec fn is_ascii_digit(b: u8) -> bool {
    0x30 <= b && b <= 0x39
}

/// Whether a response buffer carries the expected reply header.
pub open spec fn header_valid(buf: Seq<u8>) -> bool
    recommends
        buf.len() == 64,
{
    buf[1] == REPLY_HEADER
}

/// Whether the three bytes of a response's value field are ASCII digits.
pub open spec fn value_field_valid(buf: Seq<u8>) -> bool
    recommends
        buf.len() == 64,
{
    is_ascii_digit(buf[8]) && is_ascii_digit(buf[9]) && is_ascii_digit(buf[10])
}

/// The decimal value spelled by the response's three-digit value field.
pub open spec fn decoded_value(buf: Seq<u8>) -> int
    recommends
        buf.len() == 64,
        value_field_valid(buf),
{
    100 * (buf[8] - 0x30) + 10 * (buf[9] - 0x30) + (buf[10] - 0x30)
}

/// Decodes a 64-byte response: checks the header byte, then parses the
/// three ASCII digits at bytes 8..=10 as an unsigned decimal value. The raw
/// buffer is returned alongside the value so callers can inspect the other
/// fields.
pub fn decode(buf: [u8; 64]) -> (r: Result<([u8; 64], u32), ProtocolError>)
    ensures
        r is Ok <==> header_valid(buf@) && value_field_valid(buf@),
        r matches Ok(p) ==> p.0 == buf && p.1 == decoded_value(buf@) && p.1 <= 999,
        !header_valid(buf@) ==> r == Err::<([u8; 64], u32), ProtocolError>(
            ProtocolError::UnexpectedHeader,
        ),
        header_valid(buf@) && !value_field_valid(buf@) ==> r == Err::<([u8; 64], u32), ProtocolError>(
            ProtocolError::MalformedValue,
        ),
{
    if buf[1] != REPLY_HEADER {
        return Err(ProtocolError::UnexpectedHeader);
    }
    let hundreds: u8 = buf[8];
    let tens: u8 = buf[9];
    let units: u8 = buf[10];
    if hundreds < 0x30 || hundreds > 0x39 || tens < 0x30 || tens > 0x39 || units < 0x30 || units
        > 0x39 {
        return Err(ProtocolError::MalformedValue);
    }
    let value: u32 = 100 * ((hundreds - 0x30) as u32) + 10 * ((tens - 0x30) as u32) + ((units
        - 0x30) as u32);
    Ok((buf, value))
}

} // verus!
