use pnet::packet::icmp::echo_request::MutableEchoRequestPacket;
use pnet::packet::icmp::IcmpTypes;
use pnet::packet::Packet;
use rong::error::PingError;
use rong::packet::{
    create_echo_request, parse_echo_reply, EchoRequest, DEFAULT_BUFFER_SIZE, DEFAULT_DATA_SIZE,
    DEFAULT_HEADER_SIZE, ECHO_REPLY, ECHO_REQUEST,
};

/// The Internet checksum of `data` with the word at bytes 2 and 3 counted as
/// zero, computed the slow way.
fn reference_checksum(data: &[u8]) -> u16 {
    let mut sum: u64 = 0;
    let mut i = 0;
    while i < data.len() {
        let high = data[i] as u64;
        let low = if i + 1 < data.len() { data[i + 1] as u64 } else { 0 };
        if i != 2 {
            sum += high * 256 + low;
        }
        i += 2;
    }
    while sum > 0xffff {
        sum = (sum >> 16) + (sum & 0xffff);
    }
    !(sum as u16)
}

#[test]
fn constants_describe_a_64_byte_message() {
    assert_eq!(DEFAULT_DATA_SIZE, 56);
    assert_eq!(DEFAULT_HEADER_SIZE, 8);
    assert_eq!(DEFAULT_BUFFER_SIZE, 1024);
    assert_eq!(ECHO_REQUEST, 8);
    assert_eq!(ECHO_REPLY, 0);
}

#[test]
fn request_with_sequence_number_one_in_a_zeroed_buffer() {
    let mut buffer = vec![0u8; 64];
    let request = create_echo_request(&mut buffer, 1);
    assert_eq!(
        request,
        Ok(EchoRequest { message_type: 8, checksum: 0xf7fe, sequence_number: 1, payload_size: 56 })
    );
    let mut expected = vec![0u8; 64];
    expected[0] = 8;
    expected[2] = 0xf7;
    expected[3] = 0xfe;
    expected[7] = 1;
    assert_eq!(buffer, expected);
}

#[test]
fn request_sequence_number_is_big_endian() {
    let mut buffer = vec![0u8; 64];
    let request = create_echo_request(&mut buffer, 0x1234).unwrap();
    assert_eq!(request.sequence_number, 0x1234);
    assert_eq!(buffer[6], 0x12);
    assert_eq!(buffer[7], 0x34);
    // 0x0800 + 0x1234 = 0x1a34, complemented
    assert_eq!(request.checksum, 0xe5cb);
    assert_eq!(buffer[2], 0xe5);
    assert_eq!(buffer[3], 0xcb);
}

#[test]
fn request_checksum_folds_carries() {
    let mut buffer = vec![0xffu8; 64];
    let request = create_echo_request(&mut buffer, 0xffff).unwrap();
    // 0x08ff + 30 * 0xffff = 0x1e08e1, folded to 0x08ff
    assert_eq!(request.checksum, 0xf700);
    assert_eq!(&buffer[..8], &[8, 0xff, 0xf7, 0x00, 0xff, 0xff, 0xff, 0xff]);
    assert!(buffer[8..].iter().all(|byte| *byte == 0xff));
}

#[test]
fn request_checksum_counts_an_odd_last_byte_as_a_high_byte() {
    let mut buffer = vec![0u8, 0, 0, 0, 0, 0, 0, 0, 1];
    let request = create_echo_request(&mut buffer, 2).unwrap();
    // 0x0800 + 0x0002 + 0x0100 = 0x0902
    assert_eq!(request.checksum, 0xf6fd);
    assert_eq!(request.payload_size, 1);
    assert_eq!(buffer, vec![8, 0, 0xf6, 0xfd, 0, 0, 0, 2, 1]);
}

#[test]
fn request_ignores_a_stale_checksum_field() {
    let mut clean = vec![0u8; 64];
    let mut stale = vec![0u8; 64];
    stale[2] = 0xab;
    stale[3] = 0xcd;
    let first = create_echo_request(&mut clean, 9).unwrap();
    let second = create_echo_request(&mut stale, 9).unwrap();
    assert_eq!(first, second);
    assert_eq!(clean, stale);
}

#[test]
fn request_keeps_code_identifier_and_payload() {
    let mut buffer: Vec<u8> = (0..64).map(|i| (i * 3 + 1) as u8).collect();
    let before = buffer.clone();
    let request = create_echo_request(&mut buffer, 0x0a0b).unwrap();
    assert_eq!(buffer[1], before[1]);
    assert_eq!(&buffer[4..6], &before[4..6]);
    assert_eq!(&buffer[8..], &before[8..]);
    assert_eq!(buffer[0], 8);
    assert_eq!(&buffer[6..8], &[0x0a, 0x0b]);
    assert_eq!(request.checksum, reference_checksum(&buffer));
    assert_eq!(request.checksum, u16::from_be_bytes([buffer[2], buffer[3]]));
}

#[test]
fn request_checksum_is_self_consistent_for_every_sequence_number() {
    let mut buffer: Vec<u8> = (0..64).map(|i| (i * 7) as u8).collect();
    for sequence_number in 0..=u16::MAX {
        let request = create_echo_request(&mut buffer, sequence_number).unwrap();
        let stored = u16::from_be_bytes([buffer[2], buffer[3]]);
        assert_eq!(stored, request.checksum);
        assert_eq!(stored, reference_checksum(&buffer));
        let mut zeroed = buffer.clone();
        zeroed[2] = 0;
        zeroed[3] = 0;
        assert_eq!(stored, reference_checksum(&zeroed));
    }
}

#[test]
fn request_checksum_matches_the_reference_for_every_length() {
    for length in 8..200usize {
        let mut buffer: Vec<u8> = (0..length).map(|i| (i * 31 + length) as u8).collect();
        let request = create_echo_request(&mut buffer, length as u16).unwrap();
        assert_eq!(request.checksum, reference_checksum(&buffer));
        assert_eq!(request.payload_size, length - 8);
    }
}

#[test]
fn request_is_what_the_packet_library_builds() {
    let mut ours: Vec<u8> = (0..64).map(|i| (i + 100) as u8).collect();
    let mut theirs = ours.clone();
    create_echo_request(&mut ours, 77).unwrap();
    {
        let mut packet = MutableEchoRequestPacket::new(&mut theirs).unwrap();
        packet.set_sequence_number(77);
        packet.set_icmp_type(IcmpTypes::EchoRequest);
        let sum = pnet::packet::util::checksum(packet.packet(), 1);
        packet.set_checksum(sum);
    }
    assert_eq!(ours, theirs);
}

#[test]
fn request_of_the_longest_buffer() {
    let mut buffer = vec![0xffu8; 131072];
    let request = create_echo_request(&mut buffer, 0xffff).unwrap();
    assert_eq!(request.checksum, reference_checksum(&buffer));
    assert_eq!(request.payload_size, 131064);
}

#[test]
fn request_of_exactly_the_header() {
    let mut buffer = vec![0u8; 8];
    let request = create_echo_request(&mut buffer, 5);
    assert_eq!(
        request,
        Ok(EchoRequest { message_type: 8, checksum: 0xf7fa, sequence_number: 5, payload_size: 0 })
    );
    assert_eq!(buffer, vec![8, 0, 0xf7, 0xfa, 0, 0, 0, 5]);
}

#[test]
fn short_buffers_are_refused_and_left_alone() {
    for length in 0..8usize {
        let mut buffer: Vec<u8> = (0..length).map(|i| (i + 1) as u8).collect();
        let before = buffer.clone();
        assert_eq!(create_echo_request(&mut buffer, 1), Err(PingError::BufferTooSmall));
        assert_eq!(buffer, before);
    }
}

#[test]
fn reply_fields_are_read_from_the_header() {
    let buffer = [0u8, 0, 0xff, 0xff, 0, 0, 0x01, 0x02, 10, 20, 30];
    let reply = parse_echo_reply(&buffer).unwrap();
    assert_eq!(reply.message_type, ECHO_REPLY);
    assert_eq!(reply.sequence_number, 0x0102);
    assert_eq!(reply.payload, &[10, 20, 30]);
}

#[test]
fn reply_of_exactly_the_header_has_no_payload() {
    let buffer = [0u8, 0, 0, 0, 0, 0, 0xab, 0xcd];
    let reply = parse_echo_reply(&buffer).unwrap();
    assert_eq!(reply.sequence_number, 0xabcd);
    assert!(reply.payload.is_empty());
}

#[test]
fn reply_type_is_not_validated() {
    let buffer = [3u8, 1, 0, 0, 0, 0, 0, 4];
    let reply = parse_echo_reply(&buffer).unwrap();
    assert_eq!(reply.message_type, 3);
    assert_eq!(reply.sequence_number, 4);
}

#[test]
fn malformed_reply_is_invalid() {
    for length in 0..8usize {
        let buffer = vec![0u8; length];
        assert_eq!(parse_echo_reply(&buffer).err(), Some(PingError::InvalidEchoReply));
    }
}

#[test]
fn an_echoed_request_parses_with_its_sequence_number() {
    let mut buffer = vec![0u8; 64];
    create_echo_request(&mut buffer, 321).unwrap();
    let reply = parse_echo_reply(&buffer).unwrap();
    assert_eq!(reply.sequence_number, 321);
    assert_eq!(reply.message_type, ECHO_REQUEST);
    assert_eq!(reply.payload, &[0u8; 56]);
}

#[test]
fn error_messages() {
    assert_eq!(
        PingError::BufferTooSmall.message(),
        "Buffer is less than mininum required packet size"
    );
    assert_eq!(PingError::InvalidEchoReply.message(), "Invalid ICMP Echo Reply");
    assert_eq!(PingError::InvalidDestination.message(), "Invalid destination address");
    assert_eq!(PingError::TransportOpenError.message(), "Could not open the transport channel");
    assert_eq!(PingError::TransmissionError.message(), "Could not send the ICMP Echo Request");
    assert_eq!(PingError::ReceiveError.message(), "Could not receive an ICMP packet");
}
