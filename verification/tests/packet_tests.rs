use be_rcon::packet::create_command_packet;
use be_rcon::packet::create_login_packet;
use be_rcon::packet::create_server_message_ack_packet;
use be_rcon::packet::seal;
use be_rcon::packet::store_checksum;
use be_rcon::packet::HEADER_LEN;
use be_rcon::packet::MARKER;
use be_rcon::packet::SIGNATURE_FIRST;
use be_rcon::packet::SIGNATURE_SECOND;
use be_rcon::packet::TYPE_COMMAND;
use be_rcon::packet::TYPE_LOGIN;
use be_rcon::packet::TYPE_SERVER_MESSAGE;

fn stored_checksum(packet: &[u8]) -> u32 {
    u32::from_le_bytes([packet[2], packet[3], packet[4], packet[5]])
}

fn text_of_length(length: usize) -> String {
    let mut text = String::new();
    for i in 0..length {
        text.push((b'a' + (i % 26) as u8) as char);
    }
    text
}

#[test]
fn wire_constants() {
    assert_eq!(SIGNATURE_FIRST, 0x42);
    assert_eq!(SIGNATURE_SECOND, 0x45);
    assert_eq!(MARKER, 0xFF);
    assert_eq!(TYPE_LOGIN, 0x00);
    assert_eq!(TYPE_COMMAND, 0x01);
    assert_eq!(TYPE_SERVER_MESSAGE, 0x02);
    assert_eq!(HEADER_LEN, 6);
}

#[test]
fn login_packet_for_secret() {
    let packet = create_login_packet("secret");
    let expected: Vec<u8> = vec![
        0x42, 0x45, 0xC9, 0x90, 0x09, 0xAE, 0xFF, 0x00, 0x73, 0x65, 0x63, 0x72, 0x65, 0x74,
    ];
    assert_eq!(packet, expected);
}

#[test]
fn login_packet_checksum_covers_marker_type_and_password() {
    let packet = create_login_packet("secret");
    let body: Vec<u8> = vec![0xFF, 0x00, b's', b'e', b'c', b'r', b'e', b't'];
    assert_eq!(&packet[..2], &[0x42, 0x45]);
    assert_eq!(stored_checksum(&packet), crc::crc32::checksum_ieee(&body));
    assert_eq!(&packet[6..], &body[..]);
}

#[test]
fn login_packet_for_empty_password() {
    let packet = create_login_packet("");
    let expected: Vec<u8> = vec![0x42, 0x45, 0x8D, 0xEF, 0xFD, 0xD2, 0xFF, 0x00];
    assert_eq!(packet, expected);
}

#[test]
fn keep_alive_packet_for_sequence_five() {
    let packet = create_command_packet(5, "");
    let expected: Vec<u8> = vec![0x42, 0x45, 0x31, 0x28, 0xA8, 0x28, 0xFF, 0x01, 0x05];
    assert_eq!(packet, expected);
    assert_eq!(stored_checksum(&packet), crc::crc32::checksum_ieee(&[0xFF, 0x01, 0x05]));
}

#[test]
fn command_packet_for_players() {
    let packet = create_command_packet(0, "players");
    let expected: Vec<u8> = vec![
        0x42, 0x45, 0xF9, 0x37, 0x94, 0xAE, 0xFF, 0x01, 0x00, 0x70, 0x6C, 0x61, 0x79, 0x65, 0x72,
        0x73,
    ];
    assert_eq!(packet, expected);
}

#[test]
fn command_packet_carries_utf8_bytes() {
    let packet = create_command_packet(255, "say -1 h\u{e9}llo");
    let expected: Vec<u8> = vec![
        0x42, 0x45, 0xAE, 0x32, 0xDF, 0xC3, 0xFF, 0x01, 0xFF, 0x73, 0x61, 0x79, 0x20, 0x2D, 0x31,
        0x20, 0x68, 0xC3, 0xA9, 0x6C, 0x6C, 0x6F,
    ];
    assert_eq!(packet, expected);
}

#[test]
fn ack_packet_for_sequence_zero() {
    let packet = create_server_message_ack_packet(0);
    let expected: Vec<u8> = vec![0x42, 0x45, 0x7D, 0x8F, 0xEF, 0x73, 0xFF, 0x02, 0x00];
    assert_eq!(packet, expected);
}

#[test]
fn ack_packet_for_sequence_seven() {
    let packet = create_server_message_ack_packet(7);
    let expected: Vec<u8> = vec![0x42, 0x45, 0xDE, 0x1A, 0x8B, 0xED, 0xFF, 0x02, 0x07];
    assert_eq!(packet, expected);
}

#[test]
fn ack_packet_has_no_payload_for_any_sequence() {
    for sequence in 0..=255u8 {
        let packet = create_server_message_ack_packet(sequence);
        assert_eq!(packet.len(), 9);
        assert_eq!(&packet[6..], &[0xFF, 0x02, sequence]);
        assert_eq!(stored_checksum(&packet), crc::crc32::checksum_ieee(&packet[6..]));
    }
}

#[test]
fn encoding_is_deterministic() {
    assert_eq!(create_login_packet("secret"), create_login_packet("secret"));
    assert_eq!(create_command_packet(9, "say hello"), create_command_packet(9, "say hello"));
    assert_eq!(create_server_message_ack_packet(9), create_server_message_ack_packet(9));
    assert_ne!(create_login_packet("secret"), create_login_packet("Secret"));
    assert_ne!(create_command_packet(9, "say hello"), create_command_packet(10, "say hello"));
    assert_ne!(create_server_message_ack_packet(9), create_server_message_ack_packet(10));
}

#[test]
fn login_checksum_matches_for_payload_lengths_up_to_1200() {
    for length in 0..=1200usize {
        let password = text_of_length(length);
        let packet = create_login_packet(&password);
        assert_eq!(packet.len(), 8 + length);
        assert_eq!(&packet[..2], &[0x42, 0x45]);
        assert_eq!(&packet[6..8], &[0xFF, 0x00]);
        assert_eq!(&packet[8..], password.as_bytes());
        assert_eq!(stored_checksum(&packet), crc::crc32::checksum_ieee(&packet[6..]));
        assert_eq!(packet, create_login_packet(&password));
    }
}

#[test]
fn command_checksum_matches_for_payload_lengths_up_to_1200() {
    for length in 0..=1200usize {
        let command = text_of_length(length);
        let sequence = (length % 256) as u8;
        let packet = create_command_packet(sequence, &command);
        assert_eq!(packet.len(), 9 + length);
        assert_eq!(&packet[..2], &[0x42, 0x45]);
        assert_eq!(&packet[6..9], &[0xFF, 0x01, sequence]);
        assert_eq!(&packet[9..], command.as_bytes());
        assert_eq!(stored_checksum(&packet), crc::crc32::checksum_ieee(&packet[6..]));
        assert_eq!(packet, create_command_packet(sequence, &command));
    }
}

#[test]
fn store_checksum_writes_least_significant_byte_first() {
    let mut packet: Vec<u8> = vec![0x42, 0x45, 0x00, 0x00, 0x00, 0x00, 0xFF, 0x02, 0x07];
    store_checksum(&mut packet, 0x1234_5678);
    assert_eq!(packet, vec![0x42, 0x45, 0x78, 0x56, 0x34, 0x12, 0xFF, 0x02, 0x07]);
}

#[test]
fn store_checksum_overwrites_an_earlier_checksum() {
    let mut packet: Vec<u8> = vec![0x01, 0x02, 0xAA, 0xBB, 0xCC, 0xDD];
    store_checksum(&mut packet, 0);
    assert_eq!(packet, vec![0x01, 0x02, 0x00, 0x00, 0x00, 0x00]);
    store_checksum(&mut packet, u32::MAX);
    assert_eq!(packet, vec![0x01, 0x02, 0xFF, 0xFF, 0xFF, 0xFF]);
    store_checksum(&mut packet, 0x0100_0000);
    assert_eq!(packet, vec![0x01, 0x02, 0x00, 0x00, 0x00, 0x01]);
}

#[test]
fn seal_stores_the_checksum_of_the_bytes_behind_the_header() {
    let mut packet: Vec<u8> = vec![0x42, 0x45, 0, 0, 0, 0, b'1', b'2', b'3', b'4', b'5', b'6', b'7', b'8', b'9'];
    seal(&mut packet);
    assert_eq!(
        packet,
        vec![0x42, 0x45, 0x26, 0x39, 0xF4, 0xCB, b'1', b'2', b'3', b'4', b'5', b'6', b'7', b'8', b'9']
    );
}

#[test]
fn seal_of_a_bare_header_stores_the_checksum_of_nothing() {
    let mut packet: Vec<u8> = vec![0x42, 0x45, 0x11, 0x22, 0x33, 0x44];
    seal(&mut packet);
    assert_eq!(packet, vec![0x42, 0x45, 0x00, 0x00, 0x00, 0x00]);
}

#[test]
fn seal_ignores_the_old_checksum_field() {
    let mut first: Vec<u8> = vec![0x42, 0x45, 0, 0, 0, 0, 0xFF, 0x01, 0x05];
    let mut second: Vec<u8> = vec![0x42, 0x45, 9, 9, 9, 9, 0xFF, 0x01, 0x05];
    seal(&mut first);
    seal(&mut second);
    assert_eq!(first, second);
    assert_eq!(first, create_command_packet(5, ""));
}
