//! Builders for the three outbound packets.
//!
//! Every packet is the two signature bytes `0x42 0x45`, a CRC-32 checksum in
//! little-endian order, and a body. The body starts with the marker `0xFF` and
//! a type byte; the checksum covers the whole body and nothing else.

use vstd::prelude::*;
use vstd::string::StringSliceAdditionalSpecFns;

verus! {

/// First signature byte of a packet, the letter `B`.
pub const SIGNATURE_FIRST: u8 = 0x42;

/// Second signature byte of a packet, the letter `E`.
pub const SIGNATURE_SECOND: u8 = 0x45;

/// First byte of every body.
pub const MARKER: u8 = 0xFF;

/// Type byte of a login packet and of the server's answer to it.
pub const TYPE_LOGIN: u8 = 0x00;

/// Type byte of a command packet and of the server's answer to it.
pub const TYPE_COMMAND: u8 = 0x01;

/// Type byte of a server message and of its acknowledgement.
pub const TYPE_SERVER_MESSAGE: u8 = 0x02;

/// Number of bytes before the body: the signature and the checksum.
pub const HEADER_LEN: usize = 6;

/// The CRC-32/IEEE checksum of `data`, as `crc::crc32::checksum_ieee` computes it.
pub uninterp spec fn crc32_ieee(data: Seq<u8>) -> u32;

/// Calls `crc::crc32::checksum_ieee`. The result is taken to depend on the bytes
/// alone; which number it is for given bytes is not stated.
#[verifier::external_body]
fn checksum_ieee(data: &[u8]) -> (checksum: u32)
    ensures
        checksum == crc32_ieee(data@),
{
    crc::crc32::checksum_ieee(data)
}

/// The four bytes of `checksum`, least significant first.
pub open spec fn checksum_bytes(checksum: u32) -> Seq<u8> {
    seq![
        (checksum % 0x100) as u8,
        (checksum / 0x100 % 0x100) as u8,
        (checksum / 0x1_0000 % 0x100) as u8,
        (checksum / 0x100_0000) as u8,
    ]
}

/// The number that the checksum field of `packet` holds.
pub open spec fn stored_checksum(packet: Seq<u8>) -> int
    recommends
        packet.len() >= HEADER_LEN,
{
    packet[2] + 0x100 * packet[3] + 0x1_0000 * packet[4] + 0x100_0000 * packet[5]
}

/// `packet` with its checksum field replaced by `checksum`.
pub open spec fn with_checksum(packet: Seq<u8>, checksum: u32) -> Seq<u8>
    recommends
        packet.len() >= HEADER_LEN,
{
    packet.take(2) + checksum_bytes(checksum) + packet.skip(6)
}

/// The packet that carries `body`: signature, checksum of the body, body.
pub open spec fn sealed(body: Seq<u8>) -> Seq<u8> {
    seq![SIGNATURE_FIRST, SIGNATURE_SECOND] + checksum_bytes(crc32_ieee(body)) + body
}

/// Body of a login packet: marker, type, the password's bytes.
pub open spec fn login_body(password: Seq<u8>) -> Seq<u8> {
    seq![MARKER, TYPE_LOGIN] + password
}

/// Body of a command packet: marker, type, sequence byte, the command's bytes.
pub open spec fn command_body(sequence: u8, command: Seq<u8>) -> Seq<u8> {
    seq![MARKER, TYPE_COMMAND, sequence] + command
}

/// Body of the acknowledgement of a server message: marker, type, sequence byte.
pub open spec fn ack_body(sequence: u8) -> Seq<u8> {
    seq![MARKER, TYPE_SERVER_MESSAGE, sequence]
}

/// The login packet for a password given by its UTF-8 bytes.
pub open spec fn login_packet(password: Seq<u8>) -> Seq<u8> {
    sealed(login_body(password))
}

/// The command packet for a sequence byte and a command given by its UTF-8 bytes.
pub open spec fn command_packet(sequence: u8, command: Seq<u8>) -> Seq<u8> {
    sealed(command_body(sequence, command))
}

/// The packet that acknowledges the server message numbered `sequence`.
pub open spec fn ack_packet(sequence: u8) -> Seq<u8> {
    sealed(ack_body(sequence))
}

/// Writes `checksum` into the checksum field of `packet`, least significant
/// byte first, and leaves every other byte as it was.
pub fn store_checksum(packet: &mut Vec<u8>, checksum: u32)
    requires
        old(packet)@.len() >= HEADER_LEN,
    ensures
        final(packet)@ == with_checksum(old(packet)@, checksum),
{
    packet.set(2, (checksum % 0x100) as u8);
    packet.set(3, (checksum / 0x100 % 0x100) as u8);
    packet.set(4, (checksum / 0x1_0000 % 0x100) as u8);
    packet.set(5, (checksum / 0x100_0000) as u8);
}

/// Computes the checksum of everything behind the header of `packet` and
/// stores it in the checksum field.
pub fn seal(packet: &mut Vec<u8>)
    requires
        old(packet)@.len() >= HEADER_LEN,
    ensures
        final(packet)@ == with_checksum(old(packet)@, crc32_ieee(old(packet)@.skip(6))),
{
    let checksum = checksum_ieee(vstd::slice::slice_subrange(packet.as_slice(), 6, packet.len()));
    store_checksum(packet, checksum);
}

/// The four bytes of a checksum, read back as a number, are the checksum.
pub proof fn law_checksum_bytes_round_trip(checksum: u32)
    ensures
        checksum_bytes(checksum).len() == 4,
        checksum_bytes(checksum)[0] + 0x100 * checksum_bytes(checksum)[1] + 0x1_0000
            * checksum_bytes(checksum)[2] + 0x100_0000 * checksum_bytes(checksum)[3] == checksum,
{
}

/// A sealed packet starts with the signature, is six bytes longer than its
/// body, ends with its body, and holds in its checksum field the CRC-32 of
/// every byte from offset 6 on.
pub proof fn law_checksum_covers_body(body: Seq<u8>)
    ensures
        sealed(body).len() == HEADER_LEN + body.len(),
        sealed(body)[0] == SIGNATURE_FIRST,
        sealed(body)[1] == SIGNATURE_SECOND,
        sealed(body).skip(HEADER_LEN as int) == body,
        stored_checksum(sealed(body)) == crc32_ieee(sealed(body).skip(HEADER_LEN as int)),
{
    law_checksum_bytes_round_trip(crc32_ieee(body));
    assert(sealed(body).skip(HEADER_LEN as int) =~= body);
}

/// Each of the three kinds of packet holds in its checksum field the CRC-32 of
/// every byte from offset 6 on, and those bytes are its body: for a login the
/// marker, the type and the password; for a command the marker, the type, the
/// sequence byte and the command; for an acknowledgement the marker, the type
/// and the sequence byte.
pub proof fn law_packets_carry_their_checksum(password: Seq<u8>, sequence: u8, command: Seq<u8>)
    ensures
        login_packet(password).skip(HEADER_LEN as int) == login_body(password),
        stored_checksum(login_packet(password)) == crc32_ieee(
            login_packet(password).skip(HEADER_LEN as int),
        ),
        command_packet(sequence, command).skip(HEADER_LEN as int) == command_body(
            sequence,
            command,
        ),
        stored_checksum(command_packet(sequence, command)) == crc32_ieee(
            command_packet(sequence, command).skip(HEADER_LEN as int),
        ),
        ack_packet(sequence).skip(HEADER_LEN as int) == ack_body(sequence),
        stored_checksum(ack_packet(sequence)) == crc32_ieee(
            ack_packet(sequence).skip(HEADER_LEN as int),
        ),
{
    law_checksum_covers_body(login_body(password));
    law_checksum_covers_body(command_body(sequence, command));
    law_checksum_covers_body(ack_body(sequence));
}

/// Sealing a packet that starts with the signature gives the packet that
/// carries everything behind its header.
proof fn lemma_seal_signed(unsealed: Seq<u8>)
    requires
        unsealed.len() >= HEADER_LEN,
        unsealed[0] == SIGNATURE_FIRST,
        unsealed[1] == SIGNATURE_SECOND,
    ensures
        with_checksum(unsealed, crc32_ieee(unsealed.skip(6))) == sealed(unsealed.skip(6)),
{
    assert(unsealed.take(2) =~= seq![SIGNATURE_FIRST, SIGNATURE_SECOND]);
}

/// Builds the login packet for `password`.
pub fn create_login_packet(password: &str) -> (packet: Vec<u8>)
    ensures
        packet@ == login_packet(password.spec_bytes()),
        stored_checksum(packet@) == crc32_ieee(packet@.skip(HEADER_LEN as int)),
{
    let mut packet: Vec<u8> = vec![0x42, 0x45, 0x00, 0x00, 0x00, 0x00, 0xFF, 0x00];
    packet.extend_from_slice(password.as_bytes());
    proof {
        lemma_seal_signed(packet@);
        assert(packet@.skip(6) =~= login_body(password.spec_bytes()));
        law_checksum_covers_body(login_body(password.spec_bytes()));
    }
    seal(&mut packet);
    packet
}

/// Builds the command packet for `command` under the sequence byte
/// `sequence`. An empty command is allowed; it serves as the keep-alive.
pub fn create_command_packet(sequence: u8, command: &str) -> (packet: Vec<u8>)
    ensures
        packet@ == command_packet(sequence, command.spec_bytes()),
        stored_checksum(packet@) == crc32_ieee(packet@.skip(HEADER_LEN as int)),
{
    let mut packet: Vec<u8> = vec![0x42, 0x45, 0x00, 0x00, 0x00, 0x00, 0xFF, 0x01, sequence];
    packet.extend_from_slice(command.as_bytes());
    proof {
        lemma_seal_signed(packet@);
        assert(packet@.skip(6) =~= command_body(sequence, command.spec_bytes()));
        law_checksum_covers_body(command_body(sequence, command.spec_bytes()));
    }
    seal(&mut packet);
    packet
}

/// Builds the packet that acknowledges the server message numbered `sequence`.
pub fn create_server_message_ack_packet(sequence: u8) -> (packet: Vec<u8>)
    ensures
        packet@ == ack_packet(sequence),
        stored_checksum(packet@) == crc32_ieee(packet@.skip(HEADER_LEN as int)),
{
    let mut packet: Vec<u8> = vec![0x42, 0x45, 0x00, 0x00, 0x00, 0x00, 0xFF, 0x02, sequence];
    proof {
        lemma_seal_signed(packet@);
        assert(packet@.skip(6) =~= ack_body(sequence));
        law_checksum_covers_body(ack_body(sequence));
    }
    seal(&mut packet);
    packet
}

} // verus!
