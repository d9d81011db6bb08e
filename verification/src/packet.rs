//! The packet codec: writes an echo request into a buffer and reads an echo
//! reply out of one.
//!
//! ```text
//!  byte 0     byte 1     bytes 2..4   bytes 4..6   bytes 6..8        bytes 8..
//! +----------+----------+------------+------------+-----------------+---------
//! |   type   |   code   |  checksum  | identifier | sequence number | payload
//! +----------+----------+------------+------------+-----------------+---------
//! ```
//!
//! Fields of two bytes are big-endian.

use crate::checksum::{
    checksum, checksum_of_all, internet_checksum, lemma_checksum_ignores_skipped_word,
    lemma_skipping_is_zeroing, with_zero_word, MAX_CHECKSUM_LEN,
};
use crate::error::PingError;
use pnet::packet::icmp::echo_reply::EchoReplyPacket;
use pnet::packet::icmp::echo_request::MutableEchoRequestPacket;
use pnet::packet::icmp::IcmpTypes;
use vstd::prelude::*;
use vstd::slice::slice_subrange;

verus! {

/// Number of payload bytes in a probe.
pub const DEFAULT_DATA_SIZE: u8 = 56;

/// Number of bytes before the payload. No shorter buffer holds an echo
/// request or an echo reply.
pub const DEFAULT_HEADER_SIZE: u8 = 8;

/// Size of the buffer that receives replies.
pub const DEFAULT_BUFFER_SIZE: usize = 1024;

/// The type of an echo request.
pub const ECHO_REQUEST: u8 = 8;

/// The type of an echo reply.
pub const ECHO_REPLY: u8 = 0;

/// The word index of the checksum field.
pub const CHECKSUM_WORD: usize = 1;

/// The high byte of `value`.
pub open spec fn high_byte(value: u16) -> u8 {
    (value / 256) as u8
}

/// The low byte of `value`.
pub open spec fn low_byte(value: u16) -> u8 {
    (value % 256) as u8
}

/// The big-endian number that the bytes `high` and `low` spell.
pub open spec fn be_u16(high: u8, low: u8) -> u16 {
    (high * 256 + low) as u16
}

/// The type field of `packet`.
pub open spec fn type_field(packet: Seq<u8>) -> u8
    recommends
        packet.len() >= DEFAULT_HEADER_SIZE,
{
    packet[0]
}

/// The checksum field of `packet`.
pub open spec fn checksum_field(packet: Seq<u8>) -> u16
    recommends
        packet.len() >= DEFAULT_HEADER_SIZE,
{
    be_u16(packet[2], packet[3])
}

/// The sequence number field of `packet`.
pub open spec fn sequence_number_field(packet: Seq<u8>) -> u16
    recommends
        packet.len() >= DEFAULT_HEADER_SIZE,
{
    be_u16(packet[6], packet[7])
}

/// The bytes of `packet` after the header.
pub open spec fn payload_field(packet: Seq<u8>) -> Seq<u8>
    recommends
        packet.len() >= DEFAULT_HEADER_SIZE,
{
    packet.subrange(DEFAULT_HEADER_SIZE as int, packet.len() as int)
}

/// `packet` with `value` as its type.
pub open spec fn with_type(packet: Seq<u8>, value: u8) -> Seq<u8> {
    packet.update(0, value)
}

/// `packet` with `value` as its checksum.
pub open spec fn with_checksum(packet: Seq<u8>, value: u16) -> Seq<u8> {
    packet.update(2, high_byte(value)).update(3, low_byte(value))
}

/// `packet` with `value` as its sequence number.
pub open spec fn with_sequence_number(packet: Seq<u8>, value: u16) -> Seq<u8> {
    packet.update(6, high_byte(value)).update(7, low_byte(value))
}

/// `packet` with the type of an echo request and with `sequence_number`, the
/// checksum field as it was.
pub open spec fn with_request_fields(packet: Seq<u8>, sequence_number: u16) -> Seq<u8> {
    with_type(with_sequence_number(packet, sequence_number), ECHO_REQUEST)
}

/// The echo request that `create_echo_request` makes of `buffer`: the type
/// and the sequence number are set, then the checksum of the whole is
/// written into it. Code, identifier and payload stay as they were.
pub open spec fn encoded_echo_request(buffer: Seq<u8>, sequence_number: u16) -> Seq<u8> {
    let fields = with_request_fields(buffer, sequence_number);
    with_checksum(fields, internet_checksum(fields, CHECKSUM_WORD as int))
}

/// The checksum that `packet` carries is the checksum of `packet` with the
/// checksum field counted as zero.
pub open spec fn checksum_is_valid(packet: Seq<u8>) -> bool {
    checksum_field(packet) == internet_checksum(packet, CHECKSUM_WORD as int)
}

/// `packet` with a checksum field of zero.
pub open spec fn with_zero_checksum(packet: Seq<u8>) -> Seq<u8> {
    with_zero_word(packet, CHECKSUM_WORD as int)
}

/// What an encoded echo request holds, but for its payload, which stays in
/// the buffer.
#[derive(Clone, Copy, Debug, PartialEq, Eq, Structural)]
pub struct EchoRequest {
    /// The type field: that of an echo request.
    pub message_type: u8,
    /// The checksum that was written into the packet.
    pub checksum: u16,
    /// The sequence number of the probe.
    pub sequence_number: u16,
    /// The number of bytes after the header.
    pub payload_size: usize,
}

/// An echo reply as read from a receive buffer. It borrows its payload from
/// the buffer.
#[derive(Clone, Copy, Debug)]
pub struct EchoReply<'a> {
    /// The type field. Nothing holds it to be that of an echo reply.
    pub message_type: u8,
    /// The sequence number of the probe that the reply answers.
    pub sequence_number: u16,
    /// The bytes after the header.
    pub payload: &'a [u8],
}

/// A big-endian field of two bytes spells the value whose bytes were written.
pub proof fn lemma_be_u16_of_bytes(value: u16)
    ensures
        be_u16(high_byte(value), low_byte(value)) == value,
{
}

/// A packet of at least the header's length carries a valid checksum just
/// when the checksum over all of it, computed again with a checksum field of
/// zero, is the one it carries.
pub proof fn lemma_valid_checksum_is_reproduced(packet: Seq<u8>)
    requires
        packet.len() >= DEFAULT_HEADER_SIZE,
    ensures
        checksum_is_valid(packet) <==> checksum_field(packet) == checksum_of_all(
            with_zero_checksum(packet),
        ),
{
    lemma_skipping_is_zeroing(packet, CHECKSUM_WORD as int);
}

/// An encoded echo request has the length of the buffer it was made of, the
/// type of an echo request, the sequence number it was made with, a checksum
/// that is valid, and the payload that the buffer held.
pub proof fn lemma_encoded_echo_request(buffer: Seq<u8>, sequence_number: u16)
    requires
        buffer.len() >= DEFAULT_HEADER_SIZE,
    ensures
        encoded_echo_request(buffer, sequence_number).len() == buffer.len(),
        type_field(encoded_echo_request(buffer, sequence_number)) == ECHO_REQUEST,
        sequence_number_field(encoded_echo_request(buffer, sequence_number)) == sequence_number,
        checksum_is_valid(encoded_echo_request(buffer, sequence_number)),
        payload_field(encoded_echo_request(buffer, sequence_number)) == payload_field(buffer),
        forall|i: int|
            0 <= i < buffer.len() && i != 0 && i != 2 && i != 3 && i != 6 && i != 7
                ==> encoded_echo_request(buffer, sequence_number)[i] == buffer[i],
{
    let fields = with_request_fields(buffer, sequence_number);
    let sum = internet_checksum(fields, CHECKSUM_WORD as int);
    let encoded = encoded_echo_request(buffer, sequence_number);
    lemma_be_u16_of_bytes(sum);
    lemma_be_u16_of_bytes(sequence_number);
    lemma_checksum_ignores_skipped_word(fields, encoded, CHECKSUM_WORD as int);
    assert(payload_field(encoded) =~= payload_field(buffer));
}

/// Asks `MutableEchoRequestPacket::new` whether `buffer` can be looked at as
/// an echo request. It gives a packet for a buffer of 8 bytes or more and
/// none for a shorter one, and writes nothing.
#[verifier::external_body]
fn holds_echo_request(buffer: &mut [u8]) -> (fits: bool)
    ensures
        fits == (old(buffer)@.len() >= DEFAULT_HEADER_SIZE),
        final(buffer)@ == old(buffer)@,
{
    MutableEchoRequestPacket::new(buffer).is_some()
}

/// Has `set_sequence_number` of the `MutableEchoRequestPacket` on `buffer`
/// write `value` into bytes 6 and 7, big-endian.
#[verifier::external_body]
fn set_sequence_number(buffer: &mut [u8], value: u16)
    requires
        old(buffer)@.len() >= DEFAULT_HEADER_SIZE,
    ensures
        final(buffer)@ == with_sequence_number(old(buffer)@, value),
{
    if let Some(mut packet) = MutableEchoRequestPacket::new(buffer) {
        packet.set_sequence_number(value);
    }
}

/// Has `set_icmp_type` of the `MutableEchoRequestPacket` on `buffer` write
/// `IcmpTypes::EchoRequest`, which is 8, into byte 0.
#[verifier::external_body]
fn set_echo_request_type(buffer: &mut [u8])
    requires
        old(buffer)@.len() >= DEFAULT_HEADER_SIZE,
    ensures
        final(buffer)@ == with_type(old(buffer)@, ECHO_REQUEST),
{
    if let Some(mut packet) = MutableEchoRequestPacket::new(buffer) {
        packet.set_icmp_type(IcmpTypes::EchoRequest);
    }
}

/// Has `set_checksum` of the `MutableEchoRequestPacket` on `buffer` write
/// `value` into bytes 2 and 3, big-endian.
#[verifier::external_body]
fn set_checksum(buffer: &mut [u8], value: u16)
    requires
        old(buffer)@.len() >= DEFAULT_HEADER_SIZE,
    ensures
        final(buffer)@ == with_checksum(old(buffer)@, value),
{
    if let Some(mut packet) = MutableEchoRequestPacket::new(buffer) {
        packet.set_checksum(value);
    }
}

/// Has `EchoReplyPacket::new` look at `buffer` as an echo reply and reads
/// the type with `get_icmp_type` and the sequence number with
/// `get_sequence_number`. The first gives no packet for a buffer of less than
/// 8 bytes; the type is byte 0, the sequence number bytes 6 and 7,
/// big-endian.
#[verifier::external_body]
fn read_echo_reply(buffer: &[u8]) -> (fields: Option<(u8, u16)>)
    ensures
        fields == if buffer@.len() >= DEFAULT_HEADER_SIZE {
            Some((type_field(buffer@), sequence_number_field(buffer@)))
        } else {
            None
        },
{
    match EchoReplyPacket::new(buffer) {
        Some(packet) => Some((packet.get_icmp_type().0, packet.get_sequence_number())),
        None => None,
    }
}

/// Writes the echo request with `sequence_number` into `buffer`: sets the
/// type and the sequence number, then computes the checksum over the whole
/// buffer, the checksum field counted as zero, and writes it. A buffer
/// shorter than the header is refused and left as it was.
pub fn create_echo_request(buffer: &mut [u8], sequence_number: u16) -> (request: Result<
    EchoRequest,
    PingError,
>)
    requires
        old(buffer)@.len() <= MAX_CHECKSUM_LEN,
    ensures
        old(buffer)@.len() < DEFAULT_HEADER_SIZE ==> request == Err::<EchoRequest, PingError>(
            PingError::BufferTooSmall,
        ) && final(buffer)@ == old(buffer)@,
        old(buffer)@.len() >= DEFAULT_HEADER_SIZE ==> request == Ok::<EchoRequest, PingError>(
            (EchoRequest {
                message_type: ECHO_REQUEST,
                checksum: checksum_field(final(buffer)@),
                sequence_number,
                payload_size: (old(buffer)@.len() - DEFAULT_HEADER_SIZE) as usize,
            }),
        ) && final(buffer)@ == encoded_echo_request(old(buffer)@, sequence_number),
        request is Ok ==> type_field(final(buffer)@) == ECHO_REQUEST,
        request is Ok ==> sequence_number_field(final(buffer)@) == sequence_number,
        request is Ok ==> checksum_is_valid(final(buffer)@),
        request is Ok ==> checksum_field(final(buffer)@) == checksum_of_all(
            with_zero_checksum(final(buffer)@),
        ),
        request is Ok ==> payload_field(final(buffer)@) == payload_field(old(buffer)@),
{
    if !holds_echo_request(buffer) {
        return Err(PingError::BufferTooSmall);
    }
    set_sequence_number(buffer, sequence_number);
    set_echo_request_type(buffer);
    let sum = checksum(buffer, CHECKSUM_WORD);
    set_checksum(buffer, sum);
    proof {
        lemma_encoded_echo_request(old(buffer)@, sequence_number);
        lemma_valid_checksum_is_reproduced(buffer@);
    }
    Ok(
        EchoRequest {
            message_type: ECHO_REQUEST,
            checksum: sum,
            sequence_number,
            payload_size: buffer.len() - DEFAULT_HEADER_SIZE as usize,
        },
    )
}

/// Reads `buffer` as an echo reply. A buffer shorter than the header is no
/// echo reply; any other is read, whatever its type field holds.
pub fn parse_echo_reply<'a>(buffer: &'a [u8]) -> (reply: Result<EchoReply<'a>, PingError>)
    ensures
        buffer@.len() < DEFAULT_HEADER_SIZE ==> reply == Err::<EchoReply<'a>, PingError>(
            PingError::InvalidEchoReply,
        ),
        buffer@.len() >= DEFAULT_HEADER_SIZE ==> reply is Ok && ({
            let parsed = reply->Ok_0;
            &&& parsed.message_type == type_field(buffer@)
            &&& parsed.sequence_number == sequence_number_field(buffer@)
            &&& parsed.payload@ == payload_field(buffer@)
        }),
{
    match read_echo_reply(buffer) {
        Some((message_type, sequence_number)) => {
            let payload = slice_subrange(buffer, DEFAULT_HEADER_SIZE as usize, buffer.len());
            Ok(EchoReply { message_type, sequence_number, payload })
        },
        None => Err(PingError::InvalidEchoReply),
    }
}

} // verus!
