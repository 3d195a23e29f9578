//! The wire format, byte for byte.
//!
//! A frame is a header of `HEADER_SIZE` bytes followed by the body, and
//! nothing else: no length prefix, tag or padding surrounds the body.
//!
//! | offset | bytes | content                                        |
//! |--------|-------|------------------------------------------------|
//! | 0      | 1     | ordinal of the message type                    |
//! | 1      | 4     | body length, unsigned, little-endian           |
//! | 5      | 35    | reserved: written as zero, ignored when read   |
//! | 40     | n     | body, `n` being the length declared at offset 1|

use vstd::prelude::*;
use vstd::slice::{slice_subrange, slice_to_vec};
use crate::error::NetError;
use crate::message::{Message, MessageHeader, MessageType, MessageView, MESSAGE_TYPE_COUNT};

verus! {

/// The length of an encoded header.
pub const HEADER_SIZE: usize = 40;

/// The length of the part of the header that carries information: the type
/// byte and the four bytes of the size.
pub const HEADER_FIELDS_SIZE: usize = 5;

/// The four bytes of `value`, least significant first.
pub open spec fn le_bytes(value: u32) -> Seq<u8> {
    seq![
        (value % 256) as u8,
        (value / 256 % 256) as u8,
        (value / 65536 % 256) as u8,
        (value / 16777216) as u8,
    ]
}

/// The number whose four bytes, least significant first, are `bytes`.
pub open spec fn le_value(bytes: Seq<u8>) -> u32
    recommends
        bytes.len() == 4,
{
    (bytes[0] + 256 * bytes[1] + 65536 * bytes[2] + 16777216 * bytes[3]) as u32
}

/// The reserved tail of a header: zeros up to `HEADER_SIZE`.
pub open spec fn reserved_bytes() -> Seq<u8> {
    Seq::new((HEADER_SIZE - HEADER_FIELDS_SIZE) as nat, |i: int| 0u8)
}

/// The bytes of a header.
pub open spec fn spec_encode_header(header: MessageHeader) -> Seq<u8> {
    seq![header.message_type.spec_ordinal()] + le_bytes(header.message_size) + reserved_bytes()
}

/// The bytes of a frame: the header, then the body as it is.
pub open spec fn spec_encode(message: MessageView) -> Seq<u8> {
    spec_encode_header(message.header) + message.body
}

/// The header that the first `HEADER_SIZE` bytes of `bytes` hold.
pub open spec fn spec_decode_header(bytes: Seq<u8>) -> Result<MessageHeader, NetError> {
    if bytes.len() < HEADER_SIZE {
        Err(NetError::MalformedHeader)
    } else {
        match MessageType::spec_from_ordinal(bytes[0]) {
            None => Err(NetError::MalformedHeader),
            Some(message_type) => Ok(
                MessageHeader { message_type, message_size: le_value(bytes.subrange(1, 5)) },
            ),
        }
    }
}

/// The message that `header` and the bytes after it make. Bytes beyond the
/// declared size belong to whatever follows the frame and are left aside.
pub open spec fn spec_decode_body(bytes: Seq<u8>, header: MessageHeader, max_body_size: u32) -> Result<
    MessageView,
    NetError,
> {
    if bytes.len() < header.message_size {
        Err(NetError::TruncatedBody)
    } else if header.message_size > max_body_size {
        Err(NetError::OversizedBody)
    } else {
        Ok(MessageView { header, body: bytes.subrange(0, header.message_size as int) })
    }
}

/// The message that a frame at the start of `bytes` holds.
pub open spec fn spec_decode(bytes: Seq<u8>, max_body_size: u32) -> Result<MessageView, NetError> {
    match spec_decode_header(bytes) {
        Err(e) => Err(e),
        Ok(header) => spec_decode_body(
            bytes.subrange(HEADER_SIZE as int, bytes.len() as int),
            header,
            max_body_size,
        ),
    }
}

/// What a decoder returned, with the message taken as a mathematical value.
pub open spec fn decoded_view(result: Result<Message, NetError>) -> Result<MessageView, NetError> {
    match result {
        Ok(message) => Ok(message@),
        Err(e) => Err(e),
    }
}

/// Splitting a number below 2^32 into four digits to the base 256 and
/// putting them together again gives the number back.
proof fn lemma_split_join(n: int)
    requires
        0 <= n < 0x1_0000_0000,
    ensures
        0 <= n / 16777216 < 256,
        n == n % 256 + 256 * (n / 256 % 256) + 65536 * (n / 65536 % 256) + 16777216 * (n
            / 16777216),
{
    let a = n / 256;
    let b = a / 256;
    let c = b / 256;
    assert(n == 256 * a + n % 256);
    assert(a == 256 * b + a % 256);
    assert(b == 256 * c + b % 256);
    assert(b == n / 65536);
    assert(c == n / 16777216);
}

/// Reading the four bytes of a number gives the number back.
pub proof fn lemma_le_inverse(value: u32)
    ensures
        le_bytes(value).len() == 4,
        le_value(le_bytes(value)) == value,
{
    lemma_split_join(value as int);
}

/// An encoded header is `HEADER_SIZE` bytes long, and decoding it gives the
/// header back.
pub proof fn lemma_header_round_trip(header: MessageHeader)
    ensures
        spec_encode_header(header).len() == HEADER_SIZE,
        spec_decode_header(spec_encode_header(header)) == Ok::<MessageHeader, NetError>(header),
{
    let bytes = spec_encode_header(header);
    MessageType::lemma_ordinals(bytes[0]);
    lemma_le_inverse(header.message_size);
    assert(bytes.subrange(1, 5) =~= le_bytes(header.message_size));
}

/// A frame carries no envelope: it is exactly `HEADER_SIZE` bytes longer
/// than the body of its message.
pub proof fn lemma_encoded_len(message: MessageView)
    ensures
        spec_encode(message).len() == HEADER_SIZE + message.body.len(),
{
    lemma_header_round_trip(message.header);
}

/// Decoding undoes encoding: a message whose body is as long as its header
/// declares, and no longer than the decoder admits, comes back unchanged.
pub proof fn lemma_round_trip(message: MessageView, max_body_size: u32)
    requires
        message.is_consistent(),
        message.header.message_size <= max_body_size,
    ensures
        spec_decode(spec_encode(message), max_body_size) == Ok::<MessageView, NetError>(message),
{
    let header_bytes = spec_encode_header(message.header);
    let frame = spec_encode(message);
    lemma_header_round_trip(message.header);
    assert(frame.subrange(1, 5) =~= header_bytes.subrange(1, 5));
    assert(frame[0] == header_bytes[0]);
    let rest = frame.subrange(HEADER_SIZE as int, frame.len() as int);
    assert(rest =~= message.body);
    assert(rest.subrange(0, message.header.message_size as int) =~= message.body);
}

/// A frame that ends before its declared body does is reported as
/// truncated, whatever maximum the decoder admits.
pub proof fn lemma_truncation_detected(bytes: Seq<u8>, max_body_size: u32)
    requires
        spec_decode_header(bytes) is Ok,
        bytes.len() < HEADER_SIZE + spec_decode_header(bytes)->Ok_0.message_size,
    ensures
        spec_decode(bytes, max_body_size) == Err::<MessageView, NetError>(NetError::TruncatedBody),
{
}

/// A type byte that is the ordinal of no message type makes the header
/// malformed.
pub proof fn lemma_unknown_type_rejected(bytes: Seq<u8>, max_body_size: u32)
    requires
        bytes.len() >= 1,
        bytes[0] >= MESSAGE_TYPE_COUNT,
    ensures
        spec_decode_header(bytes) == Err::<MessageHeader, NetError>(NetError::MalformedHeader),
        spec_decode(bytes, max_body_size) == Err::<MessageView, NetError>(
            NetError::MalformedHeader,
        ),
{
    MessageType::lemma_ordinals(bytes[0]);
}

/// The error that bincode reports. Nothing is known of what is inside.
#[verifier::external_type_specification]
#[verifier::external_body]
pub struct ExBincodeErrorKind(bincode::ErrorKind);

/// `bincode::serialize`, applied to the pair of the two header fields.
///
/// Trusted: with the fixed-width, little-endian configuration of that
/// function a `u8` is written as itself and a `u32` as its four bytes,
/// least significant first, and a pair is written as its two halves with
/// nothing between or around them. No size limit is set and the bytes go to
/// a vector, so the call does not fail.
#[verifier::external_body]
fn serialize_fields(ordinal: u8, size: u32) -> (packed: Result<Vec<u8>, Box<bincode::ErrorKind>>)
    ensures
        packed is Ok,
        packed->Ok_0@ == seq![ordinal] + le_bytes(size),
{
    bincode::serialize(&(ordinal, size))
}

/// `bincode::deserialize`, asked for a pair of a `u8` and a `u32`.
///
/// Trusted: the call reads one byte, then four bytes as a little-endian
/// number, and leaves whatever follows unread. It fails when, and only
/// when, fewer than five bytes are there.
#[verifier::external_body]
fn deserialize_fields(bytes: &[u8]) -> (fields: Result<(u8, u32), Box<bincode::ErrorKind>>)
    ensures
        fields is Ok <==> bytes@.len() >= HEADER_FIELDS_SIZE,
        fields matches Ok(pair) ==> pair.0 == bytes@[0] && pair.1 == le_value(
            bytes@.subrange(1, 5),
        ),
{
    bincode::deserialize::<(u8, u32)>(bytes)
}

/// Encodes a header into its `HEADER_SIZE` bytes.
pub fn encode_header(header: &MessageHeader) -> (bytes: Vec<u8>)
    ensures
        bytes@ == spec_encode_header(*header),
        bytes@.len() == HEADER_SIZE,
{
    let packed = serialize_fields(header.message_type.ordinal(), header.message_size);
    let mut bytes = packed.unwrap();
    let ghost fields = bytes@;
    bytes.resize(HEADER_SIZE, 0u8);
    proof {
        assert(bytes@.subrange(0, HEADER_FIELDS_SIZE as int) == fields);
        assert(bytes@ =~= spec_encode_header(*header));
    }
    bytes
}

/// Encodes a message into one frame: its header, then its body, with no
/// further envelope.
pub fn encode(message: &Message) -> (bytes: Vec<u8>)
    ensures
        bytes@ == spec_encode(message@),
        bytes@.len() == HEADER_SIZE + message.body@.len(),
{
    let mut bytes = encode_header(&message.header);
    bytes.extend_from_slice(message.body.as_slice());
    proof {
        assert(bytes@ =~= spec_encode(message@));
    }
    bytes
}

/// Decodes the header at the start of `bytes`.
///
/// Fails with `MalformedHeader` when fewer than `HEADER_SIZE` bytes are
/// there, or when the type byte is the ordinal of no message type; on every
/// other input it succeeds. The reserved bytes are not looked at.
pub fn decode_header(bytes: &[u8]) -> (decoded: Result<MessageHeader, NetError>)
    ensures
        decoded == spec_decode_header(bytes@),
        decoded is Ok <==> bytes@.len() >= HEADER_SIZE && bytes@[0] < MESSAGE_TYPE_COUNT,
        decoded matches Err(e) ==> e == NetError::MalformedHeader,
{
    proof {
        if bytes@.len() > 0 {
            MessageType::lemma_ordinals(bytes@[0]);
        }
    }
    if bytes.len() < HEADER_SIZE {
        return Err(NetError::MalformedHeader);
    }
    match deserialize_fields(bytes) {
        Err(_) => Err(NetError::MalformedHeader),
        Ok((ordinal, message_size)) => match MessageType::from_ordinal(ordinal) {
            None => Err(NetError::MalformedHeader),
            Some(message_type) => Ok(MessageHeader { message_type, message_size }),
        },
    }
}

/// Puts the body that `header` declares, taken from the start of `bytes`,
/// together with the header.
///
/// Fails with `TruncatedBody` when `bytes` holds fewer bytes than the header
/// declares; otherwise with `OversizedBody` when the header declares more
/// than `max_body_size`; on every other input it succeeds, with a body of
/// exactly the declared length.
pub fn decode_body(bytes: &[u8], header: MessageHeader, max_body_size: u32) -> (decoded: Result<
    Message,
    NetError,
>)
    ensures
        decoded_view(decoded) == spec_decode_body(bytes@, header, max_body_size),
        decoded matches Ok(message) ==> message@.is_consistent(),
{
    let size: usize = header.message_size as usize;
    if bytes.len() < size {
        return Err(NetError::TruncatedBody);
    }
    if header.message_size > max_body_size {
        return Err(NetError::OversizedBody);
    }
    let body = slice_to_vec(slice_subrange(bytes, 0, size));
    Ok(Message { header, body })
}

/// Decodes the frame at the start of `bytes`: the inverse of `encode`.
///
/// Fails with `MalformedHeader` as `decode_header` does, with
/// `TruncatedBody` when the bytes end before the declared body does, and
/// with `OversizedBody` when a body that is all there is longer than
/// `max_body_size`. It never returns part of a message.
pub fn decode(bytes: &[u8], max_body_size: u32) -> (decoded: Result<Message, NetError>)
    ensures
        decoded_view(decoded) == spec_decode(bytes@, max_body_size),
        decoded matches Ok(message) ==> message@.is_consistent(),
{
    match decode_header(bytes) {
        Err(e) => Err(e),
        Ok(header) => decode_body(
            slice_subrange(bytes, HEADER_SIZE, bytes.len()),
            header,
            max_body_size,
        ),
    }
}

impl Message {
    /// The frame of this message: `encode` as a method.
    pub fn serialise(&self) -> (bytes: Vec<u8>)
        ensures
            bytes@ == spec_encode(self@),
            bytes@.len() == HEADER_SIZE + self.body@.len(),
    {
        encode(self)
    }

    /// The message that a header already decoded and the bytes read after
    /// it make, with no limit on the body but the one that the size field
    /// sets: `decode_body` with the largest maximum.
    pub fn deserialise_with_header(bytes: &[u8], header: MessageHeader) -> (decoded: Result<
        Message,
        NetError,
    >)
        ensures
            decoded_view(decoded) == spec_decode_body(bytes@, header, u32::MAX),
            decoded is Ok <==> bytes@.len() >= header.message_size,
            decoded matches Err(e) ==> e == NetError::TruncatedBody,
    {
        decode_body(bytes, header, u32::MAX)
    }
}

} // verus!
