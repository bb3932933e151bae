//! The wire format of frames, as mathematics.
//!
//! A frame is one transport message: a one-byte tag, then the fixed-size
//! fields of its kind in order, then at most one field that takes the rest of
//! the message. Integers are big-endian. This module states the format over
//! byte sequences and proves that parsing undoes encoding.

use vstd::prelude::*;

verus! {

/// Tag of a frame that opens the connection.
pub const TAG_HELLO: u8 = 0x00;

/// Tag of a frame that closes the connection.
pub const TAG_CLOSE: u8 = 0xFF;

/// Tag of a request to open a channel.
pub const TAG_CHANNEL_REQUEST: u8 = 0x10;

/// Tag of the acceptance of a channel request.
pub const TAG_CHANNEL_ACCEPT: u8 = 0x11;

/// Tag of the rejection of a channel request.
pub const TAG_CHANNEL_REJECT: u8 = 0x12;

/// Tag of a frame that carries channel data.
pub const TAG_CHANNEL_DATA: u8 = 0x13;

/// Tag of a frame that grants flow-control credit.
pub const TAG_CHANNEL_ADJUST: u8 = 0x14;

/// Tag of a frame by which the reading side stops a channel.
pub const TAG_CHANNEL_CLOSE: u8 = 0x15;

/// Tag of a frame by which the writing side ends a channel.
pub const TAG_CHANNEL_CLOSED: u8 = 0x17;

/// Tag of a ping.
pub const TAG_PING: u8 = 0x20;

/// Tag of a pong.
pub const TAG_PONG: u8 = 0x21;

/// Number of bytes of the protocol magic.
pub const MAGIC_SIZE: usize = 16;

/// The big-endian encoding of a 16-bit integer.
pub open spec fn be_bytes_u16(value: u16) -> Seq<u8> {
    seq![(value / 0x100) as u8, (value % 0x100) as u8]
}

/// The 16-bit integer that two big-endian bytes stand for.
pub open spec fn be_value_u16(bytes: Seq<u8>) -> u16
    recommends
        bytes.len() == 2,
{
    (bytes[0] as int * 0x100 + bytes[1] as int) as u16
}

/// The big-endian encoding of a 32-bit integer.
pub open spec fn be_bytes_u32(value: u32) -> Seq<u8> {
    seq![
        (value / 0x100_0000) as u8,
        (value / 0x1_0000 % 0x100) as u8,
        (value / 0x100 % 0x100) as u8,
        (value % 0x100) as u8,
    ]
}

/// The 32-bit integer that four big-endian bytes stand for.
pub open spec fn be_value_u32(bytes: Seq<u8>) -> u32
    recommends
        bytes.len() == 4,
{
    (bytes[0] as int * 0x100_0000 + bytes[1] as int * 0x1_0000 + bytes[2] as int * 0x100
        + bytes[3] as int) as u32
}

/// The big-endian encoding of a 64-bit integer: that of its upper half, then
/// that of its lower half.
pub open spec fn be_bytes_u64(value: u64) -> Seq<u8> {
    be_bytes_u32((value / 0x1_0000_0000) as u32) + be_bytes_u32((value % 0x1_0000_0000) as u32)
}

/// The 64-bit integer that eight big-endian bytes stand for.
pub open spec fn be_value_u64(bytes: Seq<u8>) -> u64
    recommends
        bytes.len() == 8,
{
    (be_value_u32(bytes.subrange(0, 4)) as int * 0x1_0000_0000 + be_value_u32(
        bytes.subrange(4, 8),
    ) as int) as u64
}

/// Decoding a 16-bit integer undoes encoding it.
pub proof fn lemma_be_u16_value_of_bytes(value: u16)
    ensures
        be_bytes_u16(value).len() == 2,
        be_value_u16(be_bytes_u16(value)) == value,
{
}

/// Encoding a 16-bit integer undoes decoding it.
pub proof fn lemma_be_u16_bytes_of_value(bytes: Seq<u8>)
    requires
        bytes.len() == 2,
    ensures
        be_bytes_u16(be_value_u16(bytes)) == bytes,
{
    assert(be_bytes_u16(be_value_u16(bytes)) =~= bytes);
}

/// Decoding a 32-bit integer undoes encoding it.
pub proof fn lemma_be_u32_value_of_bytes(value: u32)
    ensures
        be_bytes_u32(value).len() == 4,
        be_value_u32(be_bytes_u32(value)) == value,
{
}

/// Encoding a 32-bit integer undoes decoding it.
pub proof fn lemma_be_u32_bytes_of_value(bytes: Seq<u8>)
    requires
        bytes.len() == 4,
    ensures
        be_bytes_u32(be_value_u32(bytes)) == bytes,
{
    assert(be_bytes_u32(be_value_u32(bytes)) =~= bytes);
}

/// Decoding a 64-bit integer undoes encoding it.
pub proof fn lemma_be_u64_value_of_bytes(value: u64)
    ensures
        be_bytes_u64(value).len() == 8,
        be_value_u64(be_bytes_u64(value)) == value,
{
    let upper = (value / 0x1_0000_0000) as u32;
    let lower = (value % 0x1_0000_0000) as u32;
    let bytes = be_bytes_u64(value);
    lemma_be_u32_value_of_bytes(upper);
    lemma_be_u32_value_of_bytes(lower);
    assert(bytes.subrange(0, 4) =~= be_bytes_u32(upper));
    assert(bytes.subrange(4, 8) =~= be_bytes_u32(lower));
}

/// Encoding a 64-bit integer undoes decoding it.
pub proof fn lemma_be_u64_bytes_of_value(bytes: Seq<u8>)
    requires
        bytes.len() == 8,
    ensures
        be_bytes_u64(be_value_u64(bytes)) == bytes,
{
    let upper = be_value_u32(bytes.subrange(0, 4));
    let lower = be_value_u32(bytes.subrange(4, 8));
    let value = be_value_u64(bytes);
    assert(value == upper as int * 0x1_0000_0000 + lower as int);
    assert(value / 0x1_0000_0000 == upper as int);
    assert(value % 0x1_0000_0000 == lower as int);
    lemma_be_u32_bytes_of_value(bytes.subrange(0, 4));
    lemma_be_u32_bytes_of_value(bytes.subrange(4, 8));
    assert(be_bytes_u64(value) =~= bytes.subrange(0, 4) + bytes.subrange(4, 8));
    assert(bytes.subrange(0, 4) + bytes.subrange(4, 8) =~= bytes);
}

/// Encodes a 16-bit integer in big-endian order.
pub fn u16_to_be_bytes(value: u16) -> (bytes: [u8; 2])
    ensures
        bytes@ == be_bytes_u16(value),
{
    let bytes: [u8; 2] = [(value / 0x100) as u8, (value % 0x100) as u8];
    assert(bytes@ =~= be_bytes_u16(value));
    bytes
}

/// Decodes a 16-bit integer from two big-endian bytes.
pub fn u16_from_be_bytes(bytes: &[u8]) -> (value: u16)
    requires
        bytes@.len() == 2,
    ensures
        value == be_value_u16(bytes@),
{
    (bytes[0] as u16) * 0x100 + (bytes[1] as u16)
}

/// Encodes a 32-bit integer in big-endian order.
pub fn u32_to_be_bytes(value: u32) -> (bytes: [u8; 4])
    ensures
        bytes@ == be_bytes_u32(value),
{
    let bytes: [u8; 4] = [
        (value / 0x100_0000) as u8,
        (value / 0x1_0000 % 0x100) as u8,
        (value / 0x100 % 0x100) as u8,
        (value % 0x100) as u8,
    ];
    assert(bytes@ =~= be_bytes_u32(value));
    bytes
}

/// Decodes a 32-bit integer from four big-endian bytes.
pub fn u32_from_be_bytes(bytes: &[u8]) -> (value: u32)
    requires
        bytes@.len() == 4,
    ensures
        value == be_value_u32(bytes@),
{
    (bytes[0] as u32) * 0x100_0000 + (bytes[1] as u32) * 0x1_0000 + (bytes[2] as u32) * 0x100 + (
    bytes[3] as u32)
}

/// Encodes a 64-bit integer in big-endian order.
pub fn u64_to_be_bytes(value: u64) -> (bytes: [u8; 8])
    ensures
        bytes@ == be_bytes_u64(value),
{
    let upper = u32_to_be_bytes((value / 0x1_0000_0000) as u32);
    let lower = u32_to_be_bytes((value % 0x1_0000_0000) as u32);
    let bytes: [u8; 8] = [
        upper[0],
        upper[1],
        upper[2],
        upper[3],
        lower[0],
        lower[1],
        lower[2],
        lower[3],
    ];
    assert(bytes@ =~= be_bytes_u64(value));
    bytes
}

/// Decodes a 64-bit integer from eight big-endian bytes.
pub fn u64_from_be_bytes(bytes: &[u8]) -> (value: u64)
    requires
        bytes@.len() == 8,
    ensures
        value == be_value_u64(bytes@),
{
    let upper = (bytes[0] as u32) * 0x100_0000 + (bytes[1] as u32) * 0x1_0000 + (bytes[2] as u32)
        * 0x100 + (bytes[3] as u32);
    let lower = (bytes[4] as u32) * 0x100_0000 + (bytes[5] as u32) * 0x1_0000 + (bytes[6] as u32)
        * 0x100 + (bytes[7] as u32);
    (upper as u64) * 0x1_0000_0000 + (lower as u64)
}

/// Error parsing a frame.
#[derive(Debug, Clone, Copy, PartialEq, Eq, Structural)]
pub enum InvalidFrameError {
    /// The frame has an invalid tag.
    InvalidTag(u8),
    /// The frame has an invalid length; at least this many bytes were expected.
    InvalidLength(usize),
}

/// What a frame says, apart from how its bytes are held in memory.
pub ghost enum FrameView {
    /// Opens the connection.
    Hello { magic: Seq<u8>, info: Seq<u8> },
    /// Closes the connection.
    Close { reason: Seq<u8> },
    /// Asks the peer to open a channel to the named endpoint.
    ChannelRequest { sender_id: u64, frame_credit: u32, byte_credit: u32, endpoint: Seq<u8> },
    /// Accepts a channel request.
    ChannelAccept { receiver_id: u64, sender_id: u64, frame_credit: u32, byte_credit: u32 },
    /// Rejects a channel request.
    ChannelReject { receiver_id: u64, reason: Seq<u8> },
    /// Carries data of a channel.
    ChannelData { receiver_id: u64, payload: Seq<u8> },
    /// Grants the peer further credit on a channel.
    ChannelAdjust { receiver_id: u64, frame_credit: u32, byte_credit: u32 },
    /// Tells the peer to stop sending on a channel.
    ChannelClose { receiver_id: u64, reason: Seq<u8> },
    /// Tells the peer that nothing more will be sent on a channel.
    ChannelClosed { receiver_id: u64, reason: Seq<u8> },
    /// Asks for a pong.
    Ping,
    /// Answers a ping.
    Pong,
}

impl FrameView {
    /// The tag that the frame starts with.
    pub open spec fn tag(self) -> u8 {
        match self {
            FrameView::Hello { .. } => TAG_HELLO,
            FrameView::Close { .. } => TAG_CLOSE,
            FrameView::ChannelRequest { .. } => TAG_CHANNEL_REQUEST,
            FrameView::ChannelAccept { .. } => TAG_CHANNEL_ACCEPT,
            FrameView::ChannelReject { .. } => TAG_CHANNEL_REJECT,
            FrameView::ChannelData { .. } => TAG_CHANNEL_DATA,
            FrameView::ChannelAdjust { .. } => TAG_CHANNEL_ADJUST,
            FrameView::ChannelClose { .. } => TAG_CHANNEL_CLOSE,
            FrameView::ChannelClosed { .. } => TAG_CHANNEL_CLOSED,
            FrameView::Ping => TAG_PING,
            FrameView::Pong => TAG_PONG,
        }
    }

    /// Whether the frame can be put on the wire: the magic has its fixed size.
    pub open spec fn wf(self) -> bool {
        match self {
            FrameView::Hello { magic, .. } => magic.len() == MAGIC_SIZE,
            _ => true,
        }
    }

    /// The id of the channel at the recipient of the frame, for the kinds
    /// that are addressed to a channel.
    pub open spec fn receiver_id(self) -> u64 {
        match self {
            FrameView::ChannelAccept { receiver_id, .. } => receiver_id,
            FrameView::ChannelReject { receiver_id, .. } => receiver_id,
            FrameView::ChannelData { receiver_id, .. } => receiver_id,
            FrameView::ChannelAdjust { receiver_id, .. } => receiver_id,
            FrameView::ChannelClose { receiver_id, .. } => receiver_id,
            FrameView::ChannelClosed { receiver_id, .. } => receiver_id,
            _ => 0,
        }
    }

    /// The id of the channel at the originator of the frame, for the kinds
    /// that carry one.
    pub open spec fn sender_id(self) -> u64 {
        match self {
            FrameView::ChannelRequest { sender_id, .. } => sender_id,
            FrameView::ChannelAccept { sender_id, .. } => sender_id,
            _ => 0,
        }
    }

    /// The frame credit that the frame grants, for the kinds that grant one.
    pub open spec fn frame_credit(self) -> u32 {
        match self {
            FrameView::ChannelRequest { frame_credit, .. } => frame_credit,
            FrameView::ChannelAccept { frame_credit, .. } => frame_credit,
            FrameView::ChannelAdjust { frame_credit, .. } => frame_credit,
            _ => 0,
        }
    }

    /// The byte credit that the frame grants, for the kinds that grant one.
    pub open spec fn byte_credit(self) -> u32 {
        match self {
            FrameView::ChannelRequest { byte_credit, .. } => byte_credit,
            FrameView::ChannelAccept { byte_credit, .. } => byte_credit,
            FrameView::ChannelAdjust { byte_credit, .. } => byte_credit,
            _ => 0,
        }
    }

    /// The field that takes the rest of the message, for the kinds that have
    /// one: info, reason, endpoint or payload.
    pub open spec fn tail(self) -> Seq<u8> {
        match self {
            FrameView::Hello { info, .. } => info,
            FrameView::Close { reason } => reason,
            FrameView::ChannelRequest { endpoint, .. } => endpoint,
            FrameView::ChannelReject { reason, .. } => reason,
            FrameView::ChannelData { payload, .. } => payload,
            FrameView::ChannelClose { reason, .. } => reason,
            FrameView::ChannelClosed { reason, .. } => reason,
            _ => Seq::empty(),
        }
    }
}

/// The least number of bytes of a frame with the given tag, or `None` where
/// no kind of frame has that tag.
pub open spec fn min_frame_size(tag: u8) -> Option<usize> {
    if tag == TAG_HELLO {
        Some(17usize)
    } else if tag == TAG_CLOSE {
        Some(1usize)
    } else if tag == TAG_CHANNEL_REQUEST {
        Some(17usize)
    } else if tag == TAG_CHANNEL_ACCEPT {
        Some(25usize)
    } else if tag == TAG_CHANNEL_REJECT {
        Some(9usize)
    } else if tag == TAG_CHANNEL_DATA {
        Some(9usize)
    } else if tag == TAG_CHANNEL_ADJUST {
        Some(17usize)
    } else if tag == TAG_CHANNEL_CLOSE {
        Some(9usize)
    } else if tag == TAG_CHANNEL_CLOSED {
        Some(9usize)
    } else if tag == TAG_PING {
        Some(1usize)
    } else if tag == TAG_PONG {
        Some(1usize)
    } else {
        None
    }
}

/// The bytes of a frame on the wire.
pub open spec fn encode_frame(frame: FrameView) -> Seq<u8> {
    match frame {
        FrameView::Hello { magic, info } => seq![TAG_HELLO] + magic + info,
        FrameView::Close { reason } => seq![TAG_CLOSE] + reason,
        FrameView::ChannelRequest { sender_id, frame_credit, byte_credit, endpoint } => seq![
            TAG_CHANNEL_REQUEST,
        ] + be_bytes_u64(sender_id) + be_bytes_u32(frame_credit) + be_bytes_u32(byte_credit)
            + endpoint,
        FrameView::ChannelAccept { receiver_id, sender_id, frame_credit, byte_credit } => seq![
            TAG_CHANNEL_ACCEPT,
        ] + be_bytes_u64(receiver_id) + be_bytes_u64(sender_id) + be_bytes_u32(frame_credit)
            + be_bytes_u32(byte_credit),
        FrameView::ChannelReject { receiver_id, reason } => seq![TAG_CHANNEL_REJECT]
            + be_bytes_u64(receiver_id) + reason,
        FrameView::ChannelData { receiver_id, payload } => seq![TAG_CHANNEL_DATA] + be_bytes_u64(
            receiver_id,
        ) + payload,
        FrameView::ChannelAdjust { receiver_id, frame_credit, byte_credit } => seq![
            TAG_CHANNEL_ADJUST,
        ] + be_bytes_u64(receiver_id) + be_bytes_u32(frame_credit) + be_bytes_u32(byte_credit),
        FrameView::ChannelClose { receiver_id, reason } => seq![TAG_CHANNEL_CLOSE] + be_bytes_u64(
            receiver_id,
        ) + reason,
        FrameView::ChannelClosed { receiver_id, reason } => seq![TAG_CHANNEL_CLOSED]
            + be_bytes_u64(receiver_id) + reason,
        FrameView::Ping => seq![TAG_PING],
        FrameView::Pong => seq![TAG_PONG],
    }
}

/// What a message says, given that it starts with a known tag and is at least
/// as long as frames of that kind must be. Bytes that follow the last field
/// of a kind without a variable-length field are ignored.
pub open spec fn decode_frame(bytes: Seq<u8>) -> FrameView
    recommends
        bytes.len() > 0,
        min_frame_size(bytes[0]) is Some,
        bytes.len() >= min_frame_size(bytes[0])->0,
{
    let tag = bytes[0];
    if tag == TAG_HELLO {
        FrameView::Hello { magic: bytes.subrange(1, 17), info: bytes.skip(17) }
    } else if tag == TAG_CLOSE {
        FrameView::Close { reason: bytes.skip(1) }
    } else if tag == TAG_CHANNEL_REQUEST {
        FrameView::ChannelRequest {
            sender_id: be_value_u64(bytes.subrange(1, 9)),
            frame_credit: be_value_u32(bytes.subrange(9, 13)),
            byte_credit: be_value_u32(bytes.subrange(13, 17)),
            endpoint: bytes.skip(17),
        }
    } else if tag == TAG_CHANNEL_ACCEPT {
        FrameView::ChannelAccept {
            receiver_id: be_value_u64(bytes.subrange(1, 9)),
            sender_id: be_value_u64(bytes.subrange(9, 17)),
            frame_credit: be_value_u32(bytes.subrange(17, 21)),
            byte_credit: be_value_u32(bytes.subrange(21, 25)),
        }
    } else if tag == TAG_CHANNEL_REJECT {
        FrameView::ChannelReject {
            receiver_id: be_value_u64(bytes.subrange(1, 9)),
            reason: bytes.skip(9),
        }
    } else if tag == TAG_CHANNEL_DATA {
        FrameView::ChannelData {
            receiver_id: be_value_u64(bytes.subrange(1, 9)),
            payload: bytes.skip(9),
        }
    } else if tag == TAG_CHANNEL_ADJUST {
        FrameView::ChannelAdjust {
            receiver_id: be_value_u64(bytes.subrange(1, 9)),
            frame_credit: be_value_u32(bytes.subrange(9, 13)),
            byte_credit: be_value_u32(bytes.subrange(13, 17)),
        }
    } else if tag == TAG_CHANNEL_CLOSE {
        FrameView::ChannelClose {
            receiver_id: be_value_u64(bytes.subrange(1, 9)),
            reason: bytes.skip(9),
        }
    } else if tag == TAG_CHANNEL_CLOSED {
        FrameView::ChannelClosed {
            receiver_id: be_value_u64(bytes.subrange(1, 9)),
            reason: bytes.skip(9),
        }
    } else if tag == TAG_PING {
        FrameView::Ping
    } else {
        FrameView::Pong
    }
}

/// The result of parsing one transport message as a frame: an empty message
/// and one shorter than its kind allows have an invalid length, and a first
/// byte that is no tag is an invalid tag.
pub open spec fn parse_frame(bytes: Seq<u8>) -> Result<FrameView, InvalidFrameError> {
    if bytes.len() == 0 {
        Err(InvalidFrameError::InvalidLength(1))
    } else {
        match min_frame_size(bytes[0]) {
            None => Err(InvalidFrameError::InvalidTag(bytes[0])),
            Some(min) => if bytes.len() < min {
                Err(InvalidFrameError::InvalidLength(min))
            } else {
                Ok(decode_frame(bytes))
            },
        }
    }
}

/// Whether frames with this tag end in a field that takes the rest of the
/// message.
pub open spec fn has_tail(tag: u8) -> bool {
    tag == TAG_HELLO || tag == TAG_CLOSE || tag == TAG_CHANNEL_REQUEST || tag == TAG_CHANNEL_REJECT
        || tag == TAG_CHANNEL_DATA || tag == TAG_CHANNEL_CLOSE || tag == TAG_CHANNEL_CLOSED
}

/// Parsing the encoding of a frame gives the frame back, whatever its kind
/// and fields.
pub proof fn lemma_parse_encode(frame: FrameView)
    requires
        frame.wf(),
    ensures
        parse_frame(encode_frame(frame)) == Ok::<FrameView, InvalidFrameError>(frame),
        encode_frame(frame).len() > 0,
        encode_frame(frame)[0] == frame.tag(),
{
    let bytes = encode_frame(frame);
    match frame {
        FrameView::Hello { magic, info } => {
            assert(bytes.subrange(1, 17) =~= magic);
            assert(bytes.skip(17) =~= info);
        },
        FrameView::Close { reason } => {
            assert(bytes.skip(1) =~= reason);
        },
        FrameView::ChannelRequest { sender_id, frame_credit, byte_credit, endpoint } => {
            lemma_be_u64_value_of_bytes(sender_id);
            lemma_be_u32_value_of_bytes(frame_credit);
            lemma_be_u32_value_of_bytes(byte_credit);
            assert(bytes.subrange(1, 9) =~= be_bytes_u64(sender_id));
            assert(bytes.subrange(9, 13) =~= be_bytes_u32(frame_credit));
            assert(bytes.subrange(13, 17) =~= be_bytes_u32(byte_credit));
            assert(bytes.skip(17) =~= endpoint);
        },
        FrameView::ChannelAccept { receiver_id, sender_id, frame_credit, byte_credit } => {
            lemma_be_u64_value_of_bytes(receiver_id);
            lemma_be_u64_value_of_bytes(sender_id);
            lemma_be_u32_value_of_bytes(frame_credit);
            lemma_be_u32_value_of_bytes(byte_credit);
            assert(bytes.subrange(1, 9) =~= be_bytes_u64(receiver_id));
            assert(bytes.subrange(9, 17) =~= be_bytes_u64(sender_id));
            assert(bytes.subrange(17, 21) =~= be_bytes_u32(frame_credit));
            assert(bytes.subrange(21, 25) =~= be_bytes_u32(byte_credit));
        },
        FrameView::ChannelReject { receiver_id, reason } => {
            lemma_be_u64_value_of_bytes(receiver_id);
            assert(bytes.subrange(1, 9) =~= be_bytes_u64(receiver_id));
            assert(bytes.skip(9) =~= reason);
        },
        FrameView::ChannelData { receiver_id, payload } => {
            lemma_be_u64_value_of_bytes(receiver_id);
            assert(bytes.subrange(1, 9) =~= be_bytes_u64(receiver_id));
            assert(bytes.skip(9) =~= payload);
        },
        FrameView::ChannelAdjust { receiver_id, frame_credit, byte_credit } => {
            lemma_be_u64_value_of_bytes(receiver_id);
            lemma_be_u32_value_of_bytes(frame_credit);
            lemma_be_u32_value_of_bytes(byte_credit);
            assert(bytes.subrange(1, 9) =~= be_bytes_u64(receiver_id));
            assert(bytes.subrange(9, 13) =~= be_bytes_u32(frame_credit));
            assert(bytes.subrange(13, 17) =~= be_bytes_u32(byte_credit));
        },
        FrameView::ChannelClose { receiver_id, reason } => {
            lemma_be_u64_value_of_bytes(receiver_id);
            assert(bytes.subrange(1, 9) =~= be_bytes_u64(receiver_id));
            assert(bytes.skip(9) =~= reason);
        },
        FrameView::ChannelClosed { receiver_id, reason } => {
            lemma_be_u64_value_of_bytes(receiver_id);
            assert(bytes.subrange(1, 9) =~= be_bytes_u64(receiver_id));
            assert(bytes.skip(9) =~= reason);
        },
        FrameView::Ping => {},
        FrameView::Pong => {},
    }
}

/// A message that parses is the encoding of what it parses to, unless its
/// kind has no variable-length field and the message runs on after the last
/// field.
pub proof fn lemma_encode_parse(bytes: Seq<u8>)
    requires
        parse_frame(bytes) is Ok,
        has_tail(bytes[0]) || bytes.len() == min_frame_size(bytes[0])->0,
    ensures
        parse_frame(bytes)->Ok_0.wf(),
        parse_frame(bytes)->Ok_0.tag() == bytes[0],
        encode_frame(parse_frame(bytes)->Ok_0) == bytes,
{
    let frame = decode_frame(bytes);
    let tag = bytes[0];
    if tag == TAG_CHANNEL_REQUEST || tag == TAG_CHANNEL_ADJUST {
        lemma_be_u64_bytes_of_value(bytes.subrange(1, 9));
        lemma_be_u32_bytes_of_value(bytes.subrange(9, 13));
        lemma_be_u32_bytes_of_value(bytes.subrange(13, 17));
    } else if tag == TAG_CHANNEL_ACCEPT {
        lemma_be_u64_bytes_of_value(bytes.subrange(1, 9));
        lemma_be_u64_bytes_of_value(bytes.subrange(9, 17));
        lemma_be_u32_bytes_of_value(bytes.subrange(17, 21));
        lemma_be_u32_bytes_of_value(bytes.subrange(21, 25));
    } else if tag != TAG_HELLO && tag != TAG_CLOSE && tag != TAG_PING && tag != TAG_PONG {
        lemma_be_u64_bytes_of_value(bytes.subrange(1, 9));
    }
    assert(encode_frame(frame) =~= bytes);
}

} // verus!
