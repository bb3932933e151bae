//! Frames as they are held in memory.
//!
//! A frame is kept as the bytes of its message, and its fields are read and
//! written in place at the offsets that the wire layout fixes. Every field but
//! the last has a fixed size; the last may take the rest of the message. Each
//! kind of frame is a type of its own whose values always start with the tag
//! of the kind and are long enough to hold its fixed fields, so that reading a
//! field cannot fail.

use crate::multiplex::buffer::bytes_as_slice;
use crate::multiplex::buffer::bytes_clone;
use crate::multiplex::buffer::bytes_split_off;
use crate::multiplex::buffer::bytes_len;
use crate::multiplex::buffer::bytes_mut_freeze;
use crate::multiplex::buffer::bytes_mut_from;
use crate::multiplex::buffer::bytes_mut_put_slice;
use crate::multiplex::buffer::bytes_mut_put_u8;
use crate::multiplex::buffer::bytes_mut_truncate;
use crate::multiplex::buffer::bytes_mut_with_capacity;
use crate::multiplex::buffer::bytes_mut_write_at;
use crate::multiplex::buffer::bytes_view;
use crate::multiplex::wire::be_bytes_u32;
use crate::multiplex::wire::be_bytes_u64;
use crate::multiplex::wire::be_value_u32;
use crate::multiplex::wire::be_value_u64;
use crate::multiplex::wire::encode_frame;
use crate::multiplex::wire::lemma_be_u32_value_of_bytes;
use crate::multiplex::wire::lemma_be_u64_value_of_bytes;
use crate::multiplex::wire::lemma_parse_encode;
use crate::multiplex::wire::parse_frame;
use crate::multiplex::wire::u32_from_be_bytes;
use crate::multiplex::wire::u32_to_be_bytes;
use crate::multiplex::wire::u64_from_be_bytes;
use crate::multiplex::wire::u64_to_be_bytes;
use crate::multiplex::wire::FrameView;
use crate::multiplex::wire::InvalidFrameError;
use crate::multiplex::wire::TAG_CHANNEL_ACCEPT;
use crate::multiplex::wire::TAG_CHANNEL_ADJUST;
use crate::multiplex::wire::TAG_CHANNEL_CLOSE;
use crate::multiplex::wire::TAG_CHANNEL_CLOSED;
use crate::multiplex::wire::TAG_CHANNEL_DATA;
use crate::multiplex::wire::TAG_CHANNEL_REJECT;
use crate::multiplex::wire::TAG_CHANNEL_REQUEST;
use crate::multiplex::wire::TAG_CLOSE;
use crate::multiplex::wire::TAG_HELLO;
use crate::multiplex::wire::TAG_PING;
use crate::multiplex::wire::TAG_PONG;
use bytes::Bytes;
use vstd::prelude::*;
use vstd::slice::slice_subrange;

verus! {

/// Protocol magic used to identify the protocol.
pub const PROTOCOL_MAGIC: [u8; 16] = [
    27, 27, 46, 134, 44, 205, 244, 157, 82, 109, 227, 13, 167, 171, 225, 140,
];

/// Channel id used to identify a channel at one end of a connection.
#[derive(Debug, Clone, Copy, PartialEq, Eq, Hash, Structural)]
pub struct ChannelId(pub u64);

impl ChannelId {
    /// Size of the channel id on the wire.
    pub const SIZE: usize = 8;

    /// The reserved id that stands for no channel.
    pub fn null() -> (id: ChannelId)
        ensures
            id.0 == 0,
    {
        ChannelId(0)
    }

    /// Convert the provided big-endian bytes to a channel id.
    pub fn from_bytes(bytes: [u8; 8]) -> (id: ChannelId)
        ensures
            id.0 == be_value_u64(bytes@),
    {
        ChannelId(u64_from_be_bytes(bytes.as_slice()))
    }

    /// Convert the channel id to big-endian bytes.
    pub fn to_bytes(self) -> (bytes: [u8; 8])
        ensures
            bytes@ == be_bytes_u64(self.0),
    {
        u64_to_be_bytes(self.0)
    }
}

/// Adds two sizes where both are known: the offset that follows a field of
/// known size at a known offset.
pub fn add_optional_sizes(left: Option<usize>, right: Option<usize>) -> (sum: Option<usize>)
    requires
        left is Some && right is Some ==> left->0 + right->0 <= usize::MAX,
    ensures
        sum == if left is Some && right is Some {
            Some((left->0 + right->0) as usize)
        } else {
            None::<usize>
        },
{
    match (left, right) {
        (Some(left), Some(right)) => Some(left + right),
        _ => None,
    }
}

/// Reads the big-endian 64-bit field at the given offset.
fn field_u64(bytes: &Bytes, offset: usize) -> (value: u64)
    requires
        offset + 8 <= bytes_view(*bytes).len(),
    ensures
        value == be_value_u64(bytes_view(*bytes).subrange(offset as int, offset + 8)),
{
    u64_from_be_bytes(field_fixed(bytes, offset, 8))
}

/// Reads the big-endian 32-bit field at the given offset.
fn field_u32(bytes: &Bytes, offset: usize) -> (value: u32)
    requires
        offset + 4 <= bytes_view(*bytes).len(),
    ensures
        value == be_value_u32(bytes_view(*bytes).subrange(offset as int, offset + 4)),
{
    u32_from_be_bytes(field_fixed(bytes, offset, 4))
}

/// Reads the field of the given size at the given offset.
fn field_fixed(bytes: &Bytes, offset: usize, size: usize) -> (field: &[u8])
    requires
        offset + size <= bytes_view(*bytes).len(),
    ensures
        field@ == bytes_view(*bytes).subrange(offset as int, offset + size),
{
    let field = slice_subrange(field_tail(bytes, offset), 0, size);
    assert(field@ =~= bytes_view(*bytes).subrange(offset as int, offset + size));
    field
}

/// Reads the field that runs from the given offset to the end of the frame.
fn field_tail(bytes: &Bytes, offset: usize) -> (field: &[u8])
    requires
        offset <= bytes_view(*bytes).len(),
    ensures
        field@ == bytes_view(*bytes).skip(offset as int),
{
    let slice = bytes_as_slice(bytes);
    let field = slice_subrange(slice, offset, slice.len());
    assert(field@ =~= bytes_view(*bytes).skip(offset as int));
    field
}

/// Overwrites a fixed-size field in place.
fn with_fixed(bytes: Bytes, offset: usize, value: &[u8]) -> (written: Bytes)
    requires
        offset + value@.len() <= bytes_view(bytes).len(),
    ensures
        bytes_view(written) == bytes_view(bytes).take(offset as int) + value@ + bytes_view(
            bytes,
        ).skip(offset + value@.len()),
{
    let mut buffer = bytes_mut_from(bytes);
    bytes_mut_write_at(&mut buffer, offset, value);
    bytes_mut_freeze(buffer)
}

/// Replaces the last field, which starts at the given offset, by cutting the
/// frame there and appending the new value.
fn with_tail(bytes: Bytes, offset: usize, value: &[u8]) -> (written: Bytes)
    requires
        offset <= bytes_view(bytes).len(),
        offset + value@.len() <= usize::MAX,
    ensures
        bytes_view(written) == bytes_view(bytes).take(offset as int) + value@,
{
    let mut buffer = bytes_mut_from(bytes);
    bytes_mut_truncate(&mut buffer, offset);
    bytes_mut_put_slice(&mut buffer, value);
    bytes_mut_freeze(buffer)
}


/// Initialize the connection.
pub struct FrameHello {
    bytes: Bytes,
}

impl View for FrameHello {
    type V = FrameView;

    open spec fn view(&self) -> FrameView {
        FrameView::Hello {
            magic: self.wire().subrange(1, 17),
            info: self.wire().skip(17),
        }
    }
}

impl FrameHello {
    /// Tag used to identify the respective frames.
    pub const FRAME_TAG: u8 = TAG_HELLO;

    /// Offset of the `magic` field.
    pub const FIELD_MAGIC_OFFSET: usize = 1;

    /// Offset of the `info` field.
    pub const FIELD_INFO_OFFSET: usize = 17;

    /// Minimal size of the frame.
    pub const MIN_FRAME_SIZE: usize = 17;

    #[verifier::type_invariant]
    spec fn well_formed(self) -> bool {
        bytes_view(self.bytes).len() >= 17 && bytes_view(self.bytes)[0] == TAG_HELLO
    }

    /// The bytes of the frame as they go over the wire.
    pub closed spec fn wire(&self) -> Seq<u8> {
        bytes_view(self.bytes)
    }

    /// Create a new frame of the respective type.
    pub fn new(magic: &[u8; 16], info: &[u8]) -> (frame: Self)
        requires
            info@.len() + 17 <= usize::MAX,
        ensures
            frame@ == (FrameView::Hello {
                magic: magic@,
                info: info@,
            }),
            frame.wire() == encode_frame(frame@),
    {
        let mut bytes = bytes_mut_with_capacity(17 + info.len());
        bytes_mut_put_u8(&mut bytes, TAG_HELLO);
        bytes_mut_put_slice(&mut bytes, magic.as_slice());
        bytes_mut_put_slice(&mut bytes, info);
        let bytes = bytes_mut_freeze(bytes);
        proof {
            let frame = (FrameView::Hello {
                magic: magic@,
                info: info@,
            });
            lemma_parse_encode(frame);
            assert(bytes_view(bytes) =~= encode_frame(frame));
        }
        Self { bytes }
    }

    /// Construct a frame from raw bytes that start with the tag of the kind
    /// and hold its fixed-size fields.
    pub fn from_raw_bytes(bytes: Bytes) -> (frame: Self)
        requires
            bytes_view(bytes).len() >= 17,
            bytes_view(bytes)[0] == TAG_HELLO,
        ensures
            frame.wire() == bytes_view(bytes),
    {
        Self { bytes }
    }

    /// Length of the frame.
    pub fn len(&self) -> (len: usize)
        ensures
            len == self.wire().len(),
            len >= 17,
    {
        proof {
            use_type_invariant(self);
        }
        bytes_len(&self.bytes)
    }

    /// Byte representation of the frame.
    pub fn as_bytes(&self) -> (bytes: &[u8])
        ensures
            bytes@ == self.wire(),
            parse_frame(bytes@) == Ok::<FrameView, InvalidFrameError>(self@),
    {
        proof {
            use_type_invariant(self);
        }
        bytes_as_slice(&self.bytes)
    }

    /// The buffer that holds the frame.
    pub fn into_bytes(self) -> (bytes: Bytes)
        ensures
            bytes_view(bytes) == self.wire(),
            parse_frame(bytes_view(bytes)) == Ok::<FrameView, InvalidFrameError>(self@),
    {
        proof {
            use_type_invariant(&self);
        }
        self.bytes
    }

    /// Magic protocol identifier.
    pub fn magic(&self) -> (magic: &[u8])
        ensures
            magic@ == self@->Hello_magic,
            magic@.len() == 16,
    {
        proof {
            use_type_invariant(self);
        }
        field_fixed(&self.bytes, 1, 16)
    }

    /// Information about the sender of the frame.
    pub fn info(&self) -> (info: &[u8])
        ensures
            info@ == self@.tail(),
    {
        proof {
            use_type_invariant(self);
        }
        field_tail(&self.bytes, 17)
    }

    /// Setter for the `magic` field.
    pub fn set_magic(self, value: &[u8; 16]) -> (written: Self)
        ensures
            written@ == (FrameView::Hello {
                magic: value@,
                info: self@.tail(),
            }),
            written.wire().len() == self.wire().len(),
    {
        proof {
            use_type_invariant(&self);
        }
        let ghost before = bytes_view(self.bytes);
        let bytes = with_fixed(self.bytes, 1, value.as_slice());
        proof {
            let after = bytes_view(bytes);
            assert(after.subrange(1, 17) =~= value@);
            assert(after.skip(17) =~= before.skip(17));
        }
        Self { bytes }
    }

    /// Setter for the `info` field.
    pub fn set_info(self, value: &[u8]) -> (written: Self)
        requires
            value@.len() + 17 <= usize::MAX,
        ensures
            written@ == (FrameView::Hello {
                magic: self@->Hello_magic,
                info: value@,
            }),
            written.wire() == self.wire().take(17) + value@,
    {
        proof {
            use_type_invariant(&self);
        }
        let ghost before = bytes_view(self.bytes);
        let bytes = with_tail(self.bytes, 17, value);
        proof {
            let after = bytes_view(bytes);
            assert(after.subrange(1, 17) =~= before.subrange(1, 17));
            assert(after.skip(17) =~= value@);
        }
        Self { bytes }
    }

}

/// Close the connection.
pub struct FrameClose {
    bytes: Bytes,
}

impl View for FrameClose {
    type V = FrameView;

    open spec fn view(&self) -> FrameView {
        FrameView::Close {
            reason: self.wire().skip(1),
        }
    }
}

impl FrameClose {
    /// Tag used to identify the respective frames.
    pub const FRAME_TAG: u8 = TAG_CLOSE;

    /// Offset of the `reason` field.
    pub const FIELD_REASON_OFFSET: usize = 1;

    /// Minimal size of the frame.
    pub const MIN_FRAME_SIZE: usize = 1;

    #[verifier::type_invariant]
    spec fn well_formed(self) -> bool {
        bytes_view(self.bytes).len() >= 1 && bytes_view(self.bytes)[0] == TAG_CLOSE
    }

    /// The bytes of the frame as they go over the wire.
    pub closed spec fn wire(&self) -> Seq<u8> {
        bytes_view(self.bytes)
    }

    /// Create a new frame of the respective type.
    pub fn new(reason: &[u8]) -> (frame: Self)
        requires
            reason@.len() + 1 <= usize::MAX,
        ensures
            frame@ == (FrameView::Close {
                reason: reason@,
            }),
            frame.wire() == encode_frame(frame@),
    {
        let mut bytes = bytes_mut_with_capacity(1 + reason.len());
        bytes_mut_put_u8(&mut bytes, TAG_CLOSE);
        bytes_mut_put_slice(&mut bytes, reason);
        let bytes = bytes_mut_freeze(bytes);
        proof {
            let frame = (FrameView::Close {
                reason: reason@,
            });
            lemma_parse_encode(frame);
            assert(bytes_view(bytes) =~= encode_frame(frame));
        }
        Self { bytes }
    }

    /// Construct a frame from raw bytes that start with the tag of the kind
    /// and hold its fixed-size fields.
    pub fn from_raw_bytes(bytes: Bytes) -> (frame: Self)
        requires
            bytes_view(bytes).len() >= 1,
            bytes_view(bytes)[0] == TAG_CLOSE,
        ensures
            frame.wire() == bytes_view(bytes),
    {
        Self { bytes }
    }

    /// Length of the frame.
    pub fn len(&self) -> (len: usize)
        ensures
            len == self.wire().len(),
            len >= 1,
    {
        proof {
            use_type_invariant(self);
        }
        bytes_len(&self.bytes)
    }

    /// Byte representation of the frame.
    pub fn as_bytes(&self) -> (bytes: &[u8])
        ensures
            bytes@ == self.wire(),
            parse_frame(bytes@) == Ok::<FrameView, InvalidFrameError>(self@),
    {
        proof {
            use_type_invariant(self);
        }
        bytes_as_slice(&self.bytes)
    }

    /// The buffer that holds the frame.
    pub fn into_bytes(self) -> (bytes: Bytes)
        ensures
            bytes_view(bytes) == self.wire(),
            parse_frame(bytes_view(bytes)) == Ok::<FrameView, InvalidFrameError>(self@),
    {
        proof {
            use_type_invariant(&self);
        }
        self.bytes
    }

    /// Reason why the connection should be closed.
    pub fn reason(&self) -> (reason: &[u8])
        ensures
            reason@ == self@.tail(),
    {
        proof {
            use_type_invariant(self);
        }
        field_tail(&self.bytes, 1)
    }

    /// Setter for the `reason` field.
    pub fn set_reason(self, value: &[u8]) -> (written: Self)
        requires
            value@.len() + 1 <= usize::MAX,
        ensures
            written@ == (FrameView::Close {
                reason: value@,
            }),
            written.wire() == self.wire().take(1) + value@,
    {
        proof {
            use_type_invariant(&self);
        }
        let ghost before = bytes_view(self.bytes);
        let bytes = with_tail(self.bytes, 1, value);
        proof {
            let after = bytes_view(bytes);
            assert(after.skip(1) =~= value@);
        }
        Self { bytes }
    }

}

/// Request to open a new channel.
pub struct FrameChannelRequest {
    bytes: Bytes,
}

impl View for FrameChannelRequest {
    type V = FrameView;

    open spec fn view(&self) -> FrameView {
        FrameView::ChannelRequest {
            sender_id: be_value_u64(self.wire().subrange(1, 9)),
            frame_credit: be_value_u32(self.wire().subrange(9, 13)),
            byte_credit: be_value_u32(self.wire().subrange(13, 17)),
            endpoint: self.wire().skip(17),
        }
    }
}

impl FrameChannelRequest {
    /// Tag used to identify the respective frames.
    pub const FRAME_TAG: u8 = TAG_CHANNEL_REQUEST;

    /// Offset of the `sender_id` field.
    pub const FIELD_SENDER_ID_OFFSET: usize = 1;

    /// Offset of the `frame_credit` field.
    pub const FIELD_FRAME_CREDIT_OFFSET: usize = 9;

    /// Offset of the `byte_credit` field.
    pub const FIELD_BYTE_CREDIT_OFFSET: usize = 13;

    /// Offset of the `endpoint` field.
    pub const FIELD_ENDPOINT_OFFSET: usize = 17;

    /// Minimal size of the frame.
    pub const MIN_FRAME_SIZE: usize = 17;

    #[verifier::type_invariant]
    spec fn well_formed(self) -> bool {
        bytes_view(self.bytes).len() >= 17 && bytes_view(self.bytes)[0] == TAG_CHANNEL_REQUEST
    }

    /// The bytes of the frame as they go over the wire.
    pub closed spec fn wire(&self) -> Seq<u8> {
        bytes_view(self.bytes)
    }

    /// Create a new frame of the respective type.
    pub fn new(
        sender_id: ChannelId,
        frame_credit: u32,
        byte_credit: u32,
        endpoint: &[u8],
    ) -> (frame: Self)
        requires
            endpoint@.len() + 17 <= usize::MAX,
        ensures
            frame@ == (FrameView::ChannelRequest {
                sender_id: sender_id.0,
                frame_credit: frame_credit,
                byte_credit: byte_credit,
                endpoint: endpoint@,
            }),
            frame.wire() == encode_frame(frame@),
    {
        let mut bytes = bytes_mut_with_capacity(17 + endpoint.len());
        bytes_mut_put_u8(&mut bytes, TAG_CHANNEL_REQUEST);
        bytes_mut_put_slice(&mut bytes, sender_id.to_bytes().as_slice());
        bytes_mut_put_slice(&mut bytes, u32_to_be_bytes(frame_credit).as_slice());
        bytes_mut_put_slice(&mut bytes, u32_to_be_bytes(byte_credit).as_slice());
        bytes_mut_put_slice(&mut bytes, endpoint);
        let bytes = bytes_mut_freeze(bytes);
        proof {
            let frame = (FrameView::ChannelRequest {
                sender_id: sender_id.0,
                frame_credit: frame_credit,
                byte_credit: byte_credit,
                endpoint: endpoint@,
            });
            lemma_parse_encode(frame);
            assert(bytes_view(bytes) =~= encode_frame(frame));
        }
        Self { bytes }
    }

    /// Construct a frame from raw bytes that start with the tag of the kind
    /// and hold its fixed-size fields.
    pub fn from_raw_bytes(bytes: Bytes) -> (frame: Self)
        requires
            bytes_view(bytes).len() >= 17,
            bytes_view(bytes)[0] == TAG_CHANNEL_REQUEST,
        ensures
            frame.wire() == bytes_view(bytes),
    {
        Self { bytes }
    }

    /// Length of the frame.
    pub fn len(&self) -> (len: usize)
        ensures
            len == self.wire().len(),
            len >= 17,
    {
        proof {
            use_type_invariant(self);
        }
        bytes_len(&self.bytes)
    }

    /// Byte representation of the frame.
    pub fn as_bytes(&self) -> (bytes: &[u8])
        ensures
            bytes@ == self.wire(),
            parse_frame(bytes@) == Ok::<FrameView, InvalidFrameError>(self@),
    {
        proof {
            use_type_invariant(self);
        }
        bytes_as_slice(&self.bytes)
    }

    /// The buffer that holds the frame.
    pub fn into_bytes(self) -> (bytes: Bytes)
        ensures
            bytes_view(bytes) == self.wire(),
            parse_frame(bytes_view(bytes)) == Ok::<FrameView, InvalidFrameError>(self@),
    {
        proof {
            use_type_invariant(&self);
        }
        self.bytes
    }

    /// Channel id at the sender of the frame.
    pub fn sender_id(&self) -> (sender_id: ChannelId)
        ensures
            sender_id.0 == self@.sender_id(),
    {
        proof {
            use_type_invariant(self);
        }
        ChannelId(field_u64(&self.bytes, 1))
    }

    /// Initial flow control credit for frames.
    pub fn frame_credit(&self) -> (frame_credit: u32)
        ensures
            frame_credit == self@.frame_credit(),
    {
        proof {
            use_type_invariant(self);
        }
        field_u32(&self.bytes, 9)
    }

    /// Initial flow control credit for bytes.
    pub fn byte_credit(&self) -> (byte_credit: u32)
        ensures
            byte_credit == self@.byte_credit(),
    {
        proof {
            use_type_invariant(self);
        }
        field_u32(&self.bytes, 13)
    }

    /// Endpoint of the request.
    pub fn endpoint(&self) -> (endpoint: &[u8])
        ensures
            endpoint@ == self@.tail(),
    {
        proof {
            use_type_invariant(self);
        }
        field_tail(&self.bytes, 17)
    }

    /// Setter for the `sender_id` field.
    pub fn set_sender_id(self, value: ChannelId) -> (written: Self)
        ensures
            written@ == (FrameView::ChannelRequest {
                sender_id: value.0,
                frame_credit: self@.frame_credit(),
                byte_credit: self@.byte_credit(),
                endpoint: self@.tail(),
            }),
            written.wire().len() == self.wire().len(),
    {
        proof {
            use_type_invariant(&self);
        }
        let ghost before = bytes_view(self.bytes);
        let bytes = with_fixed(self.bytes, 1, value.to_bytes().as_slice());
        proof {
            let after = bytes_view(bytes);
            lemma_be_u64_value_of_bytes(value.0);
            assert(after.subrange(1, 9) =~= be_bytes_u64(value.0));
            assert(after.subrange(9, 13) =~= before.subrange(9, 13));
            assert(after.subrange(13, 17) =~= before.subrange(13, 17));
            assert(after.skip(17) =~= before.skip(17));
        }
        Self { bytes }
    }

    /// Setter for the `frame_credit` field.
    pub fn set_frame_credit(self, value: u32) -> (written: Self)
        ensures
            written@ == (FrameView::ChannelRequest {
                sender_id: self@.sender_id(),
                frame_credit: value,
                byte_credit: self@.byte_credit(),
                endpoint: self@.tail(),
            }),
            written.wire().len() == self.wire().len(),
    {
        proof {
            use_type_invariant(&self);
        }
        let ghost before = bytes_view(self.bytes);
        let bytes = with_fixed(self.bytes, 9, u32_to_be_bytes(value).as_slice());
        proof {
            let after = bytes_view(bytes);
            lemma_be_u32_value_of_bytes(value);
            assert(after.subrange(1, 9) =~= before.subrange(1, 9));
            assert(after.subrange(9, 13) =~= be_bytes_u32(value));
            assert(after.subrange(13, 17) =~= before.subrange(13, 17));
            assert(after.skip(17) =~= before.skip(17));
        }
        Self { bytes }
    }

    /// Setter for the `byte_credit` field.
    pub fn set_byte_credit(self, value: u32) -> (written: Self)
        ensures
            written@ == (FrameView::ChannelRequest {
                sender_id: self@.sender_id(),
                frame_credit: self@.frame_credit(),
                byte_credit: value,
                endpoint: self@.tail(),
            }),
            written.wire().len() == self.wire().len(),
    {
        proof {
            use_type_invariant(&self);
        }
        let ghost before = bytes_view(self.bytes);
        let bytes = with_fixed(self.bytes, 13, u32_to_be_bytes(value).as_slice());
        proof {
            let after = bytes_view(bytes);
            lemma_be_u32_value_of_bytes(value);
            assert(after.subrange(1, 9) =~= before.subrange(1, 9));
            assert(after.subrange(9, 13) =~= before.subrange(9, 13));
            assert(after.subrange(13, 17) =~= be_bytes_u32(value));
            assert(after.skip(17) =~= before.skip(17));
        }
        Self { bytes }
    }

    /// Setter for the `endpoint` field.
    pub fn set_endpoint(self, value: &[u8]) -> (written: Self)
        requires
            value@.len() + 17 <= usize::MAX,
        ensures
            written@ == (FrameView::ChannelRequest {
                sender_id: self@.sender_id(),
                frame_credit: self@.frame_credit(),
                byte_credit: self@.byte_credit(),
                endpoint: value@,
            }),
            written.wire() == self.wire().take(17) + value@,
    {
        proof {
            use_type_invariant(&self);
        }
        let ghost before = bytes_view(self.bytes);
        let bytes = with_tail(self.bytes, 17, value);
        proof {
            let after = bytes_view(bytes);
            assert(after.subrange(1, 9) =~= before.subrange(1, 9));
            assert(after.subrange(9, 13) =~= before.subrange(9, 13));
            assert(after.subrange(13, 17) =~= before.subrange(13, 17));
            assert(after.skip(17) =~= value@);
        }
        Self { bytes }
    }

}

/// Accept a request to open a new channel.
pub struct FrameChannelAccept {
    bytes: Bytes,
}

impl View for FrameChannelAccept {
    type V = FrameView;

    open spec fn view(&self) -> FrameView {
        FrameView::ChannelAccept {
            receiver_id: be_value_u64(self.wire().subrange(1, 9)),
            sender_id: be_value_u64(self.wire().subrange(9, 17)),
            frame_credit: be_value_u32(self.wire().subrange(17, 21)),
            byte_credit: be_value_u32(self.wire().subrange(21, 25)),
        }
    }
}

impl FrameChannelAccept {
    /// Tag used to identify the respective frames.
    pub const FRAME_TAG: u8 = TAG_CHANNEL_ACCEPT;

    /// Offset of the `receiver_id` field.
    pub const FIELD_RECEIVER_ID_OFFSET: usize = 1;

    /// Offset of the `sender_id` field.
    pub const FIELD_SENDER_ID_OFFSET: usize = 9;

    /// Offset of the `frame_credit` field.
    pub const FIELD_FRAME_CREDIT_OFFSET: usize = 17;

    /// Offset of the `byte_credit` field.
    pub const FIELD_BYTE_CREDIT_OFFSET: usize = 21;

    /// Minimal size of the frame.
    pub const MIN_FRAME_SIZE: usize = 25;

    #[verifier::type_invariant]
    spec fn well_formed(self) -> bool {
        bytes_view(self.bytes).len() >= 25 && bytes_view(self.bytes)[0] == TAG_CHANNEL_ACCEPT
    }

    /// The bytes of the frame as they go over the wire.
    pub closed spec fn wire(&self) -> Seq<u8> {
        bytes_view(self.bytes)
    }

    /// Create a new frame of the respective type.
    pub fn new(
        receiver_id: ChannelId,
        sender_id: ChannelId,
        frame_credit: u32,
        byte_credit: u32,
    ) -> (frame: Self)
        ensures
            frame@ == (FrameView::ChannelAccept {
                receiver_id: receiver_id.0,
                sender_id: sender_id.0,
                frame_credit: frame_credit,
                byte_credit: byte_credit,
            }),
            frame.wire() == encode_frame(frame@),
    {
        let mut bytes = bytes_mut_with_capacity(25);
        bytes_mut_put_u8(&mut bytes, TAG_CHANNEL_ACCEPT);
        bytes_mut_put_slice(&mut bytes, receiver_id.to_bytes().as_slice());
        bytes_mut_put_slice(&mut bytes, sender_id.to_bytes().as_slice());
        bytes_mut_put_slice(&mut bytes, u32_to_be_bytes(frame_credit).as_slice());
        bytes_mut_put_slice(&mut bytes, u32_to_be_bytes(byte_credit).as_slice());
        let bytes = bytes_mut_freeze(bytes);
        proof {
            let frame = (FrameView::ChannelAccept {
                receiver_id: receiver_id.0,
                sender_id: sender_id.0,
                frame_credit: frame_credit,
                byte_credit: byte_credit,
            });
            lemma_parse_encode(frame);
            assert(bytes_view(bytes) =~= encode_frame(frame));
        }
        Self { bytes }
    }

    /// Construct a frame from raw bytes that start with the tag of the kind
    /// and hold its fixed-size fields.
    pub fn from_raw_bytes(bytes: Bytes) -> (frame: Self)
        requires
            bytes_view(bytes).len() >= 25,
            bytes_view(bytes)[0] == TAG_CHANNEL_ACCEPT,
        ensures
            frame.wire() == bytes_view(bytes),
    {
        Self { bytes }
    }

    /// Length of the frame.
    pub fn len(&self) -> (len: usize)
        ensures
            len == self.wire().len(),
            len >= 25,
    {
        proof {
            use_type_invariant(self);
        }
        bytes_len(&self.bytes)
    }

    /// Byte representation of the frame.
    pub fn as_bytes(&self) -> (bytes: &[u8])
        ensures
            bytes@ == self.wire(),
            parse_frame(bytes@) == Ok::<FrameView, InvalidFrameError>(self@),
    {
        proof {
            use_type_invariant(self);
        }
        bytes_as_slice(&self.bytes)
    }

    /// The buffer that holds the frame.
    pub fn into_bytes(self) -> (bytes: Bytes)
        ensures
            bytes_view(bytes) == self.wire(),
            parse_frame(bytes_view(bytes)) == Ok::<FrameView, InvalidFrameError>(self@),
    {
        proof {
            use_type_invariant(&self);
        }
        self.bytes
    }

    /// Channel id at the receiver of the frame.
    pub fn receiver_id(&self) -> (receiver_id: ChannelId)
        ensures
            receiver_id.0 == self@.receiver_id(),
    {
        proof {
            use_type_invariant(self);
        }
        ChannelId(field_u64(&self.bytes, 1))
    }

    /// Channel id at the sender of the frame.
    pub fn sender_id(&self) -> (sender_id: ChannelId)
        ensures
            sender_id.0 == self@.sender_id(),
    {
        proof {
            use_type_invariant(self);
        }
        ChannelId(field_u64(&self.bytes, 9))
    }

    /// Initial flow control credit for frames.
    pub fn frame_credit(&self) -> (frame_credit: u32)
        ensures
            frame_credit == self@.frame_credit(),
    {
        proof {
            use_type_invariant(self);
        }
        field_u32(&self.bytes, 17)
    }

    /// Initial flow control credit for bytes.
    pub fn byte_credit(&self) -> (byte_credit: u32)
        ensures
            byte_credit == self@.byte_credit(),
    {
        proof {
            use_type_invariant(self);
        }
        field_u32(&self.bytes, 21)
    }

    /// Setter for the `receiver_id` field.
    pub fn set_receiver_id(self, value: ChannelId) -> (written: Self)
        ensures
            written@ == (FrameView::ChannelAccept {
                receiver_id: value.0,
                sender_id: self@.sender_id(),
                frame_credit: self@.frame_credit(),
                byte_credit: self@.byte_credit(),
            }),
            written.wire().len() == self.wire().len(),
    {
        proof {
            use_type_invariant(&self);
        }
        let ghost before = bytes_view(self.bytes);
        let bytes = with_fixed(self.bytes, 1, value.to_bytes().as_slice());
        proof {
            let after = bytes_view(bytes);
            lemma_be_u64_value_of_bytes(value.0);
            assert(after.subrange(1, 9) =~= be_bytes_u64(value.0));
            assert(after.subrange(9, 17) =~= before.subrange(9, 17));
            assert(after.subrange(17, 21) =~= before.subrange(17, 21));
            assert(after.subrange(21, 25) =~= before.subrange(21, 25));
        }
        Self { bytes }
    }

    /// Setter for the `sender_id` field.
    pub fn set_sender_id(self, value: ChannelId) -> (written: Self)
        ensures
            written@ == (FrameView::ChannelAccept {
                receiver_id: self@.receiver_id(),
                sender_id: value.0,
                frame_credit: self@.frame_credit(),
                byte_credit: self@.byte_credit(),
            }),
            written.wire().len() == self.wire().len(),
    {
        proof {
            use_type_invariant(&self);
        }
        let ghost before = bytes_view(self.bytes);
        let bytes = with_fixed(self.bytes, 9, value.to_bytes().as_slice());
        proof {
            let after = bytes_view(bytes);
            lemma_be_u64_value_of_bytes(value.0);
            assert(after.subrange(1, 9) =~= before.subrange(1, 9));
            assert(after.subrange(9, 17) =~= be_bytes_u64(value.0));
            assert(after.subrange(17, 21) =~= before.subrange(17, 21));
            assert(after.subrange(21, 25) =~= before.subrange(21, 25));
        }
        Self { bytes }
    }

    /// Setter for the `frame_credit` field.
    pub fn set_frame_credit(self, value: u32) -> (written: Self)
        ensures
            written@ == (FrameView::ChannelAccept {
                receiver_id: self@.receiver_id(),
                sender_id: self@.sender_id(),
                frame_credit: value,
                byte_credit: self@.byte_credit(),
            }),
            written.wire().len() == self.wire().len(),
    {
        proof {
            use_type_invariant(&self);
        }
        let ghost before = bytes_view(self.bytes);
        let bytes = with_fixed(self.bytes, 17, u32_to_be_bytes(value).as_slice());
        proof {
            let after = bytes_view(bytes);
            lemma_be_u32_value_of_bytes(value);
            assert(after.subrange(1, 9) =~= before.subrange(1, 9));
            assert(after.subrange(9, 17) =~= before.subrange(9, 17));
            assert(after.subrange(17, 21) =~= be_bytes_u32(value));
            assert(after.subrange(21, 25) =~= before.subrange(21, 25));
        }
        Self { bytes }
    }

    /// Setter for the `byte_credit` field.
    pub fn set_byte_credit(self, value: u32) -> (written: Self)
        ensures
            written@ == (FrameView::ChannelAccept {
                receiver_id: self@.receiver_id(),
                sender_id: self@.sender_id(),
                frame_credit: self@.frame_credit(),
                byte_credit: value,
            }),
            written.wire().len() == self.wire().len(),
    {
        proof {
            use_type_invariant(&self);
        }
        let ghost before = bytes_view(self.bytes);
        let bytes = with_fixed(self.bytes, 21, u32_to_be_bytes(value).as_slice());
        proof {
            let after = bytes_view(bytes);
            lemma_be_u32_value_of_bytes(value);
            assert(after.subrange(1, 9) =~= before.subrange(1, 9));
            assert(after.subrange(9, 17) =~= before.subrange(9, 17));
            assert(after.subrange(17, 21) =~= before.subrange(17, 21));
            assert(after.subrange(21, 25) =~= be_bytes_u32(value));
        }
        Self { bytes }
    }

}

/// Reject a request to open a new channel.
pub struct FrameChannelReject {
    bytes: Bytes,
}

impl View for FrameChannelReject {
    type V = FrameView;

    open spec fn view(&self) -> FrameView {
        FrameView::ChannelReject {
            receiver_id: be_value_u64(self.wire().subrange(1, 9)),
            reason: self.wire().skip(9),
        }
    }
}

impl FrameChannelReject {
    /// Tag used to identify the respective frames.
    pub const FRAME_TAG: u8 = TAG_CHANNEL_REJECT;

    /// Offset of the `receiver_id` field.
    pub const FIELD_RECEIVER_ID_OFFSET: usize = 1;

    /// Offset of the `reason` field.
    pub const FIELD_REASON_OFFSET: usize = 9;

    /// Minimal size of the frame.
    pub const MIN_FRAME_SIZE: usize = 9;

    #[verifier::type_invariant]
    spec fn well_formed(self) -> bool {
        bytes_view(self.bytes).len() >= 9 && bytes_view(self.bytes)[0] == TAG_CHANNEL_REJECT
    }

    /// The bytes of the frame as they go over the wire.
    pub closed spec fn wire(&self) -> Seq<u8> {
        bytes_view(self.bytes)
    }

    /// Create a new frame of the respective type.
    pub fn new(receiver_id: ChannelId, reason: &[u8]) -> (frame: Self)
        requires
            reason@.len() + 9 <= usize::MAX,
        ensures
            frame@ == (FrameView::ChannelReject {
                receiver_id: receiver_id.0,
                reason: reason@,
            }),
            frame.wire() == encode_frame(frame@),
    {
        let mut bytes = bytes_mut_with_capacity(9 + reason.len());
        bytes_mut_put_u8(&mut bytes, TAG_CHANNEL_REJECT);
        bytes_mut_put_slice(&mut bytes, receiver_id.to_bytes().as_slice());
        bytes_mut_put_slice(&mut bytes, reason);
        let bytes = bytes_mut_freeze(bytes);
        proof {
            let frame = (FrameView::ChannelReject {
                receiver_id: receiver_id.0,
                reason: reason@,
            });
            lemma_parse_encode(frame);
            assert(bytes_view(bytes) =~= encode_frame(frame));
        }
        Self { bytes }
    }

    /// Construct a frame from raw bytes that start with the tag of the kind
    /// and hold its fixed-size fields.
    pub fn from_raw_bytes(bytes: Bytes) -> (frame: Self)
        requires
            bytes_view(bytes).len() >= 9,
            bytes_view(bytes)[0] == TAG_CHANNEL_REJECT,
        ensures
            frame.wire() == bytes_view(bytes),
    {
        Self { bytes }
    }

    /// Length of the frame.
    pub fn len(&self) -> (len: usize)
        ensures
            len == self.wire().len(),
            len >= 9,
    {
        proof {
            use_type_invariant(self);
        }
        bytes_len(&self.bytes)
    }

    /// Byte representation of the frame.
    pub fn as_bytes(&self) -> (bytes: &[u8])
        ensures
            bytes@ == self.wire(),
            parse_frame(bytes@) == Ok::<FrameView, InvalidFrameError>(self@),
    {
        proof {
            use_type_invariant(self);
        }
        bytes_as_slice(&self.bytes)
    }

    /// The buffer that holds the frame.
    pub fn into_bytes(self) -> (bytes: Bytes)
        ensures
            bytes_view(bytes) == self.wire(),
            parse_frame(bytes_view(bytes)) == Ok::<FrameView, InvalidFrameError>(self@),
    {
        proof {
            use_type_invariant(&self);
        }
        self.bytes
    }

    /// Channel id at the receiver of the frame.
    pub fn receiver_id(&self) -> (receiver_id: ChannelId)
        ensures
            receiver_id.0 == self@.receiver_id(),
    {
        proof {
            use_type_invariant(self);
        }
        ChannelId(field_u64(&self.bytes, 1))
    }

    /// The reason why the request has been rejected.
    pub fn reason(&self) -> (reason: &[u8])
        ensures
            reason@ == self@.tail(),
    {
        proof {
            use_type_invariant(self);
        }
        field_tail(&self.bytes, 9)
    }

    /// Setter for the `receiver_id` field.
    pub fn set_receiver_id(self, value: ChannelId) -> (written: Self)
        ensures
            written@ == (FrameView::ChannelReject {
                receiver_id: value.0,
                reason: self@.tail(),
            }),
            written.wire().len() == self.wire().len(),
    {
        proof {
            use_type_invariant(&self);
        }
        let ghost before = bytes_view(self.bytes);
        let bytes = with_fixed(self.bytes, 1, value.to_bytes().as_slice());
        proof {
            let after = bytes_view(bytes);
            lemma_be_u64_value_of_bytes(value.0);
            assert(after.subrange(1, 9) =~= be_bytes_u64(value.0));
            assert(after.skip(9) =~= before.skip(9));
        }
        Self { bytes }
    }

    /// Setter for the `reason` field.
    pub fn set_reason(self, value: &[u8]) -> (written: Self)
        requires
            value@.len() + 9 <= usize::MAX,
        ensures
            written@ == (FrameView::ChannelReject {
                receiver_id: self@.receiver_id(),
                reason: value@,
            }),
            written.wire() == self.wire().take(9) + value@,
    {
        proof {
            use_type_invariant(&self);
        }
        let ghost before = bytes_view(self.bytes);
        let bytes = with_tail(self.bytes, 9, value);
        proof {
            let after = bytes_view(bytes);
            assert(after.subrange(1, 9) =~= before.subrange(1, 9));
            assert(after.skip(9) =~= value@);
        }
        Self { bytes }
    }

}

/// Channel data.
pub struct FrameChannelData {
    bytes: Bytes,
}

impl View for FrameChannelData {
    type V = FrameView;

    open spec fn view(&self) -> FrameView {
        FrameView::ChannelData {
            receiver_id: be_value_u64(self.wire().subrange(1, 9)),
            payload: self.wire().skip(9),
        }
    }
}

impl FrameChannelData {
    /// Tag used to identify the respective frames.
    pub const FRAME_TAG: u8 = TAG_CHANNEL_DATA;

    /// Offset of the `receiver_id` field.
    pub const FIELD_RECEIVER_ID_OFFSET: usize = 1;

    /// Offset of the `payload` field.
    pub const FIELD_PAYLOAD_OFFSET: usize = 9;

    /// Minimal size of the frame.
    pub const MIN_FRAME_SIZE: usize = 9;

    #[verifier::type_invariant]
    spec fn well_formed(self) -> bool {
        bytes_view(self.bytes).len() >= 9 && bytes_view(self.bytes)[0] == TAG_CHANNEL_DATA
    }

    /// The bytes of the frame as they go over the wire.
    pub closed spec fn wire(&self) -> Seq<u8> {
        bytes_view(self.bytes)
    }

    /// Create a new frame of the respective type.
    pub fn new(receiver_id: ChannelId, payload: &[u8]) -> (frame: Self)
        requires
            payload@.len() + 9 <= usize::MAX,
        ensures
            frame@ == (FrameView::ChannelData {
                receiver_id: receiver_id.0,
                payload: payload@,
            }),
            frame.wire() == encode_frame(frame@),
    {
        let mut bytes = bytes_mut_with_capacity(9 + payload.len());
        bytes_mut_put_u8(&mut bytes, TAG_CHANNEL_DATA);
        bytes_mut_put_slice(&mut bytes, receiver_id.to_bytes().as_slice());
        bytes_mut_put_slice(&mut bytes, payload);
        let bytes = bytes_mut_freeze(bytes);
        proof {
            let frame = (FrameView::ChannelData {
                receiver_id: receiver_id.0,
                payload: payload@,
            });
            lemma_parse_encode(frame);
            assert(bytes_view(bytes) =~= encode_frame(frame));
        }
        Self { bytes }
    }

    /// Construct a frame from raw bytes that start with the tag of the kind
    /// and hold its fixed-size fields.
    pub fn from_raw_bytes(bytes: Bytes) -> (frame: Self)
        requires
            bytes_view(bytes).len() >= 9,
            bytes_view(bytes)[0] == TAG_CHANNEL_DATA,
        ensures
            frame.wire() == bytes_view(bytes),
    {
        Self { bytes }
    }

    /// Length of the frame.
    pub fn len(&self) -> (len: usize)
        ensures
            len == self.wire().len(),
            len >= 9,
    {
        proof {
            use_type_invariant(self);
        }
        bytes_len(&self.bytes)
    }

    /// Byte representation of the frame.
    pub fn as_bytes(&self) -> (bytes: &[u8])
        ensures
            bytes@ == self.wire(),
            parse_frame(bytes@) == Ok::<FrameView, InvalidFrameError>(self@),
    {
        proof {
            use_type_invariant(self);
        }
        bytes_as_slice(&self.bytes)
    }

    /// The buffer that holds the frame.
    pub fn into_bytes(self) -> (bytes: Bytes)
        ensures
            bytes_view(bytes) == self.wire(),
            parse_frame(bytes_view(bytes)) == Ok::<FrameView, InvalidFrameError>(self@),
    {
        proof {
            use_type_invariant(&self);
        }
        self.bytes
    }

    /// Channel id at the receiver of the frame.
    pub fn receiver_id(&self) -> (receiver_id: ChannelId)
        ensures
            receiver_id.0 == self@.receiver_id(),
    {
        proof {
            use_type_invariant(self);
        }
        ChannelId(field_u64(&self.bytes, 1))
    }

    /// Payload of the frame.
    pub fn payload(&self) -> (payload: &[u8])
        ensures
            payload@ == self@.tail(),
    {
        proof {
            use_type_invariant(self);
        }
        field_tail(&self.bytes, 9)
    }

    /// Setter for the `receiver_id` field.
    pub fn set_receiver_id(self, value: ChannelId) -> (written: Self)
        ensures
            written@ == (FrameView::ChannelData {
                receiver_id: value.0,
                payload: self@.tail(),
            }),
            written.wire().len() == self.wire().len(),
    {
        proof {
            use_type_invariant(&self);
        }
        let ghost before = bytes_view(self.bytes);
        let bytes = with_fixed(self.bytes, 1, value.to_bytes().as_slice());
        proof {
            let after = bytes_view(bytes);
            lemma_be_u64_value_of_bytes(value.0);
            assert(after.subrange(1, 9) =~= be_bytes_u64(value.0));
            assert(after.skip(9) =~= before.skip(9));
        }
        Self { bytes }
    }

    /// Setter for the `payload` field.
    pub fn set_payload(self, value: &[u8]) -> (written: Self)
        requires
            value@.len() + 9 <= usize::MAX,
        ensures
            written@ == (FrameView::ChannelData {
                receiver_id: self@.receiver_id(),
                payload: value@,
            }),
            written.wire() == self.wire().take(9) + value@,
    {
        proof {
            use_type_invariant(&self);
        }
        let ghost before = bytes_view(self.bytes);
        let bytes = with_tail(self.bytes, 9, value);
        proof {
            let after = bytes_view(bytes);
            assert(after.subrange(1, 9) =~= before.subrange(1, 9));
            assert(after.skip(9) =~= value@);
        }
        Self { bytes }
    }

    /// Appends bytes to the payload in place.
    pub fn extend_payload(self, more: &[u8]) -> (extended: Self)
        requires
            self.wire().len() + more@.len() <= usize::MAX,
        ensures
            extended@ == (FrameView::ChannelData {
                receiver_id: self@.receiver_id(),
                payload: self@.tail() + more@,
            }),
            extended.wire() == self.wire() + more@,
    {
        proof {
            use_type_invariant(&self);
        }
        let ghost before = bytes_view(self.bytes);
        let mut buffer = bytes_mut_from(self.bytes);
        bytes_mut_put_slice(&mut buffer, more);
        let bytes = bytes_mut_freeze(buffer);
        proof {
            let after = bytes_view(bytes);
            assert(after.subrange(1, 9) =~= before.subrange(1, 9));
            assert(after.skip(9) =~= before.skip(9) + more@);
        }
        Self { bytes }
    }

    /// The payload as a buffer of its own that shares the memory of the
    /// frame.
    pub fn payload_bytes(&self) -> (payload: Bytes)
        ensures
            bytes_view(payload) == self@.tail(),
    {
        proof {
            use_type_invariant(self);
        }
        let mut whole = bytes_clone(&self.bytes);
        bytes_split_off(&mut whole, 9)
    }

}

/// Adjust the flow control credit of a channel.
pub struct FrameChannelAdjust {
    bytes: Bytes,
}

impl View for FrameChannelAdjust {
    type V = FrameView;

    open spec fn view(&self) -> FrameView {
        FrameView::ChannelAdjust {
            receiver_id: be_value_u64(self.wire().subrange(1, 9)),
            frame_credit: be_value_u32(self.wire().subrange(9, 13)),
            byte_credit: be_value_u32(self.wire().subrange(13, 17)),
        }
    }
}

impl FrameChannelAdjust {
    /// Tag used to identify the respective frames.
    pub const FRAME_TAG: u8 = TAG_CHANNEL_ADJUST;

    /// Offset of the `receiver_id` field.
    pub const FIELD_RECEIVER_ID_OFFSET: usize = 1;

    /// Offset of the `frame_credit` field.
    pub const FIELD_FRAME_CREDIT_OFFSET: usize = 9;

    /// Offset of the `byte_credit` field.
    pub const FIELD_BYTE_CREDIT_OFFSET: usize = 13;

    /// Minimal size of the frame.
    pub const MIN_FRAME_SIZE: usize = 17;

    #[verifier::type_invariant]
    spec fn well_formed(self) -> bool {
        bytes_view(self.bytes).len() >= 17 && bytes_view(self.bytes)[0] == TAG_CHANNEL_ADJUST
    }

    /// The bytes of the frame as they go over the wire.
    pub closed spec fn wire(&self) -> Seq<u8> {
        bytes_view(self.bytes)
    }

    /// Create a new frame of the respective type.
    pub fn new(receiver_id: ChannelId, frame_credit: u32, byte_credit: u32) -> (frame: Self)
        ensures
            frame@ == (FrameView::ChannelAdjust {
                receiver_id: receiver_id.0,
                frame_credit: frame_credit,
                byte_credit: byte_credit,
            }),
            frame.wire() == encode_frame(frame@),
    {
        let mut bytes = bytes_mut_with_capacity(17);
        bytes_mut_put_u8(&mut bytes, TAG_CHANNEL_ADJUST);
        bytes_mut_put_slice(&mut bytes, receiver_id.to_bytes().as_slice());
        bytes_mut_put_slice(&mut bytes, u32_to_be_bytes(frame_credit).as_slice());
        bytes_mut_put_slice(&mut bytes, u32_to_be_bytes(byte_credit).as_slice());
        let bytes = bytes_mut_freeze(bytes);
        proof {
            let frame = (FrameView::ChannelAdjust {
                receiver_id: receiver_id.0,
                frame_credit: frame_credit,
                byte_credit: byte_credit,
            });
            lemma_parse_encode(frame);
            assert(bytes_view(bytes) =~= encode_frame(frame));
        }
        Self { bytes }
    }

    /// Construct a frame from raw bytes that start with the tag of the kind
    /// and hold its fixed-size fields.
    pub fn from_raw_bytes(bytes: Bytes) -> (frame: Self)
        requires
            bytes_view(bytes).len() >= 17,
            bytes_view(bytes)[0] == TAG_CHANNEL_ADJUST,
        ensures
            frame.wire() == bytes_view(bytes),
    {
        Self { bytes }
    }

    /// Length of the frame.
    pub fn len(&self) -> (len: usize)
        ensures
            len == self.wire().len(),
            len >= 17,
    {
        proof {
            use_type_invariant(self);
        }
        bytes_len(&self.bytes)
    }

    /// Byte representation of the frame.
    pub fn as_bytes(&self) -> (bytes: &[u8])
        ensures
            bytes@ == self.wire(),
            parse_frame(bytes@) == Ok::<FrameView, InvalidFrameError>(self@),
    {
        proof {
            use_type_invariant(self);
        }
        bytes_as_slice(&self.bytes)
    }

    /// The buffer that holds the frame.
    pub fn into_bytes(self) -> (bytes: Bytes)
        ensures
            bytes_view(bytes) == self.wire(),
            parse_frame(bytes_view(bytes)) == Ok::<FrameView, InvalidFrameError>(self@),
    {
        proof {
            use_type_invariant(&self);
        }
        self.bytes
    }

    /// Channel id at the receiver of the frame.
    pub fn receiver_id(&self) -> (receiver_id: ChannelId)
        ensures
            receiver_id.0 == self@.receiver_id(),
    {
        proof {
            use_type_invariant(self);
        }
        ChannelId(field_u64(&self.bytes, 1))
    }

    /// Flow control credit to add for frames.
    pub fn frame_credit(&self) -> (frame_credit: u32)
        ensures
            frame_credit == self@.frame_credit(),
    {
        proof {
            use_type_invariant(self);
        }
        field_u32(&self.bytes, 9)
    }

    /// Flow control credit to add for bytes.
    pub fn byte_credit(&self) -> (byte_credit: u32)
        ensures
            byte_credit == self@.byte_credit(),
    {
        proof {
            use_type_invariant(self);
        }
        field_u32(&self.bytes, 13)
    }

    /// Setter for the `receiver_id` field.
    pub fn set_receiver_id(self, value: ChannelId) -> (written: Self)
        ensures
            written@ == (FrameView::ChannelAdjust {
                receiver_id: value.0,
                frame_credit: self@.frame_credit(),
                byte_credit: self@.byte_credit(),
            }),
            written.wire().len() == self.wire().len(),
    {
        proof {
            use_type_invariant(&self);
        }
        let ghost before = bytes_view(self.bytes);
        let bytes = with_fixed(self.bytes, 1, value.to_bytes().as_slice());
        proof {
            let after = bytes_view(bytes);
            lemma_be_u64_value_of_bytes(value.0);
            assert(after.subrange(1, 9) =~= be_bytes_u64(value.0));
            assert(after.subrange(9, 13) =~= before.subrange(9, 13));
            assert(after.subrange(13, 17) =~= before.subrange(13, 17));
        }
        Self { bytes }
    }

    /// Setter for the `frame_credit` field.
    pub fn set_frame_credit(self, value: u32) -> (written: Self)
        ensures
            written@ == (FrameView::ChannelAdjust {
                receiver_id: self@.receiver_id(),
                frame_credit: value,
                byte_credit: self@.byte_credit(),
            }),
            written.wire().len() == self.wire().len(),
    {
        proof {
            use_type_invariant(&self);
        }
        let ghost before = bytes_view(self.bytes);
        let bytes = with_fixed(self.bytes, 9, u32_to_be_bytes(value).as_slice());
        proof {
            let after = bytes_view(bytes);
            lemma_be_u32_value_of_bytes(value);
            assert(after.subrange(1, 9) =~= before.subrange(1, 9));
            assert(after.subrange(9, 13) =~= be_bytes_u32(value));
            assert(after.subrange(13, 17) =~= before.subrange(13, 17));
        }
        Self { bytes }
    }

    /// Setter for the `byte_credit` field.
    pub fn set_byte_credit(self, value: u32) -> (written: Self)
        ensures
            written@ == (FrameView::ChannelAdjust {
                receiver_id: self@.receiver_id(),
                frame_credit: self@.frame_credit(),
                byte_credit: value,
            }),
            written.wire().len() == self.wire().len(),
    {
        proof {
            use_type_invariant(&self);
        }
        let ghost before = bytes_view(self.bytes);
        let bytes = with_fixed(self.bytes, 13, u32_to_be_bytes(value).as_slice());
        proof {
            let after = bytes_view(bytes);
            lemma_be_u32_value_of_bytes(value);
            assert(after.subrange(1, 9) =~= before.subrange(1, 9));
            assert(after.subrange(9, 13) =~= before.subrange(9, 13));
            assert(after.subrange(13, 17) =~= be_bytes_u32(value));
        }
        Self { bytes }
    }

}

/// Close a channel.
pub struct FrameChannelClose {
    bytes: Bytes,
}

impl View for FrameChannelClose {
    type V = FrameView;

    open spec fn view(&self) -> FrameView {
        FrameView::ChannelClose {
            receiver_id: be_value_u64(self.wire().subrange(1, 9)),
            reason: self.wire().skip(9),
        }
    }
}

impl FrameChannelClose {
    /// Tag used to identify the respective frames.
    pub const FRAME_TAG: u8 = TAG_CHANNEL_CLOSE;

    /// Offset of the `receiver_id` field.
    pub const FIELD_RECEIVER_ID_OFFSET: usize = 1;

    /// Offset of the `reason` field.
    pub const FIELD_REASON_OFFSET: usize = 9;

    /// Minimal size of the frame.
    pub const MIN_FRAME_SIZE: usize = 9;

    #[verifier::type_invariant]
    spec fn well_formed(self) -> bool {
        bytes_view(self.bytes).len() >= 9 && bytes_view(self.bytes)[0] == TAG_CHANNEL_CLOSE
    }

    /// The bytes of the frame as they go over the wire.
    pub closed spec fn wire(&self) -> Seq<u8> {
        bytes_view(self.bytes)
    }

    /// Create a new frame of the respective type.
    pub fn new(receiver_id: ChannelId, reason: &[u8]) -> (frame: Self)
        requires
            reason@.len() + 9 <= usize::MAX,
        ensures
            frame@ == (FrameView::ChannelClose {
                receiver_id: receiver_id.0,
                reason: reason@,
            }),
            frame.wire() == encode_frame(frame@),
    {
        let mut bytes = bytes_mut_with_capacity(9 + reason.len());
        bytes_mut_put_u8(&mut bytes, TAG_CHANNEL_CLOSE);
        bytes_mut_put_slice(&mut bytes, receiver_id.to_bytes().as_slice());
        bytes_mut_put_slice(&mut bytes, reason);
        let bytes = bytes_mut_freeze(bytes);
        proof {
            let frame = (FrameView::ChannelClose {
                receiver_id: receiver_id.0,
                reason: reason@,
            });
            lemma_parse_encode(frame);
            assert(bytes_view(bytes) =~= encode_frame(frame));
        }
        Self { bytes }
    }

    /// Construct a frame from raw bytes that start with the tag of the kind
    /// and hold its fixed-size fields.
    pub fn from_raw_bytes(bytes: Bytes) -> (frame: Self)
        requires
            bytes_view(bytes).len() >= 9,
            bytes_view(bytes)[0] == TAG_CHANNEL_CLOSE,
        ensures
            frame.wire() == bytes_view(bytes),
    {
        Self { bytes }
    }

    /// Length of the frame.
    pub fn len(&self) -> (len: usize)
        ensures
            len == self.wire().len(),
            len >= 9,
    {
        proof {
            use_type_invariant(self);
        }
        bytes_len(&self.bytes)
    }

    /// Byte representation of the frame.
    pub fn as_bytes(&self) -> (bytes: &[u8])
        ensures
            bytes@ == self.wire(),
            parse_frame(bytes@) == Ok::<FrameView, InvalidFrameError>(self@),
    {
        proof {
            use_type_invariant(self);
        }
        bytes_as_slice(&self.bytes)
    }

    /// The buffer that holds the frame.
    pub fn into_bytes(self) -> (bytes: Bytes)
        ensures
            bytes_view(bytes) == self.wire(),
            parse_frame(bytes_view(bytes)) == Ok::<FrameView, InvalidFrameError>(self@),
    {
        proof {
            use_type_invariant(&self);
        }
        self.bytes
    }

    /// Channel id at the receiver of the frame.
    pub fn receiver_id(&self) -> (receiver_id: ChannelId)
        ensures
            receiver_id.0 == self@.receiver_id(),
    {
        proof {
            use_type_invariant(self);
        }
        ChannelId(field_u64(&self.bytes, 1))
    }

    /// The reason why the channel should be closed.
    pub fn reason(&self) -> (reason: &[u8])
        ensures
            reason@ == self@.tail(),
    {
        proof {
            use_type_invariant(self);
        }
        field_tail(&self.bytes, 9)
    }

    /// Setter for the `receiver_id` field.
    pub fn set_receiver_id(self, value: ChannelId) -> (written: Self)
        ensures
            written@ == (FrameView::ChannelClose {
                receiver_id: value.0,
                reason: self@.tail(),
            }),
            written.wire().len() == self.wire().len(),
    {
        proof {
            use_type_invariant(&self);
        }
        let ghost before = bytes_view(self.bytes);
        let bytes = with_fixed(self.bytes, 1, value.to_bytes().as_slice());
        proof {
            let after = bytes_view(bytes);
            lemma_be_u64_value_of_bytes(value.0);
            assert(after.subrange(1, 9) =~= be_bytes_u64(value.0));
            assert(after.skip(9) =~= before.skip(9));
        }
        Self { bytes }
    }

    /// Setter for the `reason` field.
    pub fn set_reason(self, value: &[u8]) -> (written: Self)
        requires
            value@.len() + 9 <= usize::MAX,
        ensures
            written@ == (FrameView::ChannelClose {
                receiver_id: self@.receiver_id(),
                reason: value@,
            }),
            written.wire() == self.wire().take(9) + value@,
    {
        proof {
            use_type_invariant(&self);
        }
        let ghost before = bytes_view(self.bytes);
        let bytes = with_tail(self.bytes, 9, value);
        proof {
            let after = bytes_view(bytes);
            assert(after.subrange(1, 9) =~= before.subrange(1, 9));
            assert(after.skip(9) =~= value@);
        }
        Self { bytes }
    }

}

/// Indicate that the sending end of a channel has been closed.
pub struct FrameChannelClosed {
    bytes: Bytes,
}

impl View for FrameChannelClosed {
    type V = FrameView;

    open spec fn view(&self) -> FrameView {
        FrameView::ChannelClosed {
            receiver_id: be_value_u64(self.wire().subrange(1, 9)),
            reason: self.wire().skip(9),
        }
    }
}

impl FrameChannelClosed {
    /// Tag used to identify the respective frames.
    pub const FRAME_TAG: u8 = TAG_CHANNEL_CLOSED;

    /// Offset of the `receiver_id` field.
    pub const FIELD_RECEIVER_ID_OFFSET: usize = 1;

    /// Offset of the `reason` field.
    pub const FIELD_REASON_OFFSET: usize = 9;

    /// Minimal size of the frame.
    pub const MIN_FRAME_SIZE: usize = 9;

    #[verifier::type_invariant]
    spec fn well_formed(self) -> bool {
        bytes_view(self.bytes).len() >= 9 && bytes_view(self.bytes)[0] == TAG_CHANNEL_CLOSED
    }

    /// The bytes of the frame as they go over the wire.
    pub closed spec fn wire(&self) -> Seq<u8> {
        bytes_view(self.bytes)
    }

    /// Create a new frame of the respective type.
    pub fn new(receiver_id: ChannelId, reason: &[u8]) -> (frame: Self)
        requires
            reason@.len() + 9 <= usize::MAX,
        ensures
            frame@ == (FrameView::ChannelClosed {
                receiver_id: receiver_id.0,
                reason: reason@,
            }),
            frame.wire() == encode_frame(frame@),
    {
        let mut bytes = bytes_mut_with_capacity(9 + reason.len());
        bytes_mut_put_u8(&mut bytes, TAG_CHANNEL_CLOSED);
        bytes_mut_put_slice(&mut bytes, receiver_id.to_bytes().as_slice());
        bytes_mut_put_slice(&mut bytes, reason);
        let bytes = bytes_mut_freeze(bytes);
        proof {
            let frame = (FrameView::ChannelClosed {
                receiver_id: receiver_id.0,
                reason: reason@,
            });
            lemma_parse_encode(frame);
            assert(bytes_view(bytes) =~= encode_frame(frame));
        }
        Self { bytes }
    }

    /// Construct a frame from raw bytes that start with the tag of the kind
    /// and hold its fixed-size fields.
    pub fn from_raw_bytes(bytes: Bytes) -> (frame: Self)
        requires
            bytes_view(bytes).len() >= 9,
            bytes_view(bytes)[0] == TAG_CHANNEL_CLOSED,
        ensures
            frame.wire() == bytes_view(bytes),
    {
        Self { bytes }
    }

    /// Length of the frame.
    pub fn len(&self) -> (len: usize)
        ensures
            len == self.wire().len(),
            len >= 9,
    {
        proof {
            use_type_invariant(self);
        }
        bytes_len(&self.bytes)
    }

    /// Byte representation of the frame.
    pub fn as_bytes(&self) -> (bytes: &[u8])
        ensures
            bytes@ == self.wire(),
            parse_frame(bytes@) == Ok::<FrameView, InvalidFrameError>(self@),
    {
        proof {
            use_type_invariant(self);
        }
        bytes_as_slice(&self.bytes)
    }

    /// The buffer that holds the frame.
    pub fn into_bytes(self) -> (bytes: Bytes)
        ensures
            bytes_view(bytes) == self.wire(),
            parse_frame(bytes_view(bytes)) == Ok::<FrameView, InvalidFrameError>(self@),
    {
        proof {
            use_type_invariant(&self);
        }
        self.bytes
    }

    /// Channel id at the receiver of the frame.
    pub fn receiver_id(&self) -> (receiver_id: ChannelId)
        ensures
            receiver_id.0 == self@.receiver_id(),
    {
        proof {
            use_type_invariant(self);
        }
        ChannelId(field_u64(&self.bytes, 1))
    }

    /// The reason why the channel has been closed.
    pub fn reason(&self) -> (reason: &[u8])
        ensures
            reason@ == self@.tail(),
    {
        proof {
            use_type_invariant(self);
        }
        field_tail(&self.bytes, 9)
    }

    /// Setter for the `receiver_id` field.
    pub fn set_receiver_id(self, value: ChannelId) -> (written: Self)
        ensures
            written@ == (FrameView::ChannelClosed {
                receiver_id: value.0,
                reason: self@.tail(),
            }),
            written.wire().len() == self.wire().len(),
    {
        proof {
            use_type_invariant(&self);
        }
        let ghost before = bytes_view(self.bytes);
        let bytes = with_fixed(self.bytes, 1, value.to_bytes().as_slice());
        proof {
            let after = bytes_view(bytes);
            lemma_be_u64_value_of_bytes(value.0);
            assert(after.subrange(1, 9) =~= be_bytes_u64(value.0));
            assert(after.skip(9) =~= before.skip(9));
        }
        Self { bytes }
    }

    /// Setter for the `reason` field.
    pub fn set_reason(self, value: &[u8]) -> (written: Self)
        requires
            value@.len() + 9 <= usize::MAX,
        ensures
            written@ == (FrameView::ChannelClosed {
                receiver_id: self@.receiver_id(),
                reason: value@,
            }),
            written.wire() == self.wire().take(9) + value@,
    {
        proof {
            use_type_invariant(&self);
        }
        let ghost before = bytes_view(self.bytes);
        let bytes = with_tail(self.bytes, 9, value);
        proof {
            let after = bytes_view(bytes);
            assert(after.subrange(1, 9) =~= before.subrange(1, 9));
            assert(after.skip(9) =~= value@);
        }
        Self { bytes }
    }

}

/// Ping used for measuring the round-trip time.
pub struct FramePing {
    bytes: Bytes,
}

impl View for FramePing {
    type V = FrameView;

    open spec fn view(&self) -> FrameView {
        FrameView::Ping
    }
}

impl FramePing {
    /// Tag used to identify the respective frames.
    pub const FRAME_TAG: u8 = TAG_PING;

    /// Minimal size of the frame.
    pub const MIN_FRAME_SIZE: usize = 1;

    #[verifier::type_invariant]
    spec fn well_formed(self) -> bool {
        bytes_view(self.bytes).len() >= 1 && bytes_view(self.bytes)[0] == TAG_PING
    }

    /// The bytes of the frame as they go over the wire.
    pub closed spec fn wire(&self) -> Seq<u8> {
        bytes_view(self.bytes)
    }

    /// Create a new frame of the respective type.
    pub fn new() -> (frame: Self)
        ensures
            frame@ == FrameView::Ping,
            frame.wire() == encode_frame(frame@),
    {
        let mut bytes = bytes_mut_with_capacity(1);
        bytes_mut_put_u8(&mut bytes, TAG_PING);
        let bytes = bytes_mut_freeze(bytes);
        proof {
            let frame = FrameView::Ping;
            lemma_parse_encode(frame);
            assert(bytes_view(bytes) =~= encode_frame(frame));
        }
        Self { bytes }
    }

    /// Construct a frame from raw bytes that start with the tag of the kind
    /// and hold its fixed-size fields.
    pub fn from_raw_bytes(bytes: Bytes) -> (frame: Self)
        requires
            bytes_view(bytes).len() >= 1,
            bytes_view(bytes)[0] == TAG_PING,
        ensures
            frame.wire() == bytes_view(bytes),
    {
        Self { bytes }
    }

    /// Length of the frame.
    pub fn len(&self) -> (len: usize)
        ensures
            len == self.wire().len(),
            len >= 1,
    {
        proof {
            use_type_invariant(self);
        }
        bytes_len(&self.bytes)
    }

    /// Byte representation of the frame.
    pub fn as_bytes(&self) -> (bytes: &[u8])
        ensures
            bytes@ == self.wire(),
            parse_frame(bytes@) == Ok::<FrameView, InvalidFrameError>(self@),
    {
        proof {
            use_type_invariant(self);
        }
        bytes_as_slice(&self.bytes)
    }

    /// The buffer that holds the frame.
    pub fn into_bytes(self) -> (bytes: Bytes)
        ensures
            bytes_view(bytes) == self.wire(),
            parse_frame(bytes_view(bytes)) == Ok::<FrameView, InvalidFrameError>(self@),
    {
        proof {
            use_type_invariant(&self);
        }
        self.bytes
    }

}

/// Pong used to measure the round-trip time.
pub struct FramePong {
    bytes: Bytes,
}

impl View for FramePong {
    type V = FrameView;

    open spec fn view(&self) -> FrameView {
        FrameView::Pong
    }
}

impl FramePong {
    /// Tag used to identify the respective frames.
    pub const FRAME_TAG: u8 = TAG_PONG;

    /// Minimal size of the frame.
    pub const MIN_FRAME_SIZE: usize = 1;

    #[verifier::type_invariant]
    spec fn well_formed(self) -> bool {
        bytes_view(self.bytes).len() >= 1 && bytes_view(self.bytes)[0] == TAG_PONG
    }

    /// The bytes of the frame as they go over the wire.
    pub closed spec fn wire(&self) -> Seq<u8> {
        bytes_view(self.bytes)
    }

    /// Create a new frame of the respective type.
    pub fn new() -> (frame: Self)
        ensures
            frame@ == FrameView::Pong,
            frame.wire() == encode_frame(frame@),
    {
        let mut bytes = bytes_mut_with_capacity(1);
        bytes_mut_put_u8(&mut bytes, TAG_PONG);
        let bytes = bytes_mut_freeze(bytes);
        proof {
            let frame = FrameView::Pong;
            lemma_parse_encode(frame);
            assert(bytes_view(bytes) =~= encode_frame(frame));
        }
        Self { bytes }
    }

    /// Construct a frame from raw bytes that start with the tag of the kind
    /// and hold its fixed-size fields.
    pub fn from_raw_bytes(bytes: Bytes) -> (frame: Self)
        requires
            bytes_view(bytes).len() >= 1,
            bytes_view(bytes)[0] == TAG_PONG,
        ensures
            frame.wire() == bytes_view(bytes),
    {
        Self { bytes }
    }

    /// Length of the frame.
    pub fn len(&self) -> (len: usize)
        ensures
            len == self.wire().len(),
            len >= 1,
    {
        proof {
            use_type_invariant(self);
        }
        bytes_len(&self.bytes)
    }

    /// Byte representation of the frame.
    pub fn as_bytes(&self) -> (bytes: &[u8])
        ensures
            bytes@ == self.wire(),
            parse_frame(bytes@) == Ok::<FrameView, InvalidFrameError>(self@),
    {
        proof {
            use_type_invariant(self);
        }
        bytes_as_slice(&self.bytes)
    }

    /// The buffer that holds the frame.
    pub fn into_bytes(self) -> (bytes: Bytes)
        ensures
            bytes_view(bytes) == self.wire(),
            parse_frame(bytes_view(bytes)) == Ok::<FrameView, InvalidFrameError>(self@),
    {
        proof {
            use_type_invariant(&self);
        }
        self.bytes
    }

}

/// A frame of any kind.
pub enum Frame {
    /// Initialize the connection.
    Hello(FrameHello),
    /// Close the connection.
    Close(FrameClose),
    /// Request to open a new channel.
    ChannelRequest(FrameChannelRequest),
    /// Accept a request to open a new channel.
    ChannelAccept(FrameChannelAccept),
    /// Reject a request to open a new channel.
    ChannelReject(FrameChannelReject),
    /// Channel data.
    ChannelData(FrameChannelData),
    /// Adjust the flow control credit of a channel.
    ChannelAdjust(FrameChannelAdjust),
    /// Close a channel.
    ChannelClose(FrameChannelClose),
    /// Indicate that the sending end of a channel has been closed.
    ChannelClosed(FrameChannelClosed),
    /// Ping used for measuring the round-trip time.
    Ping(FramePing),
    /// Pong used to measure the round-trip time.
    Pong(FramePong),
}

impl View for Frame {
    type V = FrameView;

    open spec fn view(&self) -> FrameView {
        match self {
            Frame::Hello(frame) => frame@,
            Frame::Close(frame) => frame@,
            Frame::ChannelRequest(frame) => frame@,
            Frame::ChannelAccept(frame) => frame@,
            Frame::ChannelReject(frame) => frame@,
            Frame::ChannelData(frame) => frame@,
            Frame::ChannelAdjust(frame) => frame@,
            Frame::ChannelClose(frame) => frame@,
            Frame::ChannelClosed(frame) => frame@,
            Frame::Ping(frame) => frame@,
            Frame::Pong(frame) => frame@,
        }
    }
}

impl Frame {
    /// The bytes of the frame as they go over the wire.
    pub open spec fn wire(&self) -> Seq<u8> {
        match self {
            Frame::Hello(frame) => frame.wire(),
            Frame::Close(frame) => frame.wire(),
            Frame::ChannelRequest(frame) => frame.wire(),
            Frame::ChannelAccept(frame) => frame.wire(),
            Frame::ChannelReject(frame) => frame.wire(),
            Frame::ChannelData(frame) => frame.wire(),
            Frame::ChannelAdjust(frame) => frame.wire(),
            Frame::ChannelClose(frame) => frame.wire(),
            Frame::ChannelClosed(frame) => frame.wire(),
            Frame::Ping(frame) => frame.wire(),
            Frame::Pong(frame) => frame.wire(),
        }
    }

    /// Byte representation of the frame.
    pub fn as_bytes(&self) -> (bytes: &[u8])
        ensures
            bytes@ == self.wire(),
            parse_frame(bytes@) == Ok::<FrameView, InvalidFrameError>(self@),
    {
        match self {
            Frame::Hello(frame) => frame.as_bytes(),
            Frame::Close(frame) => frame.as_bytes(),
            Frame::ChannelRequest(frame) => frame.as_bytes(),
            Frame::ChannelAccept(frame) => frame.as_bytes(),
            Frame::ChannelReject(frame) => frame.as_bytes(),
            Frame::ChannelData(frame) => frame.as_bytes(),
            Frame::ChannelAdjust(frame) => frame.as_bytes(),
            Frame::ChannelClose(frame) => frame.as_bytes(),
            Frame::ChannelClosed(frame) => frame.as_bytes(),
            Frame::Ping(frame) => frame.as_bytes(),
            Frame::Pong(frame) => frame.as_bytes(),
        }
    }

    /// The buffer that holds the frame, to be handed to the transport.
    pub fn into_bytes(self) -> (bytes: Bytes)
        ensures
            bytes_view(bytes) == self.wire(),
            parse_frame(bytes_view(bytes)) == Ok::<FrameView, InvalidFrameError>(self@),
    {
        match self {
            Frame::Hello(frame) => frame.into_bytes(),
            Frame::Close(frame) => frame.into_bytes(),
            Frame::ChannelRequest(frame) => frame.into_bytes(),
            Frame::ChannelAccept(frame) => frame.into_bytes(),
            Frame::ChannelReject(frame) => frame.into_bytes(),
            Frame::ChannelData(frame) => frame.into_bytes(),
            Frame::ChannelAdjust(frame) => frame.into_bytes(),
            Frame::ChannelClose(frame) => frame.into_bytes(),
            Frame::ChannelClosed(frame) => frame.into_bytes(),
            Frame::Ping(frame) => frame.into_bytes(),
            Frame::Pong(frame) => frame.into_bytes(),
        }
    }

    /// Parse a frame from one transport message. The message is kept as it
    /// is: the frame holds the very buffer that was handed in.
    pub fn parse(bytes: Bytes) -> (parsed: Result<Frame, InvalidFrameError>)
        ensures
            match parse_frame(bytes_view(bytes)) {
                Ok(view) => parsed is Ok && parsed->Ok_0@ == view && parsed->Ok_0.wire()
                    == bytes_view(bytes),
                Err(error) => parsed == Err::<Frame, InvalidFrameError>(error),
            },
    {
        let len = bytes_len(&bytes);
        if len == 0 {
            return Err(InvalidFrameError::InvalidLength(1));
        }
        let tag = bytes_as_slice(&bytes)[0];
        if tag == TAG_HELLO {
            if len < FrameHello::MIN_FRAME_SIZE {
                Err(InvalidFrameError::InvalidLength(FrameHello::MIN_FRAME_SIZE))
            } else {
                Ok(Frame::Hello(FrameHello::from_raw_bytes(bytes)))
            }
        } else if tag == TAG_CLOSE {
            if len < FrameClose::MIN_FRAME_SIZE {
                Err(InvalidFrameError::InvalidLength(FrameClose::MIN_FRAME_SIZE))
            } else {
                Ok(Frame::Close(FrameClose::from_raw_bytes(bytes)))
            }
        } else if tag == TAG_CHANNEL_REQUEST {
            if len < FrameChannelRequest::MIN_FRAME_SIZE {
                Err(InvalidFrameError::InvalidLength(FrameChannelRequest::MIN_FRAME_SIZE))
            } else {
                Ok(Frame::ChannelRequest(FrameChannelRequest::from_raw_bytes(bytes)))
            }
        } else if tag == TAG_CHANNEL_ACCEPT {
            if len < FrameChannelAccept::MIN_FRAME_SIZE {
                Err(InvalidFrameError::InvalidLength(FrameChannelAccept::MIN_FRAME_SIZE))
            } else {
                Ok(Frame::ChannelAccept(FrameChannelAccept::from_raw_bytes(bytes)))
            }
        } else if tag == TAG_CHANNEL_REJECT {
            if len < FrameChannelReject::MIN_FRAME_SIZE {
                Err(InvalidFrameError::InvalidLength(FrameChannelReject::MIN_FRAME_SIZE))
            } else {
                Ok(Frame::ChannelReject(FrameChannelReject::from_raw_bytes(bytes)))
            }
        } else if tag == TAG_CHANNEL_DATA {
            if len < FrameChannelData::MIN_FRAME_SIZE {
                Err(InvalidFrameError::InvalidLength(FrameChannelData::MIN_FRAME_SIZE))
            } else {
                Ok(Frame::ChannelData(FrameChannelData::from_raw_bytes(bytes)))
            }
        } else if tag == TAG_CHANNEL_ADJUST {
            if len < FrameChannelAdjust::MIN_FRAME_SIZE {
                Err(InvalidFrameError::InvalidLength(FrameChannelAdjust::MIN_FRAME_SIZE))
            } else {
                Ok(Frame::ChannelAdjust(FrameChannelAdjust::from_raw_bytes(bytes)))
            }
        } else if tag == TAG_CHANNEL_CLOSE {
            if len < FrameChannelClose::MIN_FRAME_SIZE {
                Err(InvalidFrameError::InvalidLength(FrameChannelClose::MIN_FRAME_SIZE))
            } else {
                Ok(Frame::ChannelClose(FrameChannelClose::from_raw_bytes(bytes)))
            }
        } else if tag == TAG_CHANNEL_CLOSED {
            if len < FrameChannelClosed::MIN_FRAME_SIZE {
                Err(InvalidFrameError::InvalidLength(FrameChannelClosed::MIN_FRAME_SIZE))
            } else {
                Ok(Frame::ChannelClosed(FrameChannelClosed::from_raw_bytes(bytes)))
            }
        } else if tag == TAG_PING {
            if len < FramePing::MIN_FRAME_SIZE {
                Err(InvalidFrameError::InvalidLength(FramePing::MIN_FRAME_SIZE))
            } else {
                Ok(Frame::Ping(FramePing::from_raw_bytes(bytes)))
            }
        } else if tag == TAG_PONG {
            if len < FramePong::MIN_FRAME_SIZE {
                Err(InvalidFrameError::InvalidLength(FramePong::MIN_FRAME_SIZE))
            } else {
                Ok(Frame::Pong(FramePong::from_raw_bytes(bytes)))
            }
        } else {
            Err(InvalidFrameError::InvalidTag(tag))
        }
    }
}

} // verus!
