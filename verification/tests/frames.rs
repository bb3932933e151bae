use bytes::Bytes;
use nexigon::multiplex::frames::add_optional_sizes;
use nexigon::multiplex::frames::ChannelId;
use nexigon::multiplex::frames::Frame;
use nexigon::multiplex::frames::FrameChannelAccept;
use nexigon::multiplex::frames::FrameChannelAdjust;
use nexigon::multiplex::frames::FrameChannelClose;
use nexigon::multiplex::frames::FrameChannelClosed;
use nexigon::multiplex::frames::FrameChannelData;
use nexigon::multiplex::frames::FrameChannelReject;
use nexigon::multiplex::frames::FrameChannelRequest;
use nexigon::multiplex::frames::FrameClose;
use nexigon::multiplex::frames::FrameHello;
use nexigon::multiplex::frames::FramePing;
use nexigon::multiplex::frames::FramePong;
use nexigon::multiplex::frames::PROTOCOL_MAGIC;
use nexigon::multiplex::sender::Chunk;
use nexigon::multiplex::wire::u16_from_be_bytes;
use nexigon::multiplex::wire::u16_to_be_bytes;
use nexigon::multiplex::wire::u32_from_be_bytes;
use nexigon::multiplex::wire::u32_to_be_bytes;
use nexigon::multiplex::wire::u64_from_be_bytes;
use nexigon::multiplex::wire::u64_to_be_bytes;
use nexigon::multiplex::wire::InvalidFrameError;

fn parse(bytes: &[u8]) -> Result<Frame, InvalidFrameError> {
    Frame::parse(Bytes::copy_from_slice(bytes))
}

fn error(bytes: &[u8]) -> InvalidFrameError {
    match parse(bytes) {
        Ok(_) => panic!("the message is no frame"),
        Err(error) => error,
    }
}

#[test]
fn integers_are_big_endian() {
    assert_eq!(u16_to_be_bytes(0x0102), [1, 2]);
    assert_eq!(u32_to_be_bytes(0x0809A0A1), [8, 9, 0xA0, 0xA1]);
    assert_eq!(
        u64_to_be_bytes(0x0102030405060708),
        [1, 2, 3, 4, 5, 6, 7, 8]
    );
    for value in [0u64, 1, 255, 256, 0xFFFF_FFFF, 0x1_0000_0000, u64::MAX] {
        assert_eq!(u64_to_be_bytes(value), value.to_be_bytes());
        assert_eq!(u64_from_be_bytes(&value.to_be_bytes()), value);
    }
    for value in [0u32, 1, 255, 256, 0xFFFF, 0x1_0000, u32::MAX] {
        assert_eq!(u32_to_be_bytes(value), value.to_be_bytes());
        assert_eq!(u32_from_be_bytes(&value.to_be_bytes()), value);
    }
    for value in [0u16, 1, 255, 256, u16::MAX] {
        assert_eq!(u16_to_be_bytes(value), value.to_be_bytes());
        assert_eq!(u16_from_be_bytes(&value.to_be_bytes()), value);
    }
    assert_eq!(ChannelId(0x0102).to_bytes(), [0, 0, 0, 0, 0, 0, 1, 2]);
    assert_eq!(ChannelId::from_bytes([0, 0, 0, 0, 0, 0, 1, 2]), ChannelId(0x0102));
    assert_eq!(ChannelId::null(), ChannelId(0));
}

#[test]
fn sizes_add_up_where_both_are_known() {
    assert_eq!(add_optional_sizes(Some(1), Some(8)), Some(9));
    assert_eq!(add_optional_sizes(Some(1), None), None);
    assert_eq!(add_optional_sizes(None, Some(8)), None);
    assert_eq!(add_optional_sizes(None, None), None);
}

#[test]
fn invalid_tag_and_length() {
    assert_eq!(error(&[]), InvalidFrameError::InvalidLength(1));
    assert_eq!(error(&[0x01]), InvalidFrameError::InvalidTag(0x01));
    assert_eq!(error(&[0x16, 0, 0]), InvalidFrameError::InvalidTag(0x16));
    assert_eq!(error(&[0x22]), InvalidFrameError::InvalidTag(0x22));
    assert_eq!(error(&[0x00; 16]), InvalidFrameError::InvalidLength(17));
    assert_eq!(error(&[0x10; 16]), InvalidFrameError::InvalidLength(17));
    assert_eq!(error(&[0x11; 24]), InvalidFrameError::InvalidLength(25));
    assert_eq!(error(&[0x12; 8]), InvalidFrameError::InvalidLength(9));
    assert_eq!(error(&[0x13; 8]), InvalidFrameError::InvalidLength(9));
    assert_eq!(error(&[0x14; 16]), InvalidFrameError::InvalidLength(17));
    assert_eq!(error(&[0x15; 8]), InvalidFrameError::InvalidLength(9));
    assert_eq!(error(&[0x17; 8]), InvalidFrameError::InvalidLength(9));
    assert!(parse(&[0xFF]).is_ok());
    assert!(parse(&[0x20]).is_ok());
    assert!(parse(&[0x21]).is_ok());
    assert!(parse(&[0x20, 1, 2, 3]).is_ok());
}

#[test]
fn hello_layout() {
    let frame = FrameHello::new(&PROTOCOL_MAGIC, b"agent");
    assert_eq!(frame.len(), 22);
    assert_eq!(frame.as_bytes()[0], 0x00);
    assert_eq!(&frame.as_bytes()[1..17], PROTOCOL_MAGIC);
    assert_eq!(PROTOCOL_MAGIC[0], 0x1B);
    assert_eq!(PROTOCOL_MAGIC[15], 0x8C);
    match parse(frame.as_bytes()).unwrap() {
        Frame::Hello(parsed) => {
            assert_eq!(parsed.magic(), PROTOCOL_MAGIC);
            assert_eq!(parsed.info(), b"agent");
        }
        _ => panic!("a hello frame"),
    }
    let other = frame.set_magic(&[7; 16]).set_info(b"x");
    assert_eq!(other.magic(), [7; 16]);
    assert_eq!(other.info(), b"x");
    assert_eq!(other.len(), 18);
}

#[test]
fn close_layout() {
    let frame = FrameClose::new(b"bye");
    assert_eq!(frame.as_bytes(), [0xFF, b'b', b'y', b'e']);
    match parse(frame.as_bytes()).unwrap() {
        Frame::Close(parsed) => assert_eq!(parsed.reason(), b"bye"),
        _ => panic!("a close frame"),
    }
    assert_eq!(frame.set_reason(b"").as_bytes(), [0xFF]);
}

#[test]
fn channel_request_layout() {
    let frame = FrameChannelRequest::new(ChannelId(0x0102), 128, 16384, b"echo");
    assert_eq!(
        frame.as_bytes(),
        [0x10, 0, 0, 0, 0, 0, 0, 1, 2, 0, 0, 0, 128, 0, 0, 0x40, 0, b'e', b'c', b'h', b'o']
    );
    match parse(frame.as_bytes()).unwrap() {
        Frame::ChannelRequest(parsed) => {
            assert_eq!(parsed.sender_id(), ChannelId(0x0102));
            assert_eq!(parsed.frame_credit(), 128);
            assert_eq!(parsed.byte_credit(), 16384);
            assert_eq!(parsed.endpoint(), b"echo");
        }
        _ => panic!("a request frame"),
    }
    let frame = frame
        .set_sender_id(ChannelId(u64::MAX))
        .set_byte_credit(1)
        .set_frame_credit(2)
        .set_endpoint(b"forward/tcp/8080");
    assert_eq!(frame.sender_id(), ChannelId(u64::MAX));
    assert_eq!(frame.frame_credit(), 2);
    assert_eq!(frame.byte_credit(), 1);
    assert_eq!(frame.endpoint(), b"forward/tcp/8080");
}

#[test]
fn channel_accept_layout() {
    let frame = FrameChannelAccept::new(ChannelId(1), ChannelId(2), 3, 4);
    assert_eq!(
        frame.as_bytes(),
        [0x11, 0, 0, 0, 0, 0, 0, 0, 1, 0, 0, 0, 0, 0, 0, 0, 2, 0, 0, 0, 3, 0, 0, 0, 4]
    );
    match parse(frame.as_bytes()).unwrap() {
        Frame::ChannelAccept(parsed) => {
            assert_eq!(parsed.receiver_id(), ChannelId(1));
            assert_eq!(parsed.sender_id(), ChannelId(2));
            assert_eq!(parsed.frame_credit(), 3);
            assert_eq!(parsed.byte_credit(), 4);
        }
        _ => panic!("an accept frame"),
    }
    let frame = frame.set_receiver_id(ChannelId(9)).set_sender_id(ChannelId(8));
    assert_eq!(frame.receiver_id(), ChannelId(9));
    assert_eq!(frame.sender_id(), ChannelId(8));
    assert_eq!(frame.frame_credit(), 3);
    assert_eq!(frame.len(), 25);
}

#[test]
fn channel_reject_data_close_closed_layout() {
    let reject = FrameChannelReject::new(ChannelId(5), b"go away");
    assert_eq!(reject.as_bytes()[0], 0x12);
    assert_eq!(reject.receiver_id(), ChannelId(5));
    assert_eq!(reject.reason(), b"go away");
    let data = FrameChannelData::new(ChannelId(5), b"payload");
    assert_eq!(data.as_bytes()[0], 0x13);
    assert_eq!(&data.as_bytes()[1..9], [0, 0, 0, 0, 0, 0, 0, 5]);
    assert_eq!(data.payload(), b"payload");
    assert_eq!(&data.payload_bytes()[..], b"payload");
    let data = data.extend_payload(b"+more").set_receiver_id(ChannelId(6));
    assert_eq!(data.payload(), b"payload+more");
    assert_eq!(data.receiver_id(), ChannelId(6));
    let data = data.set_payload(b"");
    assert_eq!(data.len(), 9);
    let close = FrameChannelClose::new(ChannelId(5), b"");
    assert_eq!(close.as_bytes(), [0x15, 0, 0, 0, 0, 0, 0, 0, 5]);
    assert_eq!(close.set_reason(b"x").reason(), b"x");
    let closed = FrameChannelClosed::new(ChannelId(5), b"done");
    assert_eq!(closed.as_bytes()[0], 0x17);
    assert_eq!(closed.reason(), b"done");
    assert_eq!(closed.receiver_id(), ChannelId(5));
}

#[test]
fn channel_adjust_layout() {
    let frame = FrameChannelAdjust::new(ChannelId(5), 0x01020304, 0x05060708);
    assert_eq!(
        frame.as_bytes(),
        [0x14, 0, 0, 0, 0, 0, 0, 0, 5, 1, 2, 3, 4, 5, 6, 7, 8]
    );
    match parse(frame.as_bytes()).unwrap() {
        Frame::ChannelAdjust(parsed) => {
            assert_eq!(parsed.receiver_id(), ChannelId(5));
            assert_eq!(parsed.frame_credit(), 0x01020304);
            assert_eq!(parsed.byte_credit(), 0x05060708);
        }
        _ => panic!("an adjust frame"),
    }
}

#[test]
fn ping_and_pong_layout() {
    assert_eq!(FramePing::new().as_bytes(), [0x20]);
    assert_eq!(FramePong::new().as_bytes(), [0x21]);
    assert!(matches!(parse(&[0x20]).unwrap(), Frame::Ping(_)));
    assert!(matches!(parse(&[0x21]).unwrap(), Frame::Pong(_)));
}

#[test]
fn every_kind_of_frame_is_parsed_back() {
    let frames = vec![
        Frame::Hello(FrameHello::new(&PROTOCOL_MAGIC, b"")),
        Frame::Close(FrameClose::new(b"reason")),
        Frame::ChannelRequest(FrameChannelRequest::new(ChannelId(1), 2, 3, b"e")),
        Frame::ChannelAccept(FrameChannelAccept::new(ChannelId(1), ChannelId(2), 3, 4)),
        Frame::ChannelReject(FrameChannelReject::new(ChannelId(1), b"r")),
        Frame::ChannelData(FrameChannelData::new(ChannelId(1), &[0, 255, 0x13])),
        Frame::ChannelAdjust(FrameChannelAdjust::new(ChannelId(1), 2, 3)),
        Frame::ChannelClose(FrameChannelClose::new(ChannelId(1), b"r")),
        Frame::ChannelClosed(FrameChannelClosed::new(ChannelId(1), b"r")),
        Frame::Ping(FramePing::new()),
        Frame::Pong(FramePong::new()),
    ];
    for frame in frames {
        let bytes = frame.as_bytes().to_vec();
        let parsed = parse(&bytes).unwrap();
        assert_eq!(
            std::mem::discriminant(&parsed),
            std::mem::discriminant(&frame)
        );
        assert_eq!(parsed.as_bytes(), &bytes[..]);
        assert_eq!(&parsed.into_bytes()[..], &bytes[..]);
    }
}

#[test]
fn parsing_keeps_the_buffer() {
    let message = Bytes::from_static(&[0x13, 0, 0, 0, 0, 0, 0, 0, 1, b'x']);
    let pointer = message.as_ptr();
    let frame = Frame::parse(message).unwrap();
    assert_eq!(frame.into_bytes().as_ptr(), pointer);
}

#[test]
fn chunk_is_the_payload_of_a_data_frame() {
    let chunk = Chunk::with_capacity(8);
    assert_eq!(chunk.as_slice(), b"");
    let chunk = chunk.extend(b"abc").extend(b"def");
    assert_eq!(chunk.as_slice(), b"abcdef");
    assert_eq!(&chunk.to_bytes()[..], b"abcdef");
    let frame = chunk.into_frame(ChannelId(3));
    assert_eq!(
        frame.as_bytes(),
        [0x13, 0, 0, 0, 0, 0, 0, 0, 3, b'a', b'b', b'c', b'd', b'e', b'f']
    );
    assert_eq!(Chunk::from_frame(frame).as_slice(), b"abcdef");
}
