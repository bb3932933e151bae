use bytes::Bytes;
use nexigon::multiplex::channel::Channel;
use nexigon::multiplex::channel::ChannelRequest;
use nexigon::multiplex::channel::ConnectionCmd;
use nexigon::multiplex::connection::CmdOutcome;
use nexigon::multiplex::connection::Connection;
use nexigon::multiplex::connection::ConnectionEvent;
use nexigon::multiplex::connection::Dispatch;
use nexigon::multiplex::connection::Incoming;
use nexigon::multiplex::error::ConnectionError;
use nexigon::multiplex::error::Rejection;
use nexigon::multiplex::error::TransportError;
use nexigon::multiplex::frames::ChannelId;
use nexigon::multiplex::frames::Frame;
use nexigon::multiplex::frames::FrameChannelAdjust;
use nexigon::multiplex::frames::FrameChannelClose;
use nexigon::multiplex::frames::FrameChannelData;
use nexigon::multiplex::frames::FramePong;
use nexigon::multiplex::poll::Poll;
use nexigon::multiplex::receiver::Receiver;
use nexigon::multiplex::receiver::CHANNEL_MAX_BYTE_CREDIT;
use nexigon::multiplex::receiver::CHANNEL_MAX_FRAME_CREDIT;
use nexigon::multiplex::sender::ChannelSendError;
use nexigon::multiplex::sender::Sender;
use nexigon::multiplex::sender::SenderShared;
use std::collections::VecDeque;
use nexigon::multiplex::sender::INITIAL_BYTE_CREDIT;

const MS: u64 = 1_000_000;

/// One end of a connection, with what the connection told its owner.
struct Peer {
    connection: Connection,
    connected: usize,
    closed: usize,
    requests: Vec<ChannelRequest>,
    opened: Vec<Channel>,
    rejected: Vec<Rejection>,
    woken_readers: usize,
    woken_writers: usize,
}

type Failure = ConnectionError<(), ()>;

impl Peer {
    fn new(id: u64) -> Self {
        Peer {
            connection: Connection::new(id),
            connected: 0,
            closed: 0,
            requests: Vec::new(),
            opened: Vec::new(),
            rejected: Vec::new(),
            woken_readers: 0,
            woken_writers: 0,
        }
    }

    /// Takes in one message from the transport and does what the connection
    /// decides.
    fn receive(&mut self, message: Bytes, now: u64) -> Result<(), Failure> {
        match self.connection.poll_event(Incoming::Message(message), now)? {
            Dispatch::Nothing => {}
            Dispatch::Event(ConnectionEvent::Connected) => self.connected += 1,
            Dispatch::Event(ConnectionEvent::Closed) => self.closed += 1,
            Dispatch::Event(ConnectionEvent::RequestChannel(request)) => self.requests.push(request),
            Dispatch::Opened { channel } => self.opened.push(channel),
            Dispatch::Rejected { rejection, .. } => self.rejected.push(rejection),
            Dispatch::Routed { routed, .. } => {
                self.woken_readers += usize::from(routed.wake_reader);
                self.woken_writers += usize::from(routed.wake_writer);
            }
        }
        Ok(())
    }

    fn command(&mut self, cmd: ConnectionCmd, now: u64) -> Option<Channel> {
        match self.connection.handle_cmd(cmd, now) {
            CmdOutcome::Requested { .. } => None,
            CmdOutcome::Accepted { channel } => Some(channel),
            CmdOutcome::Refused => None,
        }
    }
}

/// Hands everything that waits at one end to the other.
fn deliver(from: &mut Peer, to: &mut Peer, now: u64) -> Result<usize, Failure> {
    let mut delivered = 0;
    while let Some(message) = from.connection.poll_outbound() {
        to.receive(message, now)?;
        delivered += 1;
    }
    Ok(delivered)
}

/// Two ends that have said hello and share one channel, opened by the first.
fn connected_pair(endpoint: &[u8]) -> (Peer, Peer, Channel, Channel) {
    let mut a = Peer::new(1);
    let mut b = Peer::new(2);
    deliver(&mut a, &mut b, 0).unwrap();
    deliver(&mut b, &mut a, 0).unwrap();
    assert!(a.command(ConnectionCmd::open(endpoint), 0).is_none());
    deliver(&mut a, &mut b, 0).unwrap();
    let request = b.requests.pop().unwrap();
    let channel_b = b.command(request.accept(), 0).unwrap();
    deliver(&mut b, &mut a, 0).unwrap();
    let channel_a = a.opened.pop().unwrap();
    (a, b, channel_a, channel_b)
}

fn write_all(peer: &mut Peer, sender: &mut Sender, data: &[u8]) -> usize {
    match peer.connection.poll_write(sender, data) {
        Poll::Ready(Ok(written)) => written,
        Poll::Ready(Err(error)) => panic!("write failed: {error:?}"),
        Poll::Pending => 0,
    }
}

fn flush(peer: &mut Peer, sender: &mut Sender) -> Poll<Result<(), ChannelSendError>> {
    peer.connection.poll_flush(sender)
}

fn sender_credit(peer: &Peer, id: ChannelId) -> (u32, u32) {
    let shared = &peer.connection.channel(id).unwrap().sender_shared;
    (shared.remaining_frame_credit(), shared.remaining_byte_credit())
}

fn receiver_maxima(peer: &Peer, id: ChannelId) -> (u32, u32) {
    let shared = &peer.connection.channel(id).unwrap().receiver_shared;
    (shared.max_frame_credit(), shared.max_byte_credit())
}

fn read(peer: &mut Peer, receiver: &mut Receiver, buf: &mut [u8], now: u64) -> Option<usize> {
    match peer.connection.poll_read(receiver, now, buf) {
        Poll::Ready(outcome) => Some(outcome.len),
        Poll::Pending => None,
    }
}

#[test]
fn hello_handshake() {
    let mut a = Peer::new(1);
    let mut b = Peer::new(2);
    assert_eq!(deliver(&mut a, &mut b, 0).unwrap(), 1);
    assert_eq!(deliver(&mut b, &mut a, 0).unwrap(), 1);
    assert_eq!((a.connected, b.connected), (1, 1));
    assert_eq!((a.closed, b.closed), (0, 0));
    assert!(a.requests.is_empty() && b.requests.is_empty());
    assert_eq!(deliver(&mut a, &mut b, 0).unwrap(), 0);
    assert_eq!(a.connection.estimate_frames_sent(), 1);
    assert_eq!(a.connection.estimate_frames_received(), 1);
}

#[test]
fn hello_is_the_first_frame_and_carries_the_magic() {
    let mut connection = Connection::new(7);
    let hello = connection.poll_outbound().unwrap();
    assert_eq!(
        &hello[..],
        [0x00, 0x1B, 0x1B, 0x2E, 0x86, 0x2C, 0xCD, 0xF4, 0x9D, 0x52, 0x6D, 0xE3, 0x0D, 0xA7, 0xAB, 0xE1, 0x8C]
    );
    assert!(connection.poll_outbound().is_none());
    assert_eq!(connection.id(), 7);
}

#[test]
fn echo_channel() {
    let mut a = Peer::new(1);
    let mut b = Peer::new(2);
    deliver(&mut a, &mut b, 0).unwrap();
    deliver(&mut b, &mut a, 0).unwrap();
    a.command(ConnectionCmd::open(b"echo"), 0);
    deliver(&mut a, &mut b, 0).unwrap();
    let request = b.requests.pop().unwrap();
    assert_eq!(request.endpoint(), b"echo");
    let channel_b = b.command(request.accept(), 0).unwrap();
    deliver(&mut b, &mut a, 0).unwrap();
    let channel_a = a.opened.pop().unwrap();

    let (mut sender_a, _receiver_a) = channel_a.split();
    let (_sender_b, mut receiver_b) = channel_b.split();
    let mut buf = [0u8; 16];
    assert_eq!(read(&mut b, &mut receiver_b, &mut buf, 0), None);

    assert_eq!(write_all(&mut a, &mut sender_a, b"hello"), 5);
    assert!(matches!(flush(&mut a, &mut sender_a), Poll::Ready(Ok(()))));
    deliver(&mut a, &mut b, 0).unwrap();
    assert_eq!(b.woken_readers, 1);
    assert_eq!(read(&mut b, &mut receiver_b, &mut buf, 0), Some(5));
    assert_eq!(&buf[..5], b"hello");

    let closed = a.connection.poll_close(&mut sender_a);
    assert!(matches!(closed, Poll::Ready(Ok(()))));
    deliver(&mut a, &mut b, 0).unwrap();
    assert_eq!(read(&mut b, &mut receiver_b, &mut buf, 0), Some(0));
    assert_eq!(read(&mut b, &mut receiver_b, &mut buf, 0), Some(0));
}

#[test]
fn reject() {
    let mut a = Peer::new(1);
    let mut b = Peer::new(2);
    a.command(ConnectionCmd::open(b"nope"), 0);
    deliver(&mut a, &mut b, 0).unwrap();
    let request = b.requests.pop().unwrap();
    assert_eq!(request.endpoint(), b"nope");
    b.connection
        .send_frame(Frame::ChannelReject(request.reject(b"go away")));
    deliver(&mut b, &mut a, 0).unwrap();
    assert!(a.opened.is_empty());
    assert_eq!(a.rejected.pop().unwrap().reason(), b"go away");
    assert!(a.connection.channel(ChannelId(1)).is_none());
}

#[test]
fn backpressure() {
    let (mut a, mut b, channel_a, channel_b) = connected_pair(b"bulk");
    let (mut sender, _) = channel_a.split();
    let (_, mut receiver) = channel_b.split();
    // One round trip of 20 ms is known at the reading end.
    assert!(b.connection.ping(true, 0));
    deliver(&mut b, &mut a, 10 * MS).unwrap();
    deliver(&mut a, &mut b, 20 * MS).unwrap();
    assert_eq!(b.connection.estimate_round_trip_time(), Some(20 * MS));

    let data: Vec<u8> = (0..64 * 1024).map(|i| (i % 251) as u8).collect();
    let mut written = 0;
    let mut received = Vec::new();
    let mut suspended = 0;
    let mut now = 20 * MS;
    let mut buf = [0u8; 1024];
    let id = receiver.local_id();
    while received.len() < data.len() {
        while written < data.len() {
            let accepted = write_all(&mut a, &mut sender, &data[written..]);
            if accepted == 0 {
                suspended += 1;
                break;
            }
            written += accepted;
        }
        let _ = flush(&mut a, &mut sender);
        deliver(&mut a, &mut b, now).unwrap();
        now += MS;
        if let Some(len) = read(&mut b, &mut receiver, &mut buf, now) {
            received.extend_from_slice(&buf[..len]);
        }
        deliver(&mut b, &mut a, now).unwrap();
    }
    assert_eq!(received, data);
    assert!(suspended > 0);
    assert!(a.woken_writers > 0);
    let (max_frames, max_bytes) = receiver_maxima(&b, id);
    assert!(max_bytes > INITIAL_BYTE_CREDIT);
    assert!(max_bytes <= CHANNEL_MAX_BYTE_CREDIT);
    assert!(max_frames <= CHANNEL_MAX_FRAME_CREDIT);
}

#[test]
fn credit_does_not_grow_while_the_round_trip_time_is_unknown() {
    let (mut a, mut b, channel_a, channel_b) = connected_pair(b"bulk");
    let (mut sender, _) = channel_a.split();
    let (_, mut receiver) = channel_b.split();
    let id = receiver.local_id();
    let data = vec![7u8; 16 * 1024];
    assert_eq!(write_all(&mut a, &mut sender, &data), 16 * 1024);
    let _ = flush(&mut a, &mut sender);
    deliver(&mut a, &mut b, 0).unwrap();
    let mut buf = vec![0u8; 16 * 1024];
    assert_eq!(read(&mut b, &mut receiver, &mut buf, 0), Some(16 * 1024));
    assert_eq!(receiver_maxima(&b, id).1, INITIAL_BYTE_CREDIT);
    // The credit that was used up is granted again at once.
    let adjust = b.connection.poll_outbound().unwrap();
    match Frame::parse(adjust).unwrap() {
        Frame::ChannelAdjust(adjust) => {
            assert_eq!(adjust.frame_credit(), 1);
            assert_eq!(adjust.byte_credit(), 16 * 1024);
            assert_eq!(adjust.receiver_id(), sender.local_id());
        }
        _ => panic!("an adjust frame goes out"),
    }
}

#[test]
fn writer_waits_below_the_threshold_and_is_woken_by_credit() {
    let (mut a, mut b, channel_a, channel_b) = connected_pair(b"bulk");
    let (mut sender, _) = channel_a.split();
    let (_, mut receiver) = channel_b.split();
    let data = vec![1u8; 16 * 1024 - 100];
    assert_eq!(write_all(&mut a, &mut sender, &data), data.len());
    // 100 bytes of credit are left, which is less than 512: the pending
    // chunk goes out, and the writer waits.
    assert_eq!(write_all(&mut a, &mut sender, b"more"), 0);
    assert_eq!(deliver(&mut a, &mut b, 0).unwrap(), 1);
    let mut buf = vec![0u8; 32 * 1024];
    assert_eq!(read(&mut b, &mut receiver, &mut buf, 0), Some(data.len()));
    deliver(&mut b, &mut a, 0).unwrap();
    assert_eq!(a.woken_writers, 1);
    assert_eq!(write_all(&mut a, &mut sender, b"more"), 4);
}

#[test]
fn rtt() {
    let mut a = Peer::new(1);
    let mut b = Peer::new(2);
    deliver(&mut a, &mut b, 0).unwrap();
    deliver(&mut b, &mut a, 0).unwrap();
    assert_eq!(a.connection.estimate_round_trip_time(), None);
    let mut now = 0;
    for _ in 0..3 {
        now += 5_000 * MS;
        assert!(a.connection.wants_tick());
        assert!(a.connection.ping(true, now));
        assert!(!a.connection.wants_tick());
        deliver(&mut a, &mut b, now + 20 * MS).unwrap();
        deliver(&mut b, &mut a, now + 40 * MS).unwrap();
    }
    let rtt = a.connection.estimate_round_trip_time().unwrap();
    assert!(30 * MS <= rtt && rtt <= 60 * MS);
    assert_eq!(rtt, 40 * MS);
}

#[test]
fn rtt_is_smoothened_by_an_eighth() {
    let mut connection = Connection::new(1);
    let mut pong = |connection: &mut Connection, now: u64| {
        assert!(connection
            .handle_frame(Frame::Pong(FramePong::new()), now)
            .is_ok());
    };
    connection.ping(true, 0);
    pong(&mut connection, 80 * MS);
    assert_eq!(connection.estimate_round_trip_time(), Some(80 * MS));
    connection.ping(true, 100 * MS);
    pong(&mut connection, 116 * MS);
    // 7/8 of 80 ms and 1/8 of 16 ms.
    assert_eq!(connection.estimate_round_trip_time(), Some(72 * MS));
    // A clock that goes back measures nothing.
    connection.ping(true, 200 * MS);
    pong(&mut connection, 100 * MS);
    assert_eq!(connection.estimate_round_trip_time(), Some(63 * MS));
}

#[test]
fn one_ping_is_outstanding_at_most() {
    let mut connection = Connection::new(1);
    connection.poll_outbound().unwrap();
    assert!(!connection.ping(false, 0));
    assert!(connection.ping(true, 0));
    assert!(!connection.ping(true, 5_000 * MS));
    assert!(!connection.ping(true, 10_000 * MS));
    assert_eq!(&connection.poll_outbound().unwrap()[..], [0x20]);
    assert!(connection.poll_outbound().is_none());
    connection
        .handle_frame(Frame::Pong(FramePong::new()), 10_001 * MS)
        .map(|_| ())
        .unwrap();
    assert!(connection.ping(true, 15_000 * MS));
}

#[test]
fn ping_is_answered_with_a_pong() {
    let mut a = Peer::new(1);
    a.connection.poll_outbound().unwrap();
    a.receive(Bytes::from_static(&[0x20]), 0).unwrap();
    assert_eq!(&a.connection.poll_outbound().unwrap()[..], [0x21]);
}

#[test]
fn protocol_violation() {
    let (mut a, mut b, channel_a, _channel_b) = connected_pair(b"data");
    let (sender, _) = channel_a.split();
    // Data for a channel that does not exist is dropped in silence.
    let stray = FrameChannelData::new(ChannelId(99), b"stray");
    a.connection.send_frame(Frame::ChannelData(stray));
    deliver(&mut a, &mut b, 0).unwrap();
    assert_eq!(b.woken_readers, 0);
    // The connection is still healthy.
    a.connection
        .send_frame(Frame::ChannelData(FrameChannelData::new(sender.remote_id(), b"ok")));
    deliver(&mut a, &mut b, 0).unwrap();
    // Data beyond the granted byte credit ends the connection.
    let large = vec![0u8; 16 * 1024 + 1];
    a.connection
        .send_frame(Frame::ChannelData(FrameChannelData::new(sender.remote_id(), &large)));
    match deliver(&mut a, &mut b, 0) {
        Err(ConnectionError::ProtocolViolation(violation)) => {
            assert_eq!(violation.message(), "not enough byte credit");
        }
        _ => panic!("data beyond the credit is a violation"),
    }
}

#[test]
fn data_without_frame_credit_is_a_violation() {
    let (mut a, mut b, channel_a, _channel_b) = connected_pair(b"data");
    let (sender, _) = channel_a.split();
    for _ in 0..128 {
        a.connection
            .send_frame(Frame::ChannelData(FrameChannelData::new(sender.remote_id(), b"")));
    }
    // Nothing was read, so the frame credit of 128 still stands: frames are
    // counted against the credit when they are taken out.
    deliver(&mut a, &mut b, 0).unwrap();
    let id = sender.remote_id();
    let mut receiver_frames = 0;
    let (_, mut receiver) = _channel_b.split();
    let mut buf = [0u8; 4];
    while read(&mut b, &mut receiver, &mut buf, 0).is_some() {
        receiver_frames += 1;
        if receiver_frames == 128 {
            break;
        }
    }
    assert_eq!(receiver_frames, 128);
    assert!(b.connection.channel(id).is_some());
}

#[test]
fn other_violations_end_the_connection() {
    let violation = |peer: &mut Peer, message: &'static [u8]| match peer
        .receive(Bytes::from_static(message), 0)
    {
        Err(ConnectionError::ProtocolViolation(violation)) => violation.message(),
        _ => panic!("a violation was due"),
    };
    let mut peer = Peer::new(1);
    assert_eq!(violation(&mut peer, &[0x21]), "received pong but no ping has been sent");
    assert_eq!(violation(&mut peer, &[0x42]), "invalid frame");
    assert_eq!(violation(&mut peer, &[]), "invalid frame");
    assert_eq!(violation(&mut peer, &[0x13, 0, 0]), "invalid frame");
    let accept = [0x11, 0, 0, 0, 0, 0, 0, 0, 5, 0, 0, 0, 0, 0, 0, 0, 1, 0, 0, 0, 128, 0, 0, 64, 0];
    assert_eq!(
        peer.receive(Bytes::copy_from_slice(&accept), 0).err().map(|error| match error {
            ConnectionError::ProtocolViolation(violation) => violation.message(),
            ConnectionError::TransportError(_) => "",
        }),
        Some("channel request not found")
    );
    let reject = [0x12, 0, 0, 0, 0, 0, 0, 0, 5, b'n', b'o'];
    assert_eq!(
        peer.receive(Bytes::copy_from_slice(&reject), 0).err().map(|error| match error {
            ConnectionError::ProtocolViolation(violation) => violation.message(),
            ConnectionError::TransportError(_) => "",
        }),
        Some("channel request not found")
    );
    assert!(peer.connection.channel(ChannelId(5)).is_none());
}

#[test]
fn transport_failure_and_end() {
    let mut connection = Connection::new(1);
    let failed = connection.poll_event::<&str, ()>(Incoming::Error("broken"), 0);
    assert!(matches!(
        failed,
        Err(ConnectionError::TransportError(TransportError::RecvError("broken")))
    ));
    assert!(!connection.is_exhausted());
    let ended = connection.poll_event::<&str, ()>(Incoming::End, 0);
    assert!(matches!(ended, Ok(Dispatch::Nothing)));
    assert!(connection.is_exhausted());
}

#[test]
fn close_frame_closes_the_connection() {
    let mut peer = Peer::new(1);
    assert!(!peer.connection.is_closed());
    peer.receive(Bytes::from_static(&[0xFF, b'b', b'y', b'e']), 0).unwrap();
    assert_eq!(peer.closed, 1);
    assert!(peer.connection.is_closed());
}

#[test]
fn channel_ids_are_assigned_in_order_and_once() {
    let mut a = Peer::new(1);
    let mut b = Peer::new(2);
    let mut ids = Vec::new();
    for _ in 0..3 {
        match a.connection.handle_cmd(ConnectionCmd::open(b"x"), 0) {
            CmdOutcome::Requested { local_id } => ids.push(local_id.0),
            _ => panic!("an id is left"),
        }
    }
    deliver(&mut a, &mut b, 0).unwrap();
    deliver(&mut b, &mut a, 0).unwrap();
    // The requests went out with the ids, in order.
    let asked: Vec<u64> = b.requests.iter().map(|_| 0).collect();
    assert_eq!(asked.len(), 3);
    // An incoming request is accepted under the next id.
    b.command(ConnectionCmd::open(b"y"), 0);
    deliver(&mut b, &mut a, 0).unwrap();
    let request = a.requests.pop().unwrap();
    let channel = a.command(request.accept(), 0).unwrap();
    let (sender, receiver) = channel.split();
    ids.push(sender.local_id().0);
    assert_eq!(ids, [1, 2, 3, 4]);
    assert_eq!(sender.remote_id(), ChannelId(1));
    assert_eq!(receiver.connection(), 1);
}

#[test]
fn request_frames_carry_the_assigned_id_and_the_initial_credit() {
    let mut connection = Connection::new(1);
    connection.poll_outbound().unwrap();
    connection.handle_cmd(ConnectionCmd::open(b"echo"), 0);
    let request = connection.poll_outbound().unwrap();
    assert_eq!(
        &request[..],
        [0x10, 0, 0, 0, 0, 0, 0, 0, 1, 0, 0, 0, 128, 0, 0, 0x40, 0, b'e', b'c', b'h', b'o']
    );
}

#[test]
fn halves_are_merged_only_with_their_own() {
    let (_a, _b, channel_a, channel_b) = connected_pair(b"x");
    let (sender_a, receiver_a) = channel_a.split();
    let (sender_b, receiver_b) = channel_b.split();
    assert!(Channel::can_merge(&sender_a, &receiver_a));
    assert!(!Channel::can_merge(&sender_a, &receiver_b));
    assert!(!Channel::can_merge(&sender_b, &receiver_a));
    let channel = Channel::merge(sender_a, receiver_a);
    let (sender_a, _) = channel.split();
    assert_eq!(sender_a.connection(), 1);
    assert_eq!(sender_b.connection(), 2);
}

#[test]
fn closed_by_the_peer_is_a_broken_pipe() {
    let (mut a, mut b, channel_a, channel_b) = connected_pair(b"x");
    let (mut sender, _) = channel_a.split();
    let (_, receiver) = channel_b.split();
    assert_eq!(write_all(&mut a, &mut sender, b"pending"), 7);
    // The reader gives its half up: the peer is told to stop.
    b.connection.release(receiver);
    deliver(&mut b, &mut a, 0).unwrap();
    let id = sender.local_id();
    assert!(a.connection.channel(id).unwrap().sender_shared.is_closed());
    for _ in 0..3 {
        let polled = a.connection.poll_write(&mut sender, b"more");
        assert!(matches!(polled, Poll::Ready(Err(ChannelSendError::Closed))));
        assert!(matches!(
            flush(&mut a, &mut sender),
            Poll::Ready(Err(ChannelSendError::Closed))
        ));
    }
    assert!(a.connection.poll_outbound().is_none());
}

#[test]
fn credit_is_used_when_the_chunk_goes_out() {
    let (mut a, _b, channel_a, _channel_b) = connected_pair(b"x");
    let (mut sender, _) = channel_a.split();
    assert_eq!(write_all(&mut a, &mut sender, &[0u8; 1000]), 1000);
    // Credit is used when the chunk goes out, not when it is staged.
    let id = sender.local_id();
    assert_eq!(sender_credit(&a, id), (128, 16 * 1024));
    assert!(matches!(flush(&mut a, &mut sender), Poll::Ready(Ok(()))));
    assert_eq!(sender_credit(&a, id), (127, 16 * 1024 - 1000));
}

#[test]
fn adjust_adds_credit_and_stops_at_the_top() {
    let (mut a, _b, channel_a, _channel_b) = connected_pair(b"x");
    let (sender, _) = channel_a.split();
    let id = sender.local_id();
    let adjust = FrameChannelAdjust::new(id, 5, 100);
    a.connection.send_frame(Frame::ChannelAdjust(adjust));
    let message = {
        a.connection.poll_outbound().unwrap()
    };
    a.receive(message, 0).unwrap();
    assert_eq!(sender_credit(&a, id), (133, 16 * 1024 + 100));
    let adjust = FrameChannelAdjust::new(id, u32::MAX, u32::MAX);
    let routed = match a.connection.handle_frame(Frame::ChannelAdjust(adjust), 9) {
        Ok(Dispatch::Routed { routed, .. }) => routed,
        _ => panic!("the frame is for a channel that exists"),
    };
    assert!(!routed.wake_writer);
    let interval = routed.interval.unwrap();
    assert_eq!((interval.frame_credit, interval.byte_credit, interval.elapsed), (0, 0, 9));
    assert_eq!(sender_credit(&a, id), (u32::MAX, u32::MAX));
}

#[test]
fn close_frame_carries_the_reason_to_the_writer() {
    let (mut a, _b, channel_a, _channel_b) = connected_pair(b"x");
    let (sender, _) = channel_a.split();
    let close = FrameChannelClose::new(sender.local_id(), b"enough");
    let routed = match a.connection.handle_frame(Frame::ChannelClose(close), 0) {
        Ok(Dispatch::Routed { routed, .. }) => routed,
        _ => panic!("the frame is for a channel that exists"),
    };
    assert!(!routed.wake_writer && !routed.wake_reader);
    assert!(a.connection.channel(sender.local_id()).unwrap().sender_shared.is_closed());
}

#[test]
fn chunks_are_read_whole_or_in_pieces() {
    let (mut a, mut b, channel_a, channel_b) = connected_pair(b"x");
    let (mut sender, _) = channel_a.split();
    let (_, mut receiver) = channel_b.split();
    assert_eq!(write_all(&mut a, &mut sender, b"hello world"), 11);
    let _ = flush(&mut a, &mut sender);
    deliver(&mut a, &mut b, 0).unwrap();
    let mut buf = [0u8; 4];
    assert_eq!(read(&mut b, &mut receiver, &mut buf, 0), Some(4));
    assert_eq!(&buf, b"hell");
    assert_eq!(read(&mut b, &mut receiver, &mut buf, 0), Some(4));
    assert_eq!(&buf, b"o wo");
    assert_eq!(read(&mut b, &mut receiver, &mut buf, 0), Some(3));
    assert_eq!(&buf[..3], b"rld");
    assert_eq!(read(&mut b, &mut receiver, &mut buf, 0), None);

    assert_eq!(write_all(&mut a, &mut sender, b"next"), 4);
    let _ = flush(&mut a, &mut sender);
    deliver(&mut a, &mut b, 0).unwrap();
    match b.connection.poll_next_chunk(&mut receiver, 0) {
        Poll::Ready(Some(received)) => {
            assert_eq!(received.chunk.as_slice(), b"next");
            assert_eq!(&received.chunk.to_bytes()[..], b"next");
            assert!(received.granted.is_none());
        }
        _ => panic!("a chunk waits"),
    }
}

#[test]
fn frames_leave_in_the_order_they_were_queued() {
    let mut connection = Connection::new(1);
    for credit in 1..=5 {
        let adjust = FrameChannelAdjust::new(ChannelId(7), credit, 0);
        connection.send_frame(Frame::ChannelAdjust(adjust));
    }
    assert!(connection.ping(true, 0));
    let mut kinds = Vec::new();
    while let Some(message) = connection.poll_outbound() {
        match Frame::parse(message).unwrap() {
            Frame::Hello(_) => kinds.push(0),
            Frame::ChannelAdjust(adjust) => kinds.push(adjust.frame_credit()),
            Frame::Ping(_) => kinds.push(99),
            _ => panic!("no other frame was queued"),
        }
    }
    assert_eq!(kinds, [0, 1, 2, 3, 4, 5, 99]);
    assert_eq!(connection.estimate_frames_sent(), 7);
}

#[test]
fn granted_maximum_never_shrinks_and_stops_at_the_limit() {
    let (mut a, mut b, channel_a, channel_b) = connected_pair(b"x");
    let (sender, _) = channel_a.split();
    let (_, mut receiver) = channel_b.split();
    // A round trip of 1 s is known at the reading end.
    assert!(b.connection.ping(true, 0));
    deliver(&mut b, &mut a, 0).unwrap();
    deliver(&mut a, &mut b, 1_000 * MS).unwrap();
    let id = receiver.local_id();
    let mut largest = 128;
    let mut buf = [0u8; 1];
    for _ in 0..5_000 {
        let empty = FrameChannelData::new(sender.remote_id(), b"");
        a.connection.send_frame(Frame::ChannelData(empty));
        deliver(&mut a, &mut b, 1_000 * MS).unwrap();
        assert_eq!(read(&mut b, &mut receiver, &mut buf, 1_000 * MS), Some(0));
        let (max, max_bytes) = receiver_maxima(&b, id);
        assert!(max >= largest && max <= CHANNEL_MAX_FRAME_CREDIT);
        largest = max;
        assert_eq!(max_bytes, INITIAL_BYTE_CREDIT);
    }
    assert_eq!(largest, CHANNEL_MAX_FRAME_CREDIT);
}

#[test]
fn credit_that_was_granted_is_what_the_writer_gets() {
    let (mut a, mut b, channel_a, channel_b) = connected_pair(b"x");
    let (mut sender, _) = channel_a.split();
    let (_, mut receiver) = channel_b.split();
    let sent = vec![3u8; 10_000];
    assert_eq!(write_all(&mut a, &mut sender, &sent), 10_000);
    let _ = flush(&mut a, &mut sender);
    let id_a = sender.local_id();
    assert_eq!(sender_credit(&a, id_a), (127, 6_384));
    deliver(&mut a, &mut b, 0).unwrap();
    let mut buf = vec![0u8; 10_000];
    assert_eq!(read(&mut b, &mut receiver, &mut buf, 0), Some(10_000));
    // 6384 of 16384 were left, less than half: 10000 bytes and the one frame
    // are granted again.
    deliver(&mut b, &mut a, 0).unwrap();
    assert_eq!(sender_credit(&a, id_a), (128, 16_384));
}

#[test]
fn halves_of_another_connection_find_nothing() {
    let (mut a, mut b, channel_a, _channel_b) = connected_pair(b"x");
    let (mut sender, mut receiver) = channel_a.split();
    // The halves belong to the first connection; the second knows a channel
    // under the same id, and still does not take them for its own.
    let polled = b.connection.poll_write(&mut sender, b"data");
    assert!(matches!(polled, Poll::Ready(Err(ChannelSendError::Closed))));
    assert!(matches!(
        b.connection.poll_flush(&mut sender),
        Poll::Ready(Err(ChannelSendError::Closed))
    ));
    let mut buf = [0u8; 4];
    assert_eq!(read(&mut b, &mut receiver, &mut buf, 0), Some(0));
    assert!(matches!(b.connection.poll_next_chunk(&mut receiver, 0), Poll::Ready(None)));
    assert!(b.connection.poll_outbound().is_none());
    assert_eq!(write_all(&mut a, &mut sender, b"data"), 4);
}

#[test]
fn channel_state_handles_the_frames_of_its_channel() {
    let (_channel, mut handle) = Channel::new(1, ChannelId(3), ChannelId(4), 0);
    assert_eq!((handle.local_id(), handle.remote_id()), (ChannelId(3), ChannelId(4)));
    let data = FrameChannelData::new(ChannelId(3), b"abc");
    let routed = handle.handle_frame(Frame::ChannelData(data), 0).unwrap();
    assert!(!routed.wake_reader && !routed.wake_writer && routed.interval.is_none());
    let large = FrameChannelData::new(ChannelId(3), &vec![0u8; 16 * 1024 + 1]);
    let violation = handle.handle_frame(Frame::ChannelData(large), 0).unwrap_err();
    assert_eq!(violation.message(), "not enough byte credit");
    let ignored = handle.handle_frame(Frame::Pong(FramePong::new()), 0).unwrap();
    assert!(!ignored.wake_reader && !ignored.wake_writer);
}

#[test]
fn chunk_that_was_staged_on_other_credit_is_too_large() {
    let (channel, mut handle) = Channel::new(1, ChannelId(1), ChannelId(2), 0);
    let (mut sender, _) = channel.split();
    let mut outbound = VecDeque::new();
    let staged = sender.poll_write(&mut handle.sender_shared, &mut outbound, &[0u8; 1000]);
    assert!(matches!(staged, Poll::Ready(Ok(1000))));
    // The credit of another channel does not cover the chunk.
    let mut other = SenderShared::new(128, 999, 0);
    let flushed = sender.poll_flush(&mut other, &mut outbound);
    assert!(matches!(flushed, Poll::Ready(Err(ChannelSendError::ChunkTooLarge))));
    assert!(outbound.is_empty());
    assert_eq!(other.remaining_byte_credit(), 999);
    // Its own credit does.
    let flushed = sender.poll_flush(&mut handle.sender_shared, &mut outbound);
    assert!(matches!(flushed, Poll::Ready(Ok(()))));
    assert_eq!(outbound.len(), 1);
}

#[test]
fn writer_without_frame_credit_waits() {
    let (channel, _) = Channel::new(1, ChannelId(1), ChannelId(2), 0);
    let (mut sender, _) = channel.split();
    let mut outbound = VecDeque::new();
    let mut shared = SenderShared::new(1, 4096, 0);
    assert!(matches!(sender.poll_write(&mut shared, &mut outbound, b"one"), Poll::Ready(Ok(3))));
    assert!(matches!(sender.poll_write(&mut shared, &mut outbound, b"two"), Poll::Ready(Ok(3))));
    assert_eq!(outbound.len(), 1);
    assert_eq!(shared.remaining_frame_credit(), 0);
    // The second chunk is staged, and no frame credit is left to send it.
    assert!(matches!(sender.poll_flush(&mut shared, &mut outbound), Poll::Pending));
    assert!(matches!(sender.poll_write(&mut shared, &mut outbound, b"three"), Poll::Pending));
    let (wake, interval) = shared.adjust(1, 0, 5);
    assert!(wake);
    assert_eq!((interval.frame_credit, interval.byte_credit, interval.elapsed), (1, 3, 5));
    assert!(matches!(sender.poll_flush(&mut shared, &mut outbound), Poll::Ready(Ok(()))));
    assert_eq!(outbound.len(), 2);
}
