//! The connection core.
//!
//! A connection owns the queue of frames that go out, assigns the ids of the
//! channels at this end, remembers which requests to open a channel are still
//! unanswered, keeps the state of the channels that exist, and keeps the peer
//! alive with pings, from which it estimates the round-trip time. Frames that
//! come in are sorted to the channels they are addressed to, and the halves
//! of a channel write and read through the connection they belong to.
//!
//! The connection performs no input or output itself. Its owner feeds it what
//! the transport yields and what the clock says, and carries out what it
//! decides: it hands frames to the transport, resolves those who wait for a
//! channel to open, and wakes those who wait for data or credit.

use crate::multiplex::buffer::bytes_view;
use crate::multiplex::channel::Channel;
use crate::multiplex::channel::ChannelHandle;
use crate::multiplex::channel::ChannelRequest;
use crate::multiplex::channel::ChannelStateView;
use crate::multiplex::channel::ChannelView;
use crate::multiplex::channel::ConnectionCmd;
use crate::multiplex::channel::Routed;
use crate::multiplex::error::ConnectionError;
use crate::multiplex::error::ProtocolViolation;
use crate::multiplex::error::Rejection;
use crate::multiplex::error::TransportError;
use crate::multiplex::frames::ChannelId;
use crate::multiplex::frames::Frame;
use crate::multiplex::frames::FrameChannelData;
use crate::multiplex::frames::FrameChannelReject;
use crate::multiplex::frames::FrameHello;
use crate::multiplex::frames::FramePing;
use crate::multiplex::frames::FramePong;
use crate::multiplex::frames::PROTOCOL_MAGIC;
use crate::multiplex::sender::elapsed;
use crate::multiplex::sender::elapsed_between;
use crate::multiplex::sender::enqueue;
use crate::multiplex::poll::Poll;
use crate::multiplex::receiver::ReadOutcome;
use crate::multiplex::receiver::Reading;
use crate::multiplex::receiver::Received;
use crate::multiplex::receiver::Receiver;
use crate::multiplex::receiver::ReceiverHalfView;
use crate::multiplex::receiver::received_view;
use crate::multiplex::sender::frame_views;
use crate::multiplex::sender::ChannelSendError;
use crate::multiplex::sender::Sender;
use crate::multiplex::sender::SenderHalfView;
use crate::multiplex::sender::Writing;
use crate::multiplex::wire::parse_frame;
use crate::multiplex::wire::InvalidFrameError;
use crate::multiplex::wire::FrameView;
use bytes::Bytes;
use std::collections::HashMap;
use std::collections::HashSet;
use std::collections::VecDeque;
use vstd::prelude::*;
use vstd::std_specs::hash::group_hash_axioms;

verus! {

broadcast use group_hash_axioms;

/// Seconds between two pings on an otherwise idle connection.
pub const PING_INTERVAL_SECS: u64 = 5;

/// The bytes of the protocol magic.
pub open spec fn protocol_magic() -> Seq<u8> {
    seq![27u8, 27, 46, 134, 44, 205, 244, 157, 82, 109, 227, 13, 167, 171, 225, 140]
}

/// The smoothened round-trip time after a new measurement: the measurement
/// itself at first, and afterwards seven eighths of the old estimate plus one
/// eighth of the measurement.
pub open spec fn smoothened(old: Option<u64>, latest: u64) -> u64 {
    match old {
        Some(rtt) => (rtt * 7 / 8 + latest / 8) as u64,
        None => latest,
    }
}

/// What a connection holds, as plain values.
pub ghost struct ConnectionView {
    /// Identity of the connection.
    pub id: u64,
    /// Whether the transport has ended.
    pub exhausted: bool,
    /// Whether the peer has closed the connection.
    pub closed: bool,
    /// The frames that wait to go out, oldest first.
    pub outbound: Seq<FrameView>,
    /// The id that the next channel at this end gets.
    pub next_channel_id: u64,
    /// The ids under which requests to open a channel wait for an answer.
    pub pending_requests: Set<u64>,
    /// The channels that exist, by their ids at this end, each with the
    /// state of its two directions.
    pub channels: Map<u64, ChannelStateView>,
    /// When the last ping was sent.
    pub last_ping: Option<u64>,
    /// The smoothened round-trip time, once it has been measured.
    pub smoothened_rtt: Option<u64>,
    /// Whether the last ping has been answered; true before the first ping.
    pub pong_received: bool,
    /// Number of frames handed to the transport.
    pub frames_sent: u64,
    /// Number of frames taken from the transport.
    pub frames_received: u64,
}

/// What the connection decides on a frame from the peer.
pub ghost enum DispatchView {
    /// Nothing that the owner has to see.
    Nothing,
    /// The peer said hello.
    Connected,
    /// The peer closed the connection.
    Closed,
    /// The peer asks for a channel.
    RequestChannel(FrameView),
    /// The peer accepted a request: the channel exists from now on.
    Opened { local_id: u64, remote_id: u64 },
    /// The peer rejected a request.
    Rejected { local_id: u64, reason: Seq<u8> },
    /// The frame was taken in by the channel it is addressed to: who waited
    /// for it has to be woken.
    Routed { local_id: u64, routed: Routed },
    /// The frame violates the protocol.
    Violation(Seq<char>),
}

impl ConnectionView {
    /// The state of a new connection: the hello frame waits to go out, the
    /// first channel gets the id 1, and no ping is outstanding.
    pub open spec fn fresh(id: u64) -> ConnectionView {
        ConnectionView {
            id,
            exhausted: false,
            closed: false,
            outbound: seq![FrameView::Hello { magic: protocol_magic(), info: Seq::empty() }],
            next_channel_id: 1,
            pending_requests: Set::empty(),
            channels: Map::empty(),
            last_ping: None,
            smoothened_rtt: None,
            pong_received: true,
            frames_sent: 0,
            frames_received: 0,
        }
    }

    /// Every id in use was assigned by this connection: it is neither the
    /// reserved id nor one that is still to be assigned. No id stands for a
    /// request that waits for its answer and for a channel at once. The
    /// credit of every channel is within its bounds. And while a ping is
    /// outstanding, the time it was sent at is known.
    pub open spec fn wf(self) -> bool {
        &&& self.next_channel_id >= 1
        &&& forall|id: u64| #[trigger]
            self.pending_requests.contains(id) ==> 1 <= id < self.next_channel_id
                && !self.channels.contains_key(id)
        &&& forall|id: u64| #[trigger]
            self.channels.contains_key(id) ==> 1 <= id < self.next_channel_id
        &&& forall|id: u64| #[trigger]
            self.channels.contains_key(id) ==> self.channels[id].sender.wf()
                && self.channels[id].receiver.wf()
        &&& !self.pong_received ==> self.last_ping is Some
    }

    /// Whether an id is left to assign. The largest id is never assigned, so
    /// that the counter cannot wrap around to ids that are in use.
    pub open spec fn can_reserve(self) -> bool {
        self.next_channel_id < u64::MAX
    }

    /// The state after a keepalive tick at the given time: where no ping is
    /// outstanding, one goes out and is outstanding from then on.
    pub open spec fn pinged(self, now: u64) -> ConnectionView {
        if self.pong_received {
            ConnectionView {
                pong_received: false,
                last_ping: Some(now),
                outbound: self.outbound.push(FrameView::Ping),
                ..self
            }
        } else {
            self
        }
    }

    /// The state after a command was carried out.
    ///
    /// A request to open a channel gets the next id, goes out with it, and
    /// waits under it for the peer's answer. An acceptance gets the next id,
    /// goes out with it, and the channel exists from then on, with the
    /// initial credit in both directions. Where no id is
    /// left, a request to open is dropped and an acceptance is turned into a
    /// rejection with an empty reason.
    pub open spec fn after_cmd(self, cmd: ConnectionCmd, now: u64) -> ConnectionView {
        match cmd {
            ConnectionCmd::OpenChannel { request } => if self.can_reserve() {
                ConnectionView {
                    next_channel_id: (self.next_channel_id + 1) as u64,
                    outbound: self.outbound.push(
                        FrameView::ChannelRequest {
                            sender_id: self.next_channel_id,
                            frame_credit: request@.frame_credit(),
                            byte_credit: request@.byte_credit(),
                            endpoint: request@.tail(),
                        },
                    ),
                    pending_requests: self.pending_requests.insert(self.next_channel_id),
                    ..self
                }
            } else {
                self
            },
            ConnectionCmd::AcceptChannel { accept } => if self.can_reserve() {
                ConnectionView {
                    next_channel_id: (self.next_channel_id + 1) as u64,
                    outbound: self.outbound.push(
                        FrameView::ChannelAccept {
                            receiver_id: accept@.receiver_id(),
                            sender_id: self.next_channel_id,
                            frame_credit: accept@.frame_credit(),
                            byte_credit: accept@.byte_credit(),
                        },
                    ),
                    channels: self.channels.insert(
                        self.next_channel_id,
                        ChannelStateView::fresh(self.next_channel_id, accept@.receiver_id(), now),
                    ),
                    ..self
                }
            } else {
                ConnectionView {
                    outbound: self.outbound.push(
                        FrameView::ChannelReject {
                            receiver_id: accept@.receiver_id(),
                            reason: Seq::empty(),
                        },
                    ),
                    ..self
                }
            },
        }
    }

    /// What the connection decides on a frame from the peer.
    ///
    /// An answer to a request that is not pending violates the protocol, and
    /// so do a pong when no ping is outstanding and data beyond the credit
    /// that its channel has granted. A frame for a channel that does not
    /// exist is dropped in silence: the channel was given up at this end.
    pub open spec fn dispatch(self, frame: FrameView, now: u64) -> DispatchView {
        match frame {
            FrameView::Hello { .. } => DispatchView::Connected,
            FrameView::Close { .. } => DispatchView::Closed,
            FrameView::ChannelRequest { .. } => DispatchView::RequestChannel(frame),
            FrameView::ChannelAccept {
                receiver_id,
                sender_id,
                ..
            } => if self.pending_requests.contains(receiver_id) {
                DispatchView::Opened { local_id: receiver_id, remote_id: sender_id }
            } else {
                DispatchView::Violation("channel request not found"@)
            },
            FrameView::ChannelReject { receiver_id, reason } => if self.pending_requests.contains(
                receiver_id,
            ) {
                DispatchView::Rejected { local_id: receiver_id, reason }
            } else {
                DispatchView::Violation("channel request not found"@)
            },
            FrameView::Ping => DispatchView::Nothing,
            FrameView::Pong => if self.pong_received {
                DispatchView::Violation("received pong but no ping has been sent"@)
            } else {
                DispatchView::Nothing
            },
            _ => if self.channels.contains_key(frame.receiver_id()) {
                let channel = self.channels[frame.receiver_id()];
                if channel.violates(frame) {
                    DispatchView::Violation(channel.violation(frame))
                } else {
                    DispatchView::Routed {
                        local_id: frame.receiver_id(),
                        routed: channel.routed(frame, now),
                    }
                }
            } else {
                DispatchView::Nothing
            },
        }
    }

    /// The state after a frame from the peer was handled at the given time.
    pub open spec fn after_frame(self, frame: FrameView, now: u64) -> ConnectionView {
        match self.dispatch(frame, now) {
            DispatchView::Closed => ConnectionView { closed: true, ..self },
            DispatchView::Opened { local_id, remote_id } => ConnectionView {
                pending_requests: self.pending_requests.remove(local_id),
                channels: self.channels.insert(
                    local_id,
                    ChannelStateView::fresh(local_id, remote_id, now),
                ),
                ..self
            },
            DispatchView::Routed { local_id, .. } => ConnectionView {
                channels: self.channels.insert(
                    local_id,
                    self.channels[local_id].handled(frame, now),
                ),
                ..self
            },
            DispatchView::Rejected { local_id, .. } => ConnectionView {
                pending_requests: self.pending_requests.remove(local_id),
                ..self
            },
            DispatchView::Nothing => match frame {
                FrameView::Ping => ConnectionView {
                    outbound: self.outbound.push(FrameView::Pong),
                    ..self
                },
                FrameView::Pong => ConnectionView {
                    pong_received: true,
                    smoothened_rtt: Some(
                        smoothened(
                            self.smoothened_rtt,
                            match self.last_ping {
                                Some(sent) => elapsed_between(sent, now),
                                None => 0,
                            },
                        ),
                    ),
                    ..self
                },
                _ => self,
            },
            _ => self,
        }
    }

    /// The state after the count of frames taken from the transport went up
    /// by one.
    pub open spec fn counted_received(self) -> ConnectionView {
        ConnectionView {
            frames_received: if self.frames_received == u64::MAX {
                0
            } else {
                (self.frames_received + 1) as u64
            },
            ..self
        }
    }

    /// The state after the oldest waiting frame was handed to the transport.
    pub open spec fn sent(self) -> ConnectionView
        recommends
            self.outbound.len() > 0,
    {
        ConnectionView {
            outbound: self.outbound.skip(1),
            frames_sent: if self.frames_sent == u64::MAX {
                0
            } else {
                (self.frames_sent + 1) as u64
            },
            ..self
        }
    }
}

/// Connection event.
pub enum ConnectionEvent {
    /// Connection has been initialized.
    Connected,
    /// Connection should be closed.
    Closed,
    /// Request a channel to be opened.
    RequestChannel(ChannelRequest),
}

/// What the owner of the connection has to do after a frame from the peer.
pub enum Dispatch {
    /// Nothing.
    Nothing,
    /// Hand the event to whoever polls the connection.
    Event(ConnectionEvent),
    /// Resolve the open that waits under the local id of the channel with
    /// the channel.
    Opened {
        /// The two halves of the new channel.
        channel: Channel,
    },
    /// Resolve the open that waits under the id with the rejection.
    Rejected {
        /// The id that the request went out with.
        local_id: ChannelId,
        /// What the peer gave as its reason.
        rejection: Rejection,
    },
    /// Wake who waited on the channel with the id for what the frame
    /// brought.
    Routed {
        /// Id of the channel at this end.
        local_id: ChannelId,
        /// Whom to wake, and what the writer used of its credit.
        routed: Routed,
    },
}

impl Dispatch {
    /// Whether the decision is the given one, seen as plain values.
    pub open spec fn matches_view(self, view: DispatchView, connection: u64) -> bool {
        match view {
            DispatchView::Nothing => self is Nothing,
            DispatchView::Connected => self matches Dispatch::Event(ConnectionEvent::Connected),
            DispatchView::Closed => self matches Dispatch::Event(ConnectionEvent::Closed),
            DispatchView::RequestChannel(frame) => self matches Dispatch::Event(
                ConnectionEvent::RequestChannel(request),
            ) && request@ == frame,
            DispatchView::Opened { local_id, remote_id } => self matches Dispatch::Opened {
                channel,
            } && channel@ == ChannelView::fresh(connection, local_id, remote_id),
            DispatchView::Rejected { local_id, reason } => self matches Dispatch::Rejected {
                local_id: id,
                rejection,
            } && id.0 == local_id && rejection@ == reason,
            DispatchView::Routed { local_id, routed } => self matches Dispatch::Routed {
                local_id: id,
                routed: woken,
            } && id.0 == local_id && woken == routed,
            DispatchView::Violation(_) => false,
        }
    }
}

/// What became of a command.
pub enum CmdOutcome {
    /// The request went out; the open waits under this id for the peer's
    /// answer.
    Requested {
        /// The id that the request went out with.
        local_id: ChannelId,
    },
    /// The acceptance went out and the channel exists.
    Accepted {
        /// The two halves of the new channel.
        channel: Channel,
    },
    /// No channel id was left: nothing was opened or accepted.
    Refused,
}

/// What the transport yields when it is polled for the next message.
pub enum Incoming<RecvError> {
    /// A message.
    Message(Bytes),
    /// The transport failed.
    Error(RecvError),
    /// The transport has ended.
    End,
}

/// The states of the channels of a connection, as plain values.
pub open spec fn channel_views(channels: Map<u64, ChannelHandle>) -> Map<u64, ChannelStateView> {
    channels.map_values(|handle: ChannelHandle| handle@)
}

/// A connection over which multiple channels can be multiplexed.
///
/// **The connection must be fed and polled by its owner to make any
/// progress!**
pub struct Connection {
    /// Identity of the connection, by which the halves of its channels are
    /// told from those of other connections.
    id: u64,
    /// Indicates that no more frames will arrive over the transport layer.
    exhausted: bool,
    /// Connection has been closed.
    closed: bool,
    /// Frames to send over the transport layer, oldest first.
    outbound: VecDeque<Frame>,
    /// Id of the next channel.
    next_channel_id: u64,
    /// Pending requests for opening channels.
    pending_requests: HashSet<u64>,
    /// Channels opened over the connection.
    channels: HashMap<u64, ChannelHandle>,
    /// Last time a ping was sent.
    last_ping: Option<u64>,
    /// Smoothened estimated round-trip time.
    smoothened_rtt: Option<u64>,
    /// Indicates whether a pong has been received.
    pong_received: bool,
    /// Frames sent over the connection.
    frames_sent: u64,
    /// Frames received over the connection.
    frames_received: u64,
}

impl View for Connection {
    type V = ConnectionView;

    closed spec fn view(&self) -> ConnectionView {
        ConnectionView {
            id: self.id,
            exhausted: self.exhausted,
            closed: self.closed,
            outbound: frame_views(self.outbound@),
            next_channel_id: self.next_channel_id,
            pending_requests: self.pending_requests@,
            channels: channel_views(self.channels@),
            last_ping: self.last_ping,
            smoothened_rtt: self.smoothened_rtt,
            pong_received: self.pong_received,
            frames_sent: self.frames_sent,
            frames_received: self.frames_received,
        }
    }
}

impl ConnectionView {
    /// What a writer works on, if its channel is one of this connection.
    pub open spec fn writing(self, half: SenderHalfView) -> Option<Writing> {
        if half.connection == self.id && self.channels.contains_key(half.local_id) {
            Some(
                Writing {
                    half,
                    shared: self.channels[half.local_id].sender,
                    outbound: self.outbound,
                },
            )
        } else {
            None
        }
    }

    /// The connection with what a writer left.
    pub open spec fn with_writing(self, writing: Writing) -> ConnectionView {
        ConnectionView {
            channels: self.channels.insert(
                writing.half.local_id,
                ChannelStateView {
                    sender: writing.shared,
                    ..self.channels[writing.half.local_id]
                },
            ),
            outbound: writing.outbound,
            ..self
        }
    }

    /// What a reader works on, if its channel is one of this connection.
    pub open spec fn reading(self, half: ReceiverHalfView) -> Option<Reading> {
        if half.connection == self.id && self.channels.contains_key(half.local_id) {
            Some(
                Reading {
                    half,
                    shared: self.channels[half.local_id].receiver,
                    outbound: self.outbound,
                },
            )
        } else {
            None
        }
    }

    /// The connection with what a reader left.
    pub open spec fn with_reading(self, reading: Reading) -> ConnectionView {
        ConnectionView {
            channels: self.channels.insert(
                reading.half.local_id,
                ChannelStateView {
                    receiver: reading.shared,
                    ..self.channels[reading.half.local_id]
                },
            ),
            outbound: reading.outbound,
            ..self
        }
    }
}

impl Connection {
    /// Create a connection with the given identity. The hello frame is the
    /// first to go out.
    pub fn new(id: u64) -> (connection: Self)
        ensures
            connection@ == ConnectionView::fresh(id),
            connection@.wf(),
    {
        let mut outbound = VecDeque::new();
        let info: [u8; 0] = [];
        assert(info@ =~= Seq::<u8>::empty());
        assert(PROTOCOL_MAGIC@ =~= protocol_magic());
        enqueue(&mut outbound, Frame::Hello(FrameHello::new(&PROTOCOL_MAGIC, info.as_slice())));
        assert(frame_views(outbound@) =~= seq![
            FrameView::Hello { magic: protocol_magic(), info: Seq::empty() },
        ]);
        let connection = Self {
            id,
            exhausted: false,
            closed: false,
            outbound,
            next_channel_id: 1,
            pending_requests: HashSet::new(),
            channels: HashMap::new(),
            last_ping: None,
            smoothened_rtt: None,
            pong_received: true,
            frames_sent: 0,
            frames_received: 0,
        };
        assert(channel_views(connection.channels@) =~= Map::empty());
        connection
    }

    /// Identity of the connection.
    pub fn id(&self) -> (id: u64)
        ensures
            id == self@.id,
    {
        self.id
    }

    /// Whether the peer has closed the connection.
    pub fn is_closed(&self) -> (closed: bool)
        ensures
            closed == self@.closed,
    {
        self.closed
    }

    /// Whether the transport has ended, so that it is not polled again.
    pub fn is_exhausted(&self) -> (exhausted: bool)
        ensures
            exhausted == self@.exhausted,
    {
        self.exhausted
    }

    /// Obtain the estimated round-trip time of the connection, in
    /// nanoseconds.
    pub fn estimate_round_trip_time(&self) -> (rtt: Option<u64>)
        ensures
            rtt == self@.smoothened_rtt,
    {
        self.smoothened_rtt
    }

    /// Obtain an estimate on the number of frames sent over the connection.
    pub fn estimate_frames_sent(&self) -> (frames: u64)
        ensures
            frames == self@.frames_sent,
    {
        self.frames_sent
    }

    /// Obtain an estimate on the number of frames received over the
    /// connection.
    pub fn estimate_frames_received(&self) -> (frames: u64)
        ensures
            frames == self@.frames_received,
    {
        self.frames_received
    }

    /// Whether a keepalive tick is of interest: only while no ping is
    /// outstanding.
    pub fn wants_tick(&self) -> (wanted: bool)
        ensures
            wanted == self@.pong_received,
    {
        self.pong_received
    }

    /// The state of the channel with the given id at this end, if the
    /// channel exists.
    pub fn channel(&self, local_id: ChannelId) -> (channel: Option<&ChannelHandle>)
        ensures
            match channel {
                Some(handle) => self@.channels.contains_key(local_id.0) && handle@
                    == self@.channels[local_id.0],
                None => !self@.channels.contains_key(local_id.0),
            },
    {
        self.channels.get(&local_id.0)
    }

    /// Send a frame over the connection: it goes out after all frames that
    /// were queued before it.
    pub fn send_frame(&mut self, frame: Frame)
        ensures
            final(self)@ == (ConnectionView {
                outbound: old(self)@.outbound.push(frame@),
                ..old(self)@
            }),
    {
        enqueue(&mut self.outbound, frame);
    }

    /// Reserve a channel id: the next one, unless only the largest is left.
    fn reserve_channel_id(&mut self) -> (reserved: Option<ChannelId>)
        ensures
            old(self)@.can_reserve() ==> reserved == Some(ChannelId(old(self)@.next_channel_id))
                && final(self)@ == (ConnectionView {
                next_channel_id: (old(self)@.next_channel_id + 1) as u64,
                ..old(self)@
            }),
            !old(self)@.can_reserve() ==> reserved is None && final(self)@ == old(self)@,
    {
        match self.next_channel_id.checked_add(1) {
            Some(next) => {
                let id = ChannelId(self.next_channel_id);
                self.next_channel_id = next;
                Some(id)
            },
            None => None,
        }
    }

    /// Puts the state of a channel under the id of the channel.
    fn put_channel(&mut self, local_id: u64, handle: ChannelHandle)
        ensures
            final(self)@ == (ConnectionView {
                channels: old(self)@.channels.insert(local_id, handle@),
                ..old(self)@
            }),
    {
        let ghost before = self.channels@;
        self.channels.insert(local_id, handle);
        assert(channel_views(self.channels@) =~= channel_views(before).insert(local_id, handle@));
    }

    /// Takes the state of a channel out from under the id of the channel.
    fn take_channel(&mut self, local_id: u64) -> (taken: Option<ChannelHandle>)
        ensures
            match taken {
                Some(handle) => old(self)@.channels.contains_key(local_id) && handle@ == old(
                    self,
                )@.channels[local_id] && final(self)@ == (ConnectionView {
                    channels: old(self)@.channels.remove(local_id),
                    ..old(self)@
                }),
                None => !old(self)@.channels.contains_key(local_id) && final(self)@ == old(self)@,
            },
    {
        let ghost before = self.channels@;
        let taken = self.channels.remove(&local_id);
        assert(channel_views(self.channels@) =~= channel_views(before).remove(local_id));
        if taken.is_none() {
            assert(channel_views(self.channels@) =~= channel_views(before));
        }
        taken
    }

    /// Make a new channel based on the provided ids.
    fn make_channel(&mut self, local_id: ChannelId, remote_id: ChannelId, now: u64) -> (channel:
        Channel)
        ensures
            channel@ == ChannelView::fresh(old(self)@.id, local_id.0, remote_id.0),
            final(self)@ == (ConnectionView {
                channels: old(self)@.channels.insert(
                    local_id.0,
                    ChannelStateView::fresh(local_id.0, remote_id.0, now),
                ),
                ..old(self)@
            }),
    {
        let (channel, handle) = Channel::new(self.id, local_id, remote_id, now);
        self.put_channel(local_id.0, handle);
        channel
    }

    /// Handle a connection command.
    pub fn handle_cmd(&mut self, cmd: ConnectionCmd, now: u64) -> (outcome: CmdOutcome)
        ensures
            final(self)@ == old(self)@.after_cmd(cmd, now),
            old(self)@.wf() ==> final(self)@.wf(),
            match cmd {
                ConnectionCmd::OpenChannel { .. } => if old(self)@.can_reserve() {
                    outcome matches CmdOutcome::Requested { local_id } && local_id.0 == old(
                        self,
                    )@.next_channel_id
                } else {
                    outcome is Refused
                },
                ConnectionCmd::AcceptChannel { accept } => if old(self)@.can_reserve() {
                    outcome matches CmdOutcome::Accepted { channel } && channel@
                        == ChannelView::fresh(
                        old(self)@.id,
                        old(self)@.next_channel_id,
                        accept@.receiver_id(),
                    )
                } else {
                    outcome is Refused
                },
            },
    {
        match cmd {
            ConnectionCmd::OpenChannel { request } => {
                match self.reserve_channel_id() {
                    Some(local_id) => {
                        self.send_frame(Frame::ChannelRequest(request.set_sender_id(local_id)));
                        self.pending_requests.insert(local_id.0);
                        CmdOutcome::Requested { local_id }
                    },
                    None => CmdOutcome::Refused,
                }
            },
            ConnectionCmd::AcceptChannel { accept } => {
                let remote_id = accept.receiver_id();
                match self.reserve_channel_id() {
                    Some(local_id) => {
                        self.send_frame(Frame::ChannelAccept(accept.set_sender_id(local_id)));
                        let channel = self.make_channel(local_id, remote_id, now);
                        CmdOutcome::Accepted { channel }
                    },
                    None => {
                        let reason: [u8; 0] = [];
                        assert(reason@ =~= Seq::<u8>::empty());
                        self.send_frame(
                            Frame::ChannelReject(
                                FrameChannelReject::new(remote_id, reason.as_slice()),
                            ),
                        );
                        CmdOutcome::Refused
                    },
                }
            },
        }
    }

    /// Hands a frame to the channel that it is addressed to, if the channel
    /// exists.
    fn route(&mut self, local_id: ChannelId, frame: Frame, now: u64) -> (handled: Result<
        Dispatch,
        ProtocolViolation,
    >)
        requires
            frame@ is ChannelData || frame@ is ChannelAdjust || frame@ is ChannelClose || frame@
                is ChannelClosed,
            local_id.0 == frame@.receiver_id(),
        ensures
            match old(self)@.dispatch(frame@, now) {
                DispatchView::Violation(message) => handled is Err && handled->Err_0.0@ == message
                    && final(self)@ == old(self)@,
                decision => handled is Ok && handled->Ok_0.matches_view(decision, old(self)@.id)
                    && final(self)@ == old(self)@.after_frame(frame@, now),
            },
    {
        let mut handle = match self.take_channel(local_id.0) {
            Some(handle) => handle,
            None => {
                return Ok(Dispatch::Nothing);
            },
        };
        let routed = handle.handle_frame(frame, now);
        self.put_channel(local_id.0, handle);
        match routed {
            Ok(routed) => {
                assert(self@.channels =~= old(self)@.after_frame(frame@, now).channels);
                Ok(Dispatch::Routed { local_id, routed })
            },
            Err(violation) => {
                assert(self@.channels =~= old(self)@.channels);
                Err(violation)
            },
        }
    }

    /// Handle a frame.
    pub fn handle_frame(&mut self, frame: Frame, now: u64) -> (handled: Result<
        Dispatch,
        ProtocolViolation,
    >)
        ensures
            match old(self)@.dispatch(frame@, now) {
                DispatchView::Violation(message) => handled is Err && handled->Err_0.0@ == message
                    && final(self)@ == old(self)@,
                decision => handled is Ok && handled->Ok_0.matches_view(decision, old(self)@.id)
                    && final(self)@ == old(self)@.after_frame(frame@, now),
            },
            old(self)@.wf() ==> final(self)@.wf(),
    {
        match frame {
            Frame::Hello(_) => Ok(Dispatch::Event(ConnectionEvent::Connected)),
            Frame::Close(_) => {
                self.closed = true;
                Ok(Dispatch::Event(ConnectionEvent::Closed))
            },
            Frame::ChannelRequest(frame) => Ok(
                Dispatch::Event(ConnectionEvent::RequestChannel(ChannelRequest::new(frame))),
            ),
            Frame::ChannelAccept(frame) => {
                let local_id = frame.receiver_id();
                let remote_id = frame.sender_id();
                let ghost before = self.pending_requests@;
                if !self.pending_requests.remove(&local_id.0) {
                    assert(self.pending_requests@ =~= before);
                    return Err(ProtocolViolation("channel request not found"));
                }
                let channel = self.make_channel(local_id, remote_id, now);
                Ok(Dispatch::Opened { channel })
            },
            Frame::ChannelReject(frame) => {
                let local_id = frame.receiver_id();
                let ghost before = self.pending_requests@;
                if !self.pending_requests.remove(&local_id.0) {
                    assert(self.pending_requests@ =~= before);
                    return Err(ProtocolViolation("channel request not found"));
                }
                Ok(Dispatch::Rejected { local_id, rejection: Rejection::new(frame) })
            },
            Frame::ChannelData(data) => {
                let local_id = data.receiver_id();
                self.route(local_id, Frame::ChannelData(data), now)
            },
            Frame::ChannelAdjust(adjust) => {
                let local_id = adjust.receiver_id();
                self.route(local_id, Frame::ChannelAdjust(adjust), now)
            },
            Frame::ChannelClose(close) => {
                let local_id = close.receiver_id();
                self.route(local_id, Frame::ChannelClose(close), now)
            },
            Frame::ChannelClosed(closed) => {
                let local_id = closed.receiver_id();
                self.route(local_id, Frame::ChannelClosed(closed), now)
            },
            Frame::Ping(_) => {
                self.send_frame(Frame::Pong(FramePong::new()));
                Ok(Dispatch::Nothing)
            },
            Frame::Pong(_) => {
                self.handle_pong(now)?;
                Ok(Dispatch::Nothing)
            },
        }
    }

    /// Accept bytes from the writer of one of the channels.
    ///
    /// A writer whose channel is none of this connection finds it closed.
    pub fn poll_write(&mut self, sender: &mut Sender, buf: &[u8]) -> (polled: Poll<
        Result<usize, ChannelSendError>,
    >)
        requires
            buf@.len() + FrameChannelData::MIN_FRAME_SIZE <= usize::MAX,
        ensures
            match old(self)@.writing(old(sender)@) {
                Some(writing) => final(self)@ == old(self)@.with_writing(
                    writing.written(buf@).0,
                ) && final(sender)@ == writing.written(buf@).0.half && polled == writing.written(
                    buf@,
                ).1,
                None => final(self)@ == old(self)@ && final(sender)@ == old(sender)@ && polled
                    == Poll::Ready(Err::<usize, ChannelSendError>(ChannelSendError::Closed)),
            },
    {
        if sender.connection() != self.id {
            return Poll::Ready(Err(ChannelSendError::Closed));
        }
        let local_id = sender.local_id().0;
        let mut handle = match self.take_channel(local_id) {
            Some(handle) => handle,
            None => {
                return Poll::Ready(Err(ChannelSendError::Closed));
            },
        };
        let polled = sender.poll_write(&mut handle.sender_shared, &mut self.outbound, buf);
        self.put_channel(local_id, handle);
        assert(self@.channels =~= old(self)@.with_writing(
            old(self)@.writing(old(sender)@)->0.written(buf@).0,
        ).channels);
        polled
    }

    /// Drive the pending chunk of a writer out.
    ///
    /// A writer whose channel is none of this connection finds it closed.
    pub fn poll_flush(&mut self, sender: &mut Sender) -> (polled: Poll<
        Result<(), ChannelSendError>,
    >)
        ensures
            match old(self)@.writing(old(sender)@) {
                Some(writing) => final(self)@ == old(self)@.with_writing(writing.flushed().0)
                    && final(sender)@ == writing.flushed().0.half && polled
                    == writing.flushed().1,
                None => final(self)@ == old(self)@ && final(sender)@ == old(sender)@ && polled
                    == Poll::Ready(Err::<(), ChannelSendError>(ChannelSendError::Closed)),
            },
    {
        if sender.connection() != self.id {
            return Poll::Ready(Err(ChannelSendError::Closed));
        }
        let local_id = sender.local_id().0;
        let mut handle = match self.take_channel(local_id) {
            Some(handle) => handle,
            None => {
                return Poll::Ready(Err(ChannelSendError::Closed));
            },
        };
        let polled = sender.poll_flush(&mut handle.sender_shared, &mut self.outbound);
        self.put_channel(local_id, handle);
        assert(self@.channels =~= old(self)@.with_writing(
            old(self)@.writing(old(sender)@)->0.flushed().0,
        ).channels);
        polled
    }

    /// Flush a writer, then tell the peer that nothing more will be sent.
    ///
    /// A writer whose channel is none of this connection finds it closed.
    pub fn poll_close(&mut self, sender: &mut Sender) -> (polled: Poll<
        Result<(), ChannelSendError>,
    >)
        ensures
            match old(self)@.writing(old(sender)@) {
                Some(writing) => final(self)@ == old(self)@.with_writing(writing.closed().0)
                    && final(sender)@ == writing.closed().0.half && polled == writing.closed().1,
                None => final(self)@ == old(self)@ && final(sender)@ == old(sender)@ && polled
                    == Poll::Ready(Err::<(), ChannelSendError>(ChannelSendError::Closed)),
            },
    {
        if sender.connection() != self.id {
            return Poll::Ready(Err(ChannelSendError::Closed));
        }
        let local_id = sender.local_id().0;
        let mut handle = match self.take_channel(local_id) {
            Some(handle) => handle,
            None => {
                return Poll::Ready(Err(ChannelSendError::Closed));
            },
        };
        let polled = sender.poll_close(&mut handle.sender_shared, &mut self.outbound);
        self.put_channel(local_id, handle);
        assert(self@.channels =~= old(self)@.with_writing(
            old(self)@.writing(old(sender)@)->0.closed().0,
        ).channels);
        polled
    }

    /// Poll the next chunk for the reader of one of the channels. The credit
    /// that the channel grants grows by the round-trip time of this
    /// connection.
    ///
    /// A reader whose channel is none of this connection finds its stream
    /// at its end.
    pub fn poll_next_chunk(&mut self, receiver: &mut Receiver, now: u64) -> (polled: Poll<
        Option<Received>,
    >)
        ensures
            match old(self)@.reading(old(receiver)@) {
                Some(reading) => {
                    let next = reading.next(old(self)@.smoothened_rtt, now);
                    final(self)@ == old(self)@.with_reading(next.0) && final(receiver)@
                        == next.0.half && received_view(polled) == next.1
                },
                None => final(self)@ == old(self)@ && final(receiver)@ == old(receiver)@
                    && polled matches Poll::Ready(None),
            },
    {
        if receiver.connection() != self.id {
            return Poll::Ready(None);
        }
        let local_id = receiver.local_id().0;
        let mut handle = match self.take_channel(local_id) {
            Some(handle) => handle,
            None => {
                return Poll::Ready(None);
            },
        };
        let polled = receiver.poll_next_chunk(
            &mut handle.receiver_shared,
            &mut self.outbound,
            self.smoothened_rtt,
            now,
        );
        self.put_channel(local_id, handle);
        assert(self@.channels =~= old(self)@.with_reading(
            old(self)@.reading(old(receiver)@)->0.next(old(self)@.smoothened_rtt, now).0,
        ).channels);
        polled
    }

    /// Read bytes of the stream of one of the channels into `buf`.
    ///
    /// A reader whose channel is none of this connection finds its stream
    /// at its end.
    pub fn poll_read(&mut self, receiver: &mut Receiver, now: u64, buf: &mut [u8]) -> (polled:
        Poll<ReadOutcome>)
        ensures
            match old(self)@.reading(old(receiver)@) {
                Some(reading) => {
                    let read = reading.read(old(buf)@, old(self)@.smoothened_rtt, now);
                    final(self)@ == old(self)@.with_reading(read.0) && final(receiver)@
                        == read.0.half && final(buf)@ == read.1 && polled == read.2
                },
                None => final(self)@ == old(self)@ && final(receiver)@ == old(receiver)@
                    && final(buf)@ == old(buf)@ && polled == Poll::Ready(
                    ReadOutcome { len: 0, granted: None },
                ),
            },
    {
        if receiver.connection() != self.id {
            return Poll::Ready(ReadOutcome { len: 0, granted: None });
        }
        let local_id = receiver.local_id().0;
        let mut handle = match self.take_channel(local_id) {
            Some(handle) => handle,
            None => {
                return Poll::Ready(ReadOutcome { len: 0, granted: None });
            },
        };
        let polled = receiver.poll_read(
            &mut handle.receiver_shared,
            &mut self.outbound,
            self.smoothened_rtt,
            now,
            buf,
        );
        self.put_channel(local_id, handle);
        assert(self@.channels =~= old(self)@.with_reading(
            old(self)@.reading(old(receiver)@)->0.read(
                old(buf)@,
                old(self)@.smoothened_rtt,
                now,
            ).0,
        ).channels);
        polled
    }

    /// Give a reader up: the peer is told to stop sending on its channel.
    pub fn release(&mut self, receiver: Receiver)
        ensures
            final(self)@ == (ConnectionView {
                outbound: old(self)@.outbound.push(
                    FrameView::ChannelClose {
                        receiver_id: receiver@.remote_id,
                        reason: Seq::empty(),
                    },
                ),
                ..old(self)@
            }),
    {
        receiver.release(&mut self.outbound);
    }

    /// Send a ping, if necessary: on a keepalive tick, unless the last ping
    /// is still unanswered. Returns whether a ping went out, after which the
    /// keepalive timer starts over.
    pub fn ping(&mut self, tick: bool, now: u64) -> (sent: bool)
        ensures
            sent == (tick && old(self)@.pong_received),
            final(self)@ == if tick {
                old(self)@.pinged(now)
            } else {
                old(self)@
            },
            old(self)@.wf() ==> final(self)@.wf(),
    {
        if !self.pong_received {
            // We are still waiting for the pong.
            return false;
        }
        if tick {
            self.pong_received = false;
            self.last_ping = Some(now);
            self.send_frame(Frame::Ping(FramePing::new()));
            true
        } else {
            false
        }
    }

    /// Handle a pong: it answers the outstanding ping, and the time since
    /// that ping goes into the smoothened round-trip time. A pong without an
    /// outstanding ping violates the protocol.
    fn handle_pong(&mut self, now: u64) -> (handled: Result<(), ProtocolViolation>)
        ensures
            if old(self)@.pong_received {
                handled is Err && handled->Err_0.0@ == "received pong but no ping has been sent"@
                    && final(self)@ == old(self)@
            } else {
                handled is Ok && final(self)@ == old(self)@.after_frame(FrameView::Pong, now)
            },
            old(self)@.wf() ==> final(self)@.wf(),
    {
        if self.pong_received {
            return Err(ProtocolViolation("received pong but no ping has been sent"));
        }
        let latest_rtt = match self.last_ping {
            Some(last_ping) => elapsed(last_ping, now),
            None => 0,
        };
        self.pong_received = true;
        self.smoothened_rtt = Some(
            match self.smoothened_rtt {
                Some(smoothened_rtt) => ((smoothened_rtt as u128 * 7) / 8) as u64 + latest_rtt / 8,
                None => latest_rtt,
            },
        );
        Ok(())
    }

    /// Take the next frame to hand to the transport, oldest first, and count
    /// it as sent.
    pub fn poll_outbound(&mut self) -> (next: Option<Bytes>)
        ensures
            old(self)@.outbound.len() == 0 ==> next is None && final(self)@ == old(self)@,
            old(self)@.outbound.len() > 0 ==> next is Some && final(self)@ == old(self)@.sent()
                && parse_frame(bytes_view(next->0)) == Ok::<FrameView, InvalidFrameError>(
                old(self)@.outbound[0],
            ),
    {
        let ghost before = self.outbound@;
        match self.outbound.pop_front() {
            Some(frame) => {
                assert(frame_views(self.outbound@) =~= frame_views(before).skip(1));
                self.frames_sent = self.frames_sent.wrapping_add(1);
                Some(frame.into_bytes())
            },
            None => {
                assert(frame_views(self.outbound@) =~= frame_views(before));
                None
            },
        }
    }

    /// Take in what the transport yielded.
    ///
    /// A message is parsed as a frame, counted and handled; a message that
    /// is no frame violates the protocol. A failure of the transport ends
    /// the connection with that failure. When the transport ends, this is
    /// remembered and nothing else happens.
    pub fn poll_event<RecvError, SendError>(
        &mut self,
        incoming: Incoming<RecvError>,
        now: u64,
    ) -> (polled: Result<Dispatch, ConnectionError<RecvError, SendError>>)
        ensures
            match incoming {
                Incoming::Message(message) => match parse_frame(bytes_view(message)) {
                    Err(_) => polled matches Err(ConnectionError::ProtocolViolation(violation))
                        && violation.0@ == "invalid frame"@ && final(self)@ == old(self)@,
                    Ok(frame) => match old(self)@.counted_received().dispatch(frame, now) {
                        DispatchView::Violation(message) => polled matches Err(
                            ConnectionError::ProtocolViolation(violation),
                        ) && violation.0@ == message && final(self)@ == old(
                            self,
                        )@.counted_received(),
                        decision => polled is Ok && polled->Ok_0.matches_view(
                            decision,
                            old(self)@.id,
                        ) && final(self)@ == old(self)@.counted_received().after_frame(frame, now),
                    },
                },
                Incoming::Error(error) => polled matches Err(
                    ConnectionError::TransportError(TransportError::RecvError(e)),
                ) && e == error && final(self)@ == old(self)@,
                Incoming::End => polled matches Ok(Dispatch::Nothing) && final(self)@ == (
                ConnectionView { exhausted: true, ..old(self)@ }),
            },
            old(self)@.wf() ==> final(self)@.wf(),
    {
        match incoming {
            Incoming::Message(message) => match Frame::parse(message) {
                Ok(frame) => {
                    self.frames_received = self.frames_received.wrapping_add(1);
                    match self.handle_frame(frame, now) {
                        Ok(dispatch) => Ok(dispatch),
                        Err(violation) => Err(ConnectionError::ProtocolViolation(violation)),
                    }
                },
                Err(_) => Err(
                    ConnectionError::ProtocolViolation(ProtocolViolation("invalid frame")),
                ),
            },
            Incoming::Error(error) => Err(
                ConnectionError::TransportError(TransportError::RecvError(error)),
            ),
            Incoming::End => {
                self.exhausted = true;
                Ok(Dispatch::Nothing)
            },
        }
    }
}

} // verus!
