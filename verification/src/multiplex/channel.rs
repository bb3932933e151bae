//! Channels: the two halves, the state they share with the connection, and
//! the handle by which a requested channel is accepted or rejected.

use crate::multiplex::error::ProtocolViolation;
use crate::multiplex::frames::ChannelId;
use crate::multiplex::frames::Frame;
use crate::multiplex::frames::FrameChannelAccept;
use crate::multiplex::frames::FrameChannelReject;
use crate::multiplex::frames::FrameChannelRequest;
use crate::multiplex::receiver::Receiver;
use crate::multiplex::receiver::ReceiverHalfView;
use crate::multiplex::receiver::ReceiverShared;
use crate::multiplex::receiver::ReceiverView;
use crate::multiplex::sender::elapsed_between;
use crate::multiplex::sender::CreditInterval;
use crate::multiplex::sender::Sender;
use crate::multiplex::sender::SenderHalfView;
use crate::multiplex::sender::SenderShared;
use crate::multiplex::sender::SenderView;
use crate::multiplex::sender::INITIAL_BYTE_CREDIT;
use crate::multiplex::sender::INITIAL_FRAME_CREDIT;
use crate::multiplex::wire::FrameView;
use vstd::prelude::*;

verus! {

/// What the connection keeps of a channel, as plain values.
pub ghost struct ChannelStateView {
    /// Id of the channel at this end.
    pub local_id: u64,
    /// Id of the channel at the peer.
    pub remote_id: u64,
    /// The sending direction.
    pub sender: SenderView,
    /// The receiving direction.
    pub receiver: ReceiverView,
}

/// What a frame that is addressed to a channel asks of the owner of the
/// channel's state.
#[derive(Debug, Clone, Copy, PartialEq, Eq, Structural)]
pub struct Routed {
    /// Whether the parked reader has to be woken.
    pub wake_reader: bool,
    /// Whether the parked writer has to be woken.
    pub wake_writer: bool,
    /// On a credit update: what the sender used since the update before it,
    /// for the estimate of the outbound bandwidth.
    pub interval: Option<CreditInterval>,
}

/// Channel handle to be stored in the connection: the state that the
/// connection shares with the two halves of the channel.
pub struct ChannelHandle {
    /// Local id of the channel.
    pub local_id: ChannelId,
    /// Remote id of the channel.
    pub remote_id: ChannelId,
    /// Shared sender state.
    pub sender_shared: SenderShared,
    /// Shared receiver state.
    pub receiver_shared: ReceiverShared,
}

impl View for ChannelHandle {
    type V = ChannelStateView;

    open spec fn view(&self) -> ChannelStateView {
        ChannelStateView {
            local_id: self.local_id.0,
            remote_id: self.remote_id.0,
            sender: self.sender_shared@,
            receiver: self.receiver_shared@,
        }
    }
}

impl ChannelStateView {
    /// The state of a fresh channel.
    pub open spec fn fresh(local_id: u64, remote_id: u64, now: u64) -> ChannelStateView {
        ChannelStateView {
            local_id,
            remote_id,
            sender: SenderView::fresh(INITIAL_FRAME_CREDIT, INITIAL_BYTE_CREDIT, now),
            receiver: ReceiverView::fresh(now),
        }
    }

    /// Whether the frame violates the protocol on a channel in this state:
    /// only data beyond the granted credit does.
    pub open spec fn violates(self, frame: FrameView) -> bool {
        frame is ChannelData && !(self.receiver.receive_step(frame.tail()) is Accepted)
    }

    /// What the violation is, where a frame violates the protocol.
    pub open spec fn violation(self, frame: FrameView) -> Seq<char> {
        if self.receiver.receive_step(frame.tail()) is NoFrameCredit {
            "no frame credit remaining"@
        } else {
            "not enough byte credit"@
        }
    }

    /// The state after a frame addressed to the channel was taken in. Data is
    /// queued for the reader, an adjustment adds to the writer's credit, a
    /// close stops the writer, and a closed ends the reader's stream. Frames
    /// of other kinds leave the channel as it is.
    pub open spec fn handled(self, frame: FrameView, now: u64) -> ChannelStateView {
        match frame {
            FrameView::ChannelData { payload, .. } => if self.violates(frame) {
                self
            } else {
                ChannelStateView { receiver: self.receiver.received(payload), ..self }
            },
            FrameView::ChannelAdjust { frame_credit, byte_credit, .. } => ChannelStateView {
                sender: self.sender.adjusted(frame_credit, byte_credit, now),
                ..self
            },
            FrameView::ChannelClose { reason, .. } => ChannelStateView {
                sender: self.sender.closed_by_peer(reason),
                ..self
            },
            FrameView::ChannelClosed { .. } => ChannelStateView {
                receiver: self.receiver.closed_by_peer(),
                ..self
            },
            _ => self,
        }
    }

    /// What the owner has to do after a frame that did not violate the
    /// protocol: wake whoever waited for the change.
    pub open spec fn routed(self, frame: FrameView, now: u64) -> Routed {
        match frame {
            FrameView::ChannelData { .. } => Routed {
                wake_reader: self.receiver.parked,
                wake_writer: false,
                interval: None,
            },
            FrameView::ChannelAdjust { .. } => Routed {
                wake_reader: false,
                wake_writer: self.sender.parked,
                interval: Some(
                    CreditInterval {
                        frame_credit: self.sender.used_frame_credit,
                        byte_credit: self.sender.used_byte_credit,
                        elapsed: elapsed_between(self.sender.last_credit_update, now),
                    },
                ),
            },
            FrameView::ChannelClose { .. } => Routed {
                wake_reader: false,
                wake_writer: self.sender.parked,
                interval: None,
            },
            FrameView::ChannelClosed { .. } => Routed {
                wake_reader: self.receiver.parked,
                wake_writer: false,
                interval: None,
            },
            _ => Routed { wake_reader: false, wake_writer: false, interval: None },
        }
    }
}

impl ChannelHandle {
    /// Local id of the channel.
    pub fn local_id(&self) -> (id: ChannelId)
        ensures
            id.0 == self@.local_id,
    {
        self.local_id
    }

    /// Remote id of the channel.
    pub fn remote_id(&self) -> (id: ChannelId)
        ensures
            id.0 == self@.remote_id,
    {
        self.remote_id
    }

    /// Take in a frame that the connection found addressed to this channel.
    ///
    /// Data beyond the granted credit violates the protocol, which ends the
    /// connection. Otherwise the state of the channel changes as the frame
    /// says, and the result tells whom to wake.
    pub fn handle_frame(&mut self, frame: Frame, now: u64) -> (routed: Result<
        Routed,
        ProtocolViolation,
    >)
        ensures
            if old(self)@.violates(frame@) {
                &&& routed is Err
                &&& final(self)@ == old(self)@
                &&& routed->Err_0.0@ == old(self)@.violation(frame@)
            } else {
                &&& routed == Ok::<Routed, ProtocolViolation>(old(self)@.routed(frame@, now))
                &&& final(self)@ == old(self)@.handled(frame@, now)
            },
    {
        match frame {
            Frame::ChannelData(frame) => {
                let wake_reader = self.receiver_shared.receive(frame)?;
                Ok(Routed { wake_reader, wake_writer: false, interval: None })
            },
            Frame::ChannelAdjust(frame) => {
                let (wake_writer, interval) = self.sender_shared.adjust(
                    frame.frame_credit(),
                    frame.byte_credit(),
                    now,
                );
                Ok(Routed { wake_reader: false, wake_writer, interval: Some(interval) })
            },
            Frame::ChannelClose(frame) => {
                let wake_writer = self.sender_shared.close(frame);
                Ok(Routed { wake_reader: false, wake_writer, interval: None })
            },
            Frame::ChannelClosed(_) => {
                let wake_reader = self.receiver_shared.close();
                Ok(Routed { wake_reader, wake_writer: false, interval: None })
            },
            _ => Ok(Routed { wake_reader: false, wake_writer: false, interval: None }),
        }
    }
}

/// What the two halves of a channel hold, as plain values.
pub ghost struct ChannelView {
    /// The writer's side.
    pub sender: SenderHalfView,
    /// The reader's side.
    pub receiver: ReceiverHalfView,
}

/// Bi-directional channel.
pub struct Channel {
    /// Sender.
    sender: Sender,
    /// Receiver.
    receiver: Receiver,
}

impl View for Channel {
    type V = ChannelView;

    closed spec fn view(&self) -> ChannelView {
        ChannelView { sender: self.sender@, receiver: self.receiver@ }
    }
}

impl ChannelView {
    /// The halves of a fresh channel: nothing is pending on either.
    pub open spec fn fresh(connection: u64, local_id: u64, remote_id: u64) -> ChannelView {
        ChannelView {
            sender: SenderHalfView { connection, local_id, remote_id, pending: None },
            receiver: ReceiverHalfView { connection, local_id, remote_id, pending: None },
        }
    }
}

impl Channel {
    /// Create a new channel on the given connection with the given ids, and
    /// the state that the connection keeps of it. Each direction starts with
    /// a credit of 128 frames and 16 KiB.
    pub fn new(connection: u64, local_id: ChannelId, remote_id: ChannelId, now: u64) -> (made: (
        Channel,
        ChannelHandle,
    ))
        ensures
            made.0@ == ChannelView::fresh(connection, local_id.0, remote_id.0),
            made.1@ == ChannelStateView::fresh(local_id.0, remote_id.0, now),
    {
        let channel = Channel {
            sender: Sender::new(connection, local_id, remote_id),
            receiver: Receiver::new(connection, local_id, remote_id),
        };
        let handle = ChannelHandle {
            local_id,
            remote_id,
            sender_shared: SenderShared::new(INITIAL_FRAME_CREDIT, INITIAL_BYTE_CREDIT, now),
            receiver_shared: ReceiverShared::new(now),
        };
        (channel, handle)
    }

    /// Whether a sender and a receiver are the two halves of one channel:
    /// they belong to the same connection and to the same channel of the
    /// peer.
    pub open spec fn belong_together(sender: SenderHalfView, receiver: ReceiverHalfView) -> bool {
        sender.connection == receiver.connection && sender.remote_id == receiver.remote_id
    }

    /// Whether a sender and a receiver are the two halves of one channel.
    pub fn can_merge(sender: &Sender, receiver: &Receiver) -> (fits: bool)
        ensures
            fits == Channel::belong_together(sender@, receiver@),
    {
        sender.connection() == receiver.connection() && sender.remote_id().0
            == receiver.remote_id().0
    }

    /// Merge the sender and receiver into a single channel. The two must
    /// belong to the same connection and the same channel.
    pub fn merge(sender: Sender, receiver: Receiver) -> (channel: Channel)
        requires
            Channel::belong_together(sender@, receiver@),
        ensures
            channel@ == (ChannelView { sender: sender@, receiver: receiver@ }),
    {
        Channel { sender, receiver }
    }

    /// Split the channel into sender and receiver.
    pub fn split(self) -> (halves: (Sender, Receiver))
        ensures
            halves.0@ == self@.sender,
            halves.1@ == self@.receiver,
    {
        (self.sender, self.receiver)
    }
}

/// A command to control the connection, sent by a handle and carried out by
/// the connection, which alone assigns channel ids.
pub enum ConnectionCmd {
    /// Open a new channel.
    OpenChannel {
        /// The request, with the id of the channel at this end still to be
        /// filled in.
        request: FrameChannelRequest,
    },
    /// Accept a channel request.
    AcceptChannel {
        /// The acceptance, with the id of the channel at this end still to be
        /// filled in.
        accept: FrameChannelAccept,
    },
}

impl ConnectionCmd {
    /// The command that opens a channel to the given endpoint, offering the
    /// initial credit. The connection assigns the channel id when it carries
    /// the command out.
    pub fn open(endpoint: &[u8]) -> (cmd: ConnectionCmd)
        requires
            endpoint@.len() + FrameChannelRequest::MIN_FRAME_SIZE <= usize::MAX,
        ensures
            cmd matches ConnectionCmd::OpenChannel { request } && request@
                == (FrameView::ChannelRequest {
                sender_id: 0,
                frame_credit: INITIAL_FRAME_CREDIT,
                byte_credit: INITIAL_BYTE_CREDIT,
                endpoint: endpoint@,
            }),
    {
        ConnectionCmd::OpenChannel {
            request: FrameChannelRequest::new(
                ChannelId::null(),
                INITIAL_FRAME_CREDIT,
                INITIAL_BYTE_CREDIT,
                endpoint,
            ),
        }
    }
}

/// Request to open a channel, as it came from the peer.
///
/// The request is answered once: accepting or rejecting it uses it up.
pub struct ChannelRequest {
    /// Frame.
    request: FrameChannelRequest,
}

impl View for ChannelRequest {
    type V = FrameView;

    closed spec fn view(&self) -> FrameView {
        self.request@
    }
}

impl ChannelRequest {
    /// Create a new channel request.
    pub fn new(request: FrameChannelRequest) -> (made: Self)
        ensures
            made@ == request@,
    {
        Self { request }
    }

    /// Endpoint of the request.
    pub fn endpoint(&self) -> (endpoint: &[u8])
        ensures
            endpoint@ == self@.tail(),
    {
        self.request.endpoint()
    }

    /// Reject the request: the frame that tells the peer so, addressed to the
    /// channel that the peer asked from.
    pub fn reject(self, reason: &[u8]) -> (reject: FrameChannelReject)
        requires
            reason@.len() + FrameChannelReject::MIN_FRAME_SIZE <= usize::MAX,
        ensures
            reject@ == (FrameView::ChannelReject {
                receiver_id: self@.sender_id(),
                reason: reason@,
            }),
    {
        FrameChannelReject::new(self.request.sender_id(), reason)
    }

    /// Accept the request: the command by which the connection assigns the
    /// channel its id at this end, tells the peer, and creates the channel.
    pub fn accept(self) -> (cmd: ConnectionCmd)
        ensures
            cmd matches ConnectionCmd::AcceptChannel { accept } && accept@
                == (FrameView::ChannelAccept {
                receiver_id: self@.sender_id(),
                sender_id: 0,
                frame_credit: INITIAL_FRAME_CREDIT,
                byte_credit: INITIAL_BYTE_CREDIT,
            }),
    {
        ConnectionCmd::AcceptChannel {
            accept: FrameChannelAccept::new(
                self.request.sender_id(),
                ChannelId::null(),
                INITIAL_FRAME_CREDIT,
                INITIAL_BYTE_CREDIT,
            ),
        }
    }
}

} // verus!
