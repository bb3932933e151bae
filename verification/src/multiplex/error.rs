//! The ways in which a connection or an attempt to open a channel fails.

use crate::multiplex::frames::FrameChannelReject;
use vstd::prelude::*;

verus! {

/// Protocol violation: the peer sent something that the protocol forbids. It
/// ends the connection.
#[derive(Debug, Clone, Copy)]
pub struct ProtocolViolation(pub &'static str);

impl ProtocolViolation {
    /// What was violated, in words.
    pub fn message(&self) -> (message: &'static str)
        ensures
            message@ == self.0@,
    {
        self.0
    }
}

/// Error receiving or sending a message.
#[derive(Debug)]
pub enum TransportError<RecvError, SendError> {
    /// Error receiving a message.
    RecvError(RecvError),
    /// Error sending a message.
    SendError(SendError),
}

/// Connection error.
#[derive(Debug)]
pub enum ConnectionError<RecvError, SendError> {
    /// Error on the transport layer.
    TransportError(TransportError<RecvError, SendError>),
    /// Protocol violation.
    ProtocolViolation(ProtocolViolation),
}

/// Error sending a message over an in-memory transport layer.
///
/// This error is generated iff the receiver has been dropped.
#[derive(Debug, Clone, Copy)]
pub struct InMemorySendError(pub ());

/// Channel rejection.
pub struct Rejection {
    /// Frame containing the rejection.
    frame: FrameChannelReject,
}

impl View for Rejection {
    type V = Seq<u8>;

    closed spec fn view(&self) -> Seq<u8> {
        self.frame@.tail()
    }
}

impl Rejection {
    /// The rejection that a reject frame carries.
    pub fn new(frame: FrameChannelReject) -> (rejection: Rejection)
        ensures
            rejection@ == frame@.tail(),
    {
        Rejection { frame }
    }

    /// Reason why the channel has been rejected.
    pub fn reason(&self) -> (reason: &[u8])
        ensures
            reason@ == self@,
    {
        self.frame.reason()
    }
}

/// Error opening a channel.
pub enum OpenError {
    /// The connection has been closed.
    Closed,
    /// The request has been rejected.
    Rejected(Rejection),
}

} // verus!
