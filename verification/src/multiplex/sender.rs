//! The sending half of a channel.
//!
//! A sender may put data on the wire only as far as the peer has granted
//! credit: one frame credit per data frame and one byte credit per payload
//! byte. The peer replenishes credit with adjust frames and may tell the
//! sender to stop for good. The state that the connection and the writer
//! share is [`SenderShared`]; the writer's own state is [`Sender`].

use crate::multiplex::buffer::bytes_mut_freeze;
use crate::multiplex::buffer::bytes_mut_put_slice;
use crate::multiplex::buffer::bytes_mut_put_u8;
use crate::multiplex::buffer::bytes_mut_with_capacity;
use crate::multiplex::buffer::bytes_view;
use crate::multiplex::frames::ChannelId;
use crate::multiplex::frames::Frame;
use crate::multiplex::frames::FrameChannelClose;
use crate::multiplex::frames::FrameChannelClosed;
use crate::multiplex::frames::FrameChannelData;
use crate::multiplex::poll::Poll;
use crate::multiplex::wire::FrameView;
use crate::multiplex::wire::TAG_CHANNEL_DATA;
use bytes::Bytes;
use std::collections::VecDeque;
use vstd::prelude::*;
use vstd::slice::slice_subrange;

verus! {

/// Frame credit that each side grants on a fresh channel.
pub const INITIAL_FRAME_CREDIT: u32 = 128;

/// Byte credit that each side grants on a fresh channel (16 KiB).
pub const INITIAL_BYTE_CREDIT: u32 = 16384;

/// Byte credit below which a writer waits for more rather than send many
/// tiny frames.
pub const WRITE_THRESHOLD: u32 = 512;

/// Error sending a chunk over a channel.
#[derive(Debug, Clone, Copy, PartialEq, Eq, Structural)]
pub enum ChannelSendError {
    /// Chunk is larger than the byte credit that the peer has granted.
    ChunkTooLarge,
    /// Channel has been closed by the peer.
    Closed,
}

/// Chunk of data received or to be sent over a channel: the payload of one
/// data frame.
pub struct Chunk {
    /// Underlying data frame.
    frame: FrameChannelData,
}

impl View for Chunk {
    type V = Seq<u8>;

    closed spec fn view(&self) -> Seq<u8> {
        self.frame@.tail()
    }
}

impl Chunk {
    /// Construct a new, empty chunk with room for the given number of payload
    /// bytes behind the frame header.
    pub fn with_capacity(capacity: usize) -> (chunk: Chunk)
        requires
            capacity + FrameChannelData::MIN_FRAME_SIZE <= usize::MAX,
        ensures
            chunk@ == Seq::<u8>::empty(),
    {
        let mut bytes = bytes_mut_with_capacity(FrameChannelData::MIN_FRAME_SIZE + capacity);
        bytes_mut_put_u8(&mut bytes, TAG_CHANNEL_DATA);
        bytes_mut_put_slice(&mut bytes, ChannelId::null().to_bytes().as_slice());
        let frame = FrameChannelData::from_raw_bytes(bytes_mut_freeze(bytes));
        assert(frame.wire().skip(9) =~= Seq::<u8>::empty());
        Chunk { frame }
    }

    /// Extend the chunk with the given bytes.
    pub fn extend(self, bytes: &[u8]) -> (extended: Chunk)
        requires
            self@.len() + bytes@.len() + FrameChannelData::MIN_FRAME_SIZE <= usize::MAX,
        ensures
            extended@ == self@ + bytes@,
    {
        let len = self.frame.len();
        assert(self.frame.wire().skip(9).len() == len - 9);
        Chunk { frame: self.frame.extend_payload(bytes) }
    }

    /// Extract the chunk data as a buffer. The data is shared, not copied.
    pub fn to_bytes(&self) -> (bytes: Bytes)
        ensures
            bytes_view(bytes) == self@,
    {
        self.frame.payload_bytes()
    }

    /// The chunk data.
    pub fn as_slice(&self) -> (payload: &[u8])
        ensures
            payload@ == self@,
    {
        self.frame.payload()
    }

    /// The chunk that a received data frame carries.
    pub fn from_frame(frame: FrameChannelData) -> (chunk: Chunk)
        ensures
            chunk@ == frame@.tail(),
    {
        Chunk { frame }
    }

    /// The data frame that carries the chunk to the given channel of the
    /// peer.
    pub fn into_frame(self, receiver_id: ChannelId) -> (frame: FrameChannelData)
        ensures
            frame@ == (FrameView::ChannelData { receiver_id: receiver_id.0, payload: self@ }),
    {
        self.frame.set_receiver_id(receiver_id)
    }
}

/// What the connection and the writer share about the sending direction of a
/// channel, as plain values.
pub ghost struct SenderView {
    /// The reason that the peer gave when it closed the channel, if it did.
    pub closed: Option<Seq<u8>>,
    /// Whether the writer waits to be woken.
    pub parked: bool,
    /// Remaining frame credit.
    pub remaining_frame_credit: u32,
    /// Remaining byte credit.
    pub remaining_byte_credit: u32,
    /// Time of the last credit update.
    pub last_credit_update: u64,
    /// Frame credit used since the last credit update.
    pub used_frame_credit: u32,
    /// Byte credit used since the last credit update.
    pub used_byte_credit: u32,
}

/// What an attempt to send the pending chunk comes to.
pub ghost enum SendStep {
    /// The peer has closed the channel: nothing is sent any more.
    Closed,
    /// No chunk is pending.
    Idle,
    /// The pending chunk exceeds the remaining byte credit.
    TooLarge,
    /// The pending chunk goes out as one data frame.
    Sent,
    /// No frame credit is left: the writer waits.
    Parked,
}

impl SenderView {
    /// The state of a fresh channel with the given initial credits.
    pub open spec fn fresh(frame_credit: u32, byte_credit: u32, now: u64) -> SenderView {
        SenderView {
            closed: None,
            parked: false,
            remaining_frame_credit: frame_credit,
            remaining_byte_credit: byte_credit,
            last_credit_update: now,
            used_frame_credit: 0,
            used_byte_credit: 0,
        }
    }

    /// The counters of used credit never run past what was remaining when
    /// they were last reset.
    pub open spec fn wf(self) -> bool {
        &&& self.used_frame_credit + self.remaining_frame_credit <= u32::MAX
        &&& self.used_byte_credit + self.remaining_byte_credit <= u32::MAX
    }

    /// The state after the peer granted further credit. Remaining credit
    /// grows by what was granted and stops at the largest value a credit can
    /// hold; the usage counters start over; a waiting writer is woken.
    pub open spec fn adjusted(self, frame_credit: u32, byte_credit: u32, now: u64) -> SenderView {
        SenderView {
            closed: self.closed,
            parked: false,
            remaining_frame_credit: if self.remaining_frame_credit + frame_credit > u32::MAX {
                u32::MAX
            } else {
                (self.remaining_frame_credit + frame_credit) as u32
            },
            remaining_byte_credit: if self.remaining_byte_credit + byte_credit > u32::MAX {
                u32::MAX
            } else {
                (self.remaining_byte_credit + byte_credit) as u32
            },
            last_credit_update: now,
            used_frame_credit: 0,
            used_byte_credit: 0,
        }
    }

    /// The state after the peer closed the channel for the given reason: the
    /// direction is half-closed and a waiting writer is woken.
    pub open spec fn closed_by_peer(self, reason: Seq<u8>) -> SenderView {
        SenderView { closed: Some(reason), parked: false, ..self }
    }

    /// What an attempt to send comes to, given the payload of the pending
    /// chunk if there is one.
    pub open spec fn send_step(self, pending: Option<Seq<u8>>) -> SendStep {
        if self.closed is Some {
            SendStep::Closed
        } else if pending is None {
            SendStep::Idle
        } else if pending->0.len() > self.remaining_byte_credit {
            SendStep::TooLarge
        } else if self.remaining_frame_credit > 0 {
            SendStep::Sent
        } else {
            SendStep::Parked
        }
    }

    /// The state after a data frame with a payload of the given length went
    /// out.
    pub open spec fn sent(self, len: nat) -> SenderView
        recommends
            self.remaining_frame_credit > 0,
            len <= self.remaining_byte_credit,
    {
        SenderView {
            remaining_frame_credit: (self.remaining_frame_credit - 1) as u32,
            remaining_byte_credit: (self.remaining_byte_credit - len) as u32,
            used_frame_credit: (self.used_frame_credit + 1) as u32,
            used_byte_credit: (self.used_byte_credit + len) as u32,
            ..self
        }
    }

    /// The state after the writer decided to wait.
    pub open spec fn parked(self) -> SenderView {
        SenderView { parked: true, ..self }
    }

    /// The state after an attempt to send the pending chunk.
    pub open spec fn after_send(self, pending: Option<Seq<u8>>) -> SenderView {
        match self.send_step(pending) {
            SendStep::Sent => self.sent(pending->0.len()),
            SendStep::Parked => self.parked(),
            _ => self,
        }
    }
}

/// The credit that a sender used between two credit updates, and how long
/// that took: what an estimate of the used bandwidth is made from.
#[derive(Debug, Clone, Copy, PartialEq, Eq, Structural)]
pub struct CreditInterval {
    /// Frame credit used (or granted) in the interval.
    pub frame_credit: u32,
    /// Byte credit used (or granted) in the interval.
    pub byte_credit: u32,
    /// Length of the interval in nanoseconds.
    pub elapsed: u64,
}

/// Shared state of the sending end of a channel.
pub struct SenderShared {
    /// The frame by which the receiver closed the channel, if it did.
    closed: Option<FrameChannelClose>,
    /// Whether the writer waits to be woken when something changes.
    parked: bool,
    /// Remaining frame credit.
    remaining_frame_credit: u32,
    /// Remaining byte credit.
    remaining_byte_credit: u32,
    /// Time of last credit update, in nanoseconds.
    last_credit_update: u64,
    /// Used frame credit since last credit update.
    used_frame_credit: u32,
    /// Used byte credit since last credit update.
    used_byte_credit: u32,
}

impl View for SenderShared {
    type V = SenderView;

    closed spec fn view(&self) -> SenderView {
        SenderView {
            closed: match self.closed {
                Some(frame) => Some(frame@.tail()),
                None => None,
            },
            parked: self.parked,
            remaining_frame_credit: self.remaining_frame_credit,
            remaining_byte_credit: self.remaining_byte_credit,
            last_credit_update: self.last_credit_update,
            used_frame_credit: self.used_frame_credit,
            used_byte_credit: self.used_byte_credit,
        }
    }
}

/// The time from `earlier` to `now`, and zero where the clock went back.
pub open spec fn elapsed_between(earlier: u64, now: u64) -> u64 {
    if now >= earlier {
        (now - earlier) as u64
    } else {
        0
    }
}

/// The time from `earlier` to `now` in nanoseconds, and zero where the clock
/// went back.
pub fn elapsed(earlier: u64, now: u64) -> (nanos: u64)
    ensures
        nanos == elapsed_between(earlier, now),
{
    if now >= earlier {
        now - earlier
    } else {
        0
    }
}

impl SenderShared {
    #[verifier::type_invariant]
    spec fn well_formed(self) -> bool {
        &&& self.used_frame_credit + self.remaining_frame_credit <= u32::MAX
        &&& self.used_byte_credit + self.remaining_byte_credit <= u32::MAX
    }

    /// Create a new shared sender state with the credit that the peer grants
    /// at first.
    pub fn new(initial_frame_credit: u32, initial_byte_credit: u32, now: u64) -> (shared: Self)
        ensures
            shared@ == SenderView::fresh(initial_frame_credit, initial_byte_credit, now),
            shared@.wf(),
    {
        Self {
            closed: None,
            parked: false,
            remaining_frame_credit: initial_frame_credit,
            remaining_byte_credit: initial_byte_credit,
            last_credit_update: now,
            used_frame_credit: 0,
            used_byte_credit: 0,
        }
    }

    /// Whether the peer has closed the channel.
    pub fn is_closed(&self) -> (closed: bool)
        ensures
            closed == (self@.closed is Some),
    {
        self.closed.is_some()
    }

    /// Remaining frame credit.
    pub fn remaining_frame_credit(&self) -> (credit: u32)
        ensures
            credit == self@.remaining_frame_credit,
            self@.wf(),
    {
        proof {
            use_type_invariant(self);
        }
        self.remaining_frame_credit
    }

    /// Remaining byte credit.
    pub fn remaining_byte_credit(&self) -> (credit: u32)
        ensures
            credit == self@.remaining_byte_credit,
            self@.wf(),
    {
        proof {
            use_type_invariant(self);
        }
        self.remaining_byte_credit
    }

    /// Take in credit that the peer granted with an adjust frame. Returns
    /// whether a writer has to be woken, and what was used since the last
    /// update.
    pub fn adjust(&mut self, frame_credit: u32, byte_credit: u32, now: u64) -> (update: (
        bool,
        CreditInterval,
    ))
        ensures
            final(self)@ == old(self)@.adjusted(frame_credit, byte_credit, now),
            final(self)@.wf(),
            update.0 == old(self)@.parked,
            update.1 == (CreditInterval {
                frame_credit: old(self)@.used_frame_credit,
                byte_credit: old(self)@.used_byte_credit,
                elapsed: elapsed_between(old(self)@.last_credit_update, now),
            }),
    {
        proof {
            use_type_invariant(&*self);
        }
        let interval = CreditInterval {
            frame_credit: self.used_frame_credit,
            byte_credit: self.used_byte_credit,
            elapsed: elapsed(self.last_credit_update, now),
        };
        let wake = self.parked;
        self.used_frame_credit = 0;
        self.used_byte_credit = 0;
        self.remaining_frame_credit = self.remaining_frame_credit.saturating_add(frame_credit);
        self.remaining_byte_credit = self.remaining_byte_credit.saturating_add(byte_credit);
        self.last_credit_update = now;
        self.parked = false;
        (wake, interval)
    }

    /// Record that the peer closed the channel. Returns whether a writer has
    /// to be woken, so that it learns of the closure.
    pub fn close(&mut self, frame: FrameChannelClose) -> (wake: bool)
        ensures
            final(self)@ == old(self)@.closed_by_peer(frame@.tail()),
            wake == old(self)@.parked,
    {
        proof {
            use_type_invariant(&*self);
        }
        let wake = self.parked;
        self.closed = Some(frame);
        self.parked = false;
        wake
    }
}

/// What a queue of frames says, frame by frame.
pub open spec fn frame_views(frames: Seq<Frame>) -> Seq<FrameView> {
    frames.map_values(|frame: Frame| frame@)
}

/// Appends a frame to the queue of frames that go out over the transport.
pub fn enqueue(outbound: &mut VecDeque<Frame>, frame: Frame)
    ensures
        frame_views(final(outbound)@) == frame_views(old(outbound)@).push(frame@),
{
    outbound.push_back(frame);
    assert(frame_views(outbound@) =~= frame_views(old(outbound)@).push(frame@));
}

/// What a writer holds of its channel, as plain values.
pub ghost struct SenderHalfView {
    /// The connection that the channel belongs to.
    pub connection: u64,
    /// Id of the channel at this end.
    pub local_id: u64,
    /// Id of the channel at the peer.
    pub remote_id: u64,
    /// The payload that was accepted from the writer and not yet sent.
    pub pending: Option<Seq<u8>>,
}

/// Sending end of a channel.
///
/// Bytes that a write accepts are staged as one pending chunk, which goes out
/// as a data frame as soon as the peer's credit allows.
pub struct Sender {
    /// The connection that the channel belongs to.
    connection: u64,
    /// Local id of the channel.
    local_id: ChannelId,
    /// Remote id of the channel.
    remote_id: ChannelId,
    /// Pending chunk.
    pending: Option<Chunk>,
}

impl View for Sender {
    type V = SenderHalfView;

    closed spec fn view(&self) -> SenderHalfView {
        SenderHalfView {
            connection: self.connection,
            local_id: self.local_id.0,
            remote_id: self.remote_id.0,
            pending: match self.pending {
                Some(chunk) => Some(chunk@),
                None => None,
            },
        }
    }
}

/// What a writer works on, as plain values: its own state, the state it
/// shares with the connection, and the frames that wait to go out.
pub ghost struct Writing {
    /// The writer's own state.
    pub half: SenderHalfView,
    /// The state of the sending direction.
    pub shared: SenderView,
    /// The frames that wait to go out, oldest first.
    pub outbound: Seq<FrameView>,
}

impl Writing {
    /// The credit of the direction is within its bounds, and the pending
    /// chunk, if there is one, is within the byte credit that is left.
    pub open spec fn wf(self) -> bool {
        &&& self.shared.wf()
        &&& self.half.pending is Some ==> self.half.pending->0.len()
            <= self.shared.remaining_byte_credit
    }

    /// What an attempt to send the pending chunk leaves, and how it ends.
    ///
    /// Nothing is sent once the peer has closed the channel, and a chunk
    /// beyond the byte credit is refused. A pending chunk goes out as one
    /// data frame addressed to the peer's end of the channel if frame credit
    /// is left, and uses one frame credit and as many byte credits as it has
    /// bytes. Without frame credit the writer is parked.
    pub open spec fn flushed(self) -> (Writing, Poll<Result<(), ChannelSendError>>) {
        match self.shared.send_step(self.half.pending) {
            SendStep::Closed => (self, Poll::Ready(Err(ChannelSendError::Closed))),
            SendStep::Idle => (self, Poll::Ready(Ok(()))),
            SendStep::TooLarge => (self, Poll::Ready(Err(ChannelSendError::ChunkTooLarge))),
            SendStep::Sent => (
                Writing {
                    half: SenderHalfView { pending: None, ..self.half },
                    shared: self.shared.sent(self.half.pending->0.len()),
                    outbound: self.outbound.push(
                        FrameView::ChannelData {
                            receiver_id: self.half.remote_id,
                            payload: self.half.pending->0,
                        },
                    ),
                },
                Poll::Ready(Ok(())),
            ),
            SendStep::Parked => (
                Writing { shared: self.shared.parked(), ..self },
                Poll::Pending,
            ),
        }
    }

    /// What a write leaves, and how it ends.
    ///
    /// A chunk that is still pending is sent first, and the write waits
    /// until it is out. With less than 512 bytes of credit left the writer is
    /// parked. Otherwise as many bytes as the credit and the buffer allow are
    /// staged as the new pending chunk, and their number is returned.
    pub open spec fn written(self, buf: Seq<u8>) -> (
        Writing,
        Poll<Result<usize, ChannelSendError>>,
    ) {
        let flushed = self.flushed().0;
        match self.flushed().1 {
            Poll::Ready(Err(error)) => (flushed, Poll::Ready(Err(error))),
            Poll::Pending => (flushed, Poll::Pending),
            Poll::Ready(Ok(_)) => match write_len(flushed.shared, buf.len()) {
                None => (
                    Writing { shared: flushed.shared.parked(), ..flushed },
                    Poll::Pending,
                ),
                Some(len) => (
                    Writing {
                        half: SenderHalfView {
                            pending: Some(buf.take(len as int)),
                            ..flushed.half
                        },
                        ..flushed
                    },
                    Poll::Ready(Ok(len as usize)),
                ),
            },
        }
    }

    /// What closing leaves, and how it ends: once the pending chunk is out,
    /// a closed frame with an empty reason follows it. Each close that gets
    /// this far sends such a frame.
    pub open spec fn closed(self) -> (Writing, Poll<Result<(), ChannelSendError>>) {
        let flushed = self.flushed().0;
        match self.flushed().1 {
            Poll::Ready(Ok(_)) => (
                Writing {
                    outbound: flushed.outbound.push(
                        FrameView::ChannelClosed {
                            receiver_id: flushed.half.remote_id,
                            reason: Seq::empty(),
                        },
                    ),
                    ..flushed
                },
                Poll::Ready(Ok(())),
            ),
            other => (flushed, other),
        }
    }
}

/// The number of bytes that a write accepts, given the state after the
/// pending chunk was dealt with, or `None` where the writer has to wait for
/// credit.
pub open spec fn write_len(shared: SenderView, buf_len: nat) -> Option<nat> {
    if shared.remaining_byte_credit < WRITE_THRESHOLD {
        None
    } else if shared.remaining_byte_credit <= buf_len {
        Some(shared.remaining_byte_credit as nat)
    } else {
        Some(buf_len)
    }
}

impl Sender {
    /// What a writer works on, put together.
    pub open spec fn writing(
        half: SenderHalfView,
        shared: SenderView,
        outbound: Seq<Frame>,
    ) -> Writing {
        Writing { half, shared, outbound: frame_views(outbound) }
    }

    /// The sending end of a fresh channel.
    pub(crate) fn new(connection: u64, local_id: ChannelId, remote_id: ChannelId) -> (sender: Self)
        ensures
            sender@ == (SenderHalfView {
                connection,
                local_id: local_id.0,
                remote_id: remote_id.0,
                pending: None,
            }),
    {
        Self { connection, local_id, remote_id, pending: None }
    }

    /// The connection that the channel belongs to.
    pub fn connection(&self) -> (connection: u64)
        ensures
            connection == self@.connection,
    {
        self.connection
    }

    /// Id of the channel at this end.
    pub fn local_id(&self) -> (id: ChannelId)
        ensures
            id.0 == self@.local_id,
    {
        self.local_id
    }

    /// Id of the channel at the peer.
    pub fn remote_id(&self) -> (id: ChannelId)
        ensures
            id.0 == self@.remote_id,
    {
        self.remote_id
    }

    /// Send the current chunk, if any.
    ///
    /// Nothing is sent once the peer has closed the channel. A pending chunk
    /// goes out as one data frame addressed to the peer's end of the channel
    /// if frame credit is left, and uses one frame credit and as many byte
    /// credits as it has bytes. Without frame credit the writer is parked.
    pub fn poll_send_chunk(
        &mut self,
        shared: &mut SenderShared,
        outbound: &mut VecDeque<Frame>,
    ) -> (polled: Poll<Result<(), ChannelSendError>>)
        ensures
            (Sender::writing(final(self)@, final(shared)@, final(outbound)@), polled)
                == Sender::writing(old(self)@, old(shared)@, old(outbound)@).flushed(),
    {
        proof {
            use_type_invariant(&*shared);
        }
        if shared.closed.is_some() {
            return Poll::Ready(Err(ChannelSendError::Closed));
        }
        let payload_len = match &self.pending {
            Some(chunk) => chunk.as_slice().len(),
            None => {
                return Poll::Ready(Ok(()));
            },
        };
        if payload_len > shared.remaining_byte_credit as usize {
            return Poll::Ready(Err(ChannelSendError::ChunkTooLarge));
        }
        let byte_credit = payload_len as u32;
        if shared.remaining_frame_credit > 0 {
            shared.remaining_frame_credit -= 1;
            shared.used_frame_credit += 1;
            shared.remaining_byte_credit -= byte_credit;
            shared.used_byte_credit += byte_credit;
            match self.pending.take() {
                Some(chunk) => {
                    enqueue(outbound, Frame::ChannelData(chunk.into_frame(self.remote_id)));
                },
                None => {},
            }
            Poll::Ready(Ok(()))
        } else {
            shared.parked = true;
            Poll::Pending
        }
    }

    /// Accept bytes from the writer.
    ///
    /// A chunk that is still pending is sent first, and the write waits until
    /// it is out. With less than 512 bytes of credit left the writer is
    /// parked. Otherwise as many bytes as the credit and the buffer allow are
    /// staged as the new pending chunk, and their number is returned.
    pub fn poll_write(
        &mut self,
        shared: &mut SenderShared,
        outbound: &mut VecDeque<Frame>,
        buf: &[u8],
    ) -> (polled: Poll<Result<usize, ChannelSendError>>)
        requires
            buf@.len() + FrameChannelData::MIN_FRAME_SIZE <= usize::MAX,
        ensures
            (Sender::writing(final(self)@, final(shared)@, final(outbound)@), polled)
                == Sender::writing(old(self)@, old(shared)@, old(outbound)@).written(buf@),
    {
        match self.poll_flush(shared, outbound) {
            Poll::Ready(Ok(())) => {},
            Poll::Ready(Err(error)) => {
                return Poll::Ready(Err(error));
            },
            Poll::Pending => {
                return Poll::Pending;
            },
        }
        proof {
            use_type_invariant(&*shared);
        }
        if shared.remaining_byte_credit < WRITE_THRESHOLD {
            shared.parked = true;
            return Poll::Pending;
        }
        let chunk_size = if (shared.remaining_byte_credit as usize) < buf.len() {
            shared.remaining_byte_credit as usize
        } else {
            buf.len()
        };
        let chunk = Chunk::with_capacity(chunk_size).extend(slice_subrange(buf, 0, chunk_size));
        assert(chunk@ =~= buf@.take(chunk_size as int));
        self.pending = Some(chunk);
        Poll::Ready(Ok(chunk_size))
    }

    /// Drive the pending chunk out. A closed channel shows as an error, which
    /// a byte-stream writer reports as a broken pipe.
    pub fn poll_flush(
        &mut self,
        shared: &mut SenderShared,
        outbound: &mut VecDeque<Frame>,
    ) -> (polled: Poll<Result<(), ChannelSendError>>)
        ensures
            (Sender::writing(final(self)@, final(shared)@, final(outbound)@), polled)
                == Sender::writing(old(self)@, old(shared)@, old(outbound)@).flushed(),
    {
        self.poll_send_chunk(shared, outbound)
    }

    /// Flush, then tell the peer that nothing more will be sent: a closed
    /// frame with an empty reason goes out. Each call that gets this far
    /// sends such a frame.
    pub fn poll_close(
        &mut self,
        shared: &mut SenderShared,
        outbound: &mut VecDeque<Frame>,
    ) -> (polled: Poll<Result<(), ChannelSendError>>)
        ensures
            (Sender::writing(final(self)@, final(shared)@, final(outbound)@), polled)
                == Sender::writing(old(self)@, old(shared)@, old(outbound)@).closed(),
    {
        match self.poll_flush(shared, outbound) {
            Poll::Ready(Ok(())) => {},
            Poll::Ready(Err(error)) => {
                return Poll::Ready(Err(error));
            },
            Poll::Pending => {
                return Poll::Pending;
            },
        }
        let reason: [u8; 0] = [];
        assert(reason@ =~= Seq::<u8>::empty());
        enqueue(
            outbound,
            Frame::ChannelClosed(FrameChannelClosed::new(self.remote_id, reason.as_slice())),
        );
        Poll::Ready(Ok(()))
    }
}

/// A writer that stages its chunks by writing never finds a chunk too
/// large. What a write stages is within the byte credit that is left, and
/// that credit only grows until the chunk goes out, whatever the writer does
/// and whatever the peer grants or closes in between.
pub proof fn lemma_chunk_never_too_large(
    writing: Writing,
    buf: Seq<u8>,
    frame_credit: u32,
    byte_credit: u32,
    reason: Seq<u8>,
    now: u64,
)
    requires
        writing.wf(),
    ensures
        !(writing.shared.send_step(writing.half.pending) is TooLarge),
        writing.flushed().0.wf(),
        writing.written(buf).0.wf(),
        writing.closed().0.wf(),
        (Writing {
            shared: writing.shared.adjusted(frame_credit, byte_credit, now),
            ..writing
        }).wf(),
        (Writing { shared: writing.shared.closed_by_peer(reason), ..writing }).wf(),
        (Writing {
            half: SenderHalfView { pending: None, ..writing.half },
            shared: SenderView::fresh(frame_credit, byte_credit, now),
            outbound: writing.outbound,
        }).wf(),
{
}

} // verus!
