//! The receiving half of a channel.
//!
//! The receiver grants the peer credit and takes in data frames as far as
//! credit is left. Frames wait in a queue until the reader takes them out;
//! taking one out uses up credit, and when less than half of the granted
//! credit is left the receiver tops it up again with an adjust frame. Where
//! the reader drains the queue faster than a round trip takes, the granted
//! maximum doubles, up to a fixed limit, and it never shrinks.

use crate::multiplex::error::ProtocolViolation;
use crate::multiplex::frames::ChannelId;
use crate::multiplex::frames::Frame;
use crate::multiplex::frames::FrameChannelAdjust;
use crate::multiplex::frames::FrameChannelClose;
use crate::multiplex::frames::FrameChannelData;
use crate::multiplex::poll::Poll;
use crate::multiplex::sender::elapsed;
use crate::multiplex::sender::elapsed_between;
use crate::multiplex::sender::enqueue;
use crate::multiplex::sender::frame_views;
use crate::multiplex::sender::Chunk;
use crate::multiplex::sender::CreditInterval;
use crate::multiplex::sender::INITIAL_BYTE_CREDIT;
use crate::multiplex::sender::INITIAL_FRAME_CREDIT;
use crate::multiplex::wire::FrameView;
use std::collections::VecDeque;
use vstd::prelude::*;
use vstd::slice::slice_subrange;

verus! {

/// Maximum frame credits for a channel.
pub const CHANNEL_MAX_FRAME_CREDIT: u32 = 1024;

/// Maximum byte credits for a channel (1 GiB).
pub const CHANNEL_MAX_BYTE_CREDIT: u32 = 0x4000_0000;

/// What the connection and the reader share about the receiving direction of
/// a channel, as plain values.
pub ghost struct ReceiverView {
    /// Payloads of the data frames that wait to be read, oldest first.
    pub buffer: Seq<Seq<u8>>,
    /// Whether the peer has closed its sending end.
    pub closed: bool,
    /// Whether the reader waits to be woken.
    pub parked: bool,
    /// Maximum frame credit.
    pub max_frame_credit: u32,
    /// Maximum byte credit.
    pub max_byte_credit: u32,
    /// Remaining frame credit.
    pub remaining_frame_credit: u32,
    /// Remaining byte credit.
    pub remaining_byte_credit: u32,
    /// Time of the last credit replenishment.
    pub last_credit_update: u64,
}

/// What becomes of a data frame that arrives.
pub ghost enum ReceiveStep {
    /// No frame credit is left: the frame violates the protocol.
    NoFrameCredit,
    /// The payload exceeds the remaining byte credit: the frame violates the
    /// protocol.
    NotEnoughByteCredit,
    /// The frame is queued for the reader.
    Accepted,
}

/// A credit after `used` was taken out of it; it stops at zero.
pub open spec fn credit_less(credit: u32, used: nat) -> u32 {
    if used >= credit {
        0
    } else {
        (credit - used) as u32
    }
}

/// A granted maximum after doubling; it stops at the given limit.
pub open spec fn credit_doubled(max: u32, limit: u32) -> u32 {
    if 2 * max >= limit {
        limit
    } else {
        (2 * max) as u32
    }
}

/// Whether the credit was used up fast: less than two round-trip times have
/// passed since it was last replenished, the round-trip time being known.
pub open spec fn replenished_recently(last: u64, smoothened_rtt: Option<u64>, now: u64) -> bool {
    smoothened_rtt is Some && elapsed_between(last, now) < 2 * smoothened_rtt->0
}

impl ReceiverView {
    /// The state of a fresh channel.
    pub open spec fn fresh(now: u64) -> ReceiverView {
        ReceiverView {
            buffer: Seq::empty(),
            closed: false,
            parked: false,
            max_frame_credit: INITIAL_FRAME_CREDIT,
            max_byte_credit: INITIAL_BYTE_CREDIT,
            remaining_frame_credit: INITIAL_FRAME_CREDIT,
            remaining_byte_credit: INITIAL_BYTE_CREDIT,
            last_credit_update: now,
        }
    }

    /// Remaining credit never exceeds the granted maximum and never falls
    /// below half of it, and the maximum stays between its initial value and
    /// the limit for every channel.
    pub open spec fn wf(self) -> bool {
        &&& self.max_frame_credit / 2 <= self.remaining_frame_credit <= self.max_frame_credit
        &&& self.max_byte_credit / 2 <= self.remaining_byte_credit <= self.max_byte_credit
        &&& INITIAL_FRAME_CREDIT <= self.max_frame_credit <= CHANNEL_MAX_FRAME_CREDIT
        &&& INITIAL_BYTE_CREDIT <= self.max_byte_credit <= CHANNEL_MAX_BYTE_CREDIT
    }

    /// What becomes of a data frame with the given payload.
    pub open spec fn receive_step(self, payload: Seq<u8>) -> ReceiveStep {
        if self.remaining_frame_credit == 0 {
            ReceiveStep::NoFrameCredit
        } else if self.remaining_byte_credit < payload.len() {
            ReceiveStep::NotEnoughByteCredit
        } else {
            ReceiveStep::Accepted
        }
    }

    /// The state after a data frame was queued: a waiting reader is woken.
    pub open spec fn received(self, payload: Seq<u8>) -> ReceiverView {
        ReceiverView { buffer: self.buffer.push(payload), parked: false, ..self }
    }

    /// The state after the peer closed its sending end: a waiting reader is
    /// woken so that it sees the end of the stream.
    pub open spec fn closed_by_peer(self) -> ReceiverView {
        ReceiverView { closed: true, parked: false, ..self }
    }

    /// The state after the reader decided to wait.
    pub open spec fn parked(self) -> ReceiverView {
        ReceiverView { parked: true, ..self }
    }

    /// Frame credit that is left once the oldest queued frame is taken out.
    pub open spec fn frame_credit_left(self) -> u32 {
        credit_less(self.remaining_frame_credit, 1)
    }

    /// Byte credit that is left once the oldest queued frame is taken out.
    pub open spec fn byte_credit_left(self) -> u32
        recommends
            self.buffer.len() > 0,
    {
        credit_less(self.remaining_byte_credit, self.buffer[0].len())
    }

    /// Whether taking out the oldest queued frame leaves less than half of
    /// the granted frame or byte credit, so that credit is replenished.
    pub open spec fn replenishes(self) -> bool
        recommends
            self.buffer.len() > 0,
    {
        self.frame_credit_left() < self.max_frame_credit / 2 || self.byte_credit_left()
            < self.max_byte_credit / 2
    }

    /// The granted maximum of frame credit after the oldest queued frame is
    /// taken out: doubled where frame credit ran low fast, else as before.
    pub open spec fn next_max_frame_credit(self, smoothened_rtt: Option<u64>, now: u64) -> u32 {
        if self.frame_credit_left() < self.max_frame_credit / 2 && replenished_recently(
            self.last_credit_update,
            smoothened_rtt,
            now,
        ) {
            credit_doubled(self.max_frame_credit, CHANNEL_MAX_FRAME_CREDIT)
        } else {
            self.max_frame_credit
        }
    }

    /// The granted maximum of byte credit after the oldest queued frame is
    /// taken out: doubled where byte credit ran low fast, else as before.
    pub open spec fn next_max_byte_credit(self, smoothened_rtt: Option<u64>, now: u64) -> u32
        recommends
            self.buffer.len() > 0,
    {
        if self.byte_credit_left() < self.max_byte_credit / 2 && replenished_recently(
            self.last_credit_update,
            smoothened_rtt,
            now,
        ) {
            credit_doubled(self.max_byte_credit, CHANNEL_MAX_BYTE_CREDIT)
        } else {
            self.max_byte_credit
        }
    }

    /// The frame and byte credit that is granted to the peer when the oldest
    /// queued frame is taken out, if any is: what brings the remaining credit
    /// back up to the granted maximum.
    pub open spec fn grant(self, smoothened_rtt: Option<u64>, now: u64) -> Option<(u32, u32)>
        recommends
            self.buffer.len() > 0,
            self.wf(),
    {
        if self.replenishes() {
            Some(
                (
                    (self.next_max_frame_credit(smoothened_rtt, now)
                        - self.frame_credit_left()) as u32,
                    (self.next_max_byte_credit(smoothened_rtt, now)
                        - self.byte_credit_left()) as u32,
                ),
            )
        } else {
            None
        }
    }

    /// The state after the reader took out the oldest queued frame.
    pub open spec fn consumed(self, smoothened_rtt: Option<u64>, now: u64) -> ReceiverView
        recommends
            self.buffer.len() > 0,
            self.wf(),
    {
        if self.replenishes() {
            ReceiverView {
                buffer: self.buffer.skip(1),
                max_frame_credit: self.next_max_frame_credit(smoothened_rtt, now),
                max_byte_credit: self.next_max_byte_credit(smoothened_rtt, now),
                remaining_frame_credit: self.next_max_frame_credit(smoothened_rtt, now),
                remaining_byte_credit: self.next_max_byte_credit(smoothened_rtt, now),
                last_credit_update: now,
                ..self
            }
        } else {
            ReceiverView {
                buffer: self.buffer.skip(1),
                remaining_frame_credit: self.frame_credit_left(),
                remaining_byte_credit: self.byte_credit_left(),
                ..self
            }
        }
    }
}

/// The granted maxima never shrink and never pass the limits, whatever frame
/// the reader takes out and whenever it does so.
pub proof fn lemma_max_credit_monotonic(state: ReceiverView, smoothened_rtt: Option<u64>, now: u64)
    requires
        state.wf(),
        state.buffer.len() > 0,
    ensures
        state.consumed(smoothened_rtt, now).wf(),
        state.max_frame_credit <= state.consumed(smoothened_rtt, now).max_frame_credit
            <= CHANNEL_MAX_FRAME_CREDIT,
        state.max_byte_credit <= state.consumed(smoothened_rtt, now).max_byte_credit
            <= CHANNEL_MAX_BYTE_CREDIT,
{
}

/// Credit is topped up before it runs out. At least half of the granted
/// maximum is left at any time, so a frame never finds the frame credit used
/// up, and a frame with a payload of up to half the granted maximum of bytes
/// is always taken in.
pub proof fn lemma_credit_never_runs_out(state: ReceiverView, payload: Seq<u8>)
    requires
        state.wf(),
    ensures
        !(state.receive_step(payload) is NoFrameCredit),
        payload.len() <= state.max_byte_credit / 2 ==> state.receive_step(payload) is Accepted,
        state.remaining_frame_credit >= INITIAL_FRAME_CREDIT / 2,
        state.remaining_byte_credit >= INITIAL_BYTE_CREDIT / 2,
{
}

/// Taking in a frame, the peer's closing and the reader's waiting leave the
/// granted maxima as they are.
pub proof fn lemma_max_credit_kept(state: ReceiverView, payload: Seq<u8>)
    requires
        state.wf(),
    ensures
        state.received(payload).wf(),
        state.closed_by_peer().wf(),
        state.parked().wf(),
        state.received(payload).max_frame_credit == state.max_frame_credit,
        state.received(payload).max_byte_credit == state.max_byte_credit,
        state.closed_by_peer().max_frame_credit == state.max_frame_credit,
        state.closed_by_peer().max_byte_credit == state.max_byte_credit,
        state.parked().max_frame_credit == state.max_frame_credit,
        state.parked().max_byte_credit == state.max_byte_credit,
        ReceiverView::fresh(0).wf(),
{
}

/// The credit that a receiver has granted to its peer: the granted maxima,
/// what is left of them, and when they were last replenished.
pub struct ReceiverCredit {
    /// Maximum frame credit.
    max_frame_credit: u32,
    /// Maximum byte credit.
    max_byte_credit: u32,
    /// Remaining frame credit.
    remaining_frame_credit: u32,
    /// Remaining byte credit.
    remaining_byte_credit: u32,
    /// Last time a credit update was sent, in nanoseconds.
    last_credit_update: u64,
}

impl ReceiverCredit {
    #[verifier::type_invariant]
    spec fn well_formed(self) -> bool {
        &&& self.max_frame_credit / 2 <= self.remaining_frame_credit <= self.max_frame_credit
        &&& self.max_byte_credit / 2 <= self.remaining_byte_credit <= self.max_byte_credit
        &&& INITIAL_FRAME_CREDIT <= self.max_frame_credit <= CHANNEL_MAX_FRAME_CREDIT
        &&& INITIAL_BYTE_CREDIT <= self.max_byte_credit <= CHANNEL_MAX_BYTE_CREDIT
    }

    /// The credit as part of the state of a receiver whose queue, closing
    /// and waiting are given.
    pub closed spec fn with(
        self,
        buffer: Seq<Seq<u8>>,
        closed: bool,
        parked: bool,
    ) -> ReceiverView {
        ReceiverView {
            buffer,
            closed,
            parked,
            max_frame_credit: self.max_frame_credit,
            max_byte_credit: self.max_byte_credit,
            remaining_frame_credit: self.remaining_frame_credit,
            remaining_byte_credit: self.remaining_byte_credit,
            last_credit_update: self.last_credit_update,
        }
    }

    /// The credit of a fresh channel.
    fn new(now: u64) -> (credit: Self)
        ensures
            forall|buffer: Seq<Seq<u8>>, closed: bool, parked: bool|
                #[trigger] credit.with(buffer, closed, parked) == (ReceiverView {
                    buffer,
                    closed,
                    parked,
                    ..ReceiverView::fresh(now)
                }),
    {
        Self {
            max_frame_credit: INITIAL_FRAME_CREDIT,
            max_byte_credit: INITIAL_BYTE_CREDIT,
            remaining_frame_credit: INITIAL_FRAME_CREDIT,
            remaining_byte_credit: INITIAL_BYTE_CREDIT,
            last_credit_update: now,
        }
    }

    /// Use up the credit of one frame with a payload of the given length,
    /// and replenish the credit where it has run low. Returns the frame and
    /// byte credit granted, if any, with the time since the grant before it.
    fn consume(&mut self, len: usize, smoothened_rtt: Option<u64>, now: u64) -> (granted: Option<
        CreditInterval,
    >)
        ensures
            forall|buffer: Seq<Seq<u8>>, closed: bool, parked: bool|
                buffer.len() > 0 && buffer[0].len() == len ==> {
                    let before = #[trigger] old(self).with(buffer, closed, parked);
                    &&& before.wf()
                    &&& final(self).with(buffer.skip(1), closed, parked) == before.consumed(
                        smoothened_rtt,
                        now,
                    )
                    &&& match before.grant(smoothened_rtt, now) {
                        Some(grant) => granted == Some(
                            CreditInterval {
                                frame_credit: grant.0,
                                byte_credit: grant.1,
                                elapsed: elapsed_between(before.last_credit_update, now),
                            },
                        ),
                        None => granted is None,
                    }
                },
    {
        proof {
            use_type_invariant(&*self);
        }
        let frame_credit_left = self.remaining_frame_credit.saturating_sub(1);
        let byte_credit_left = if len >= self.remaining_byte_credit as usize {
            0
        } else {
            self.remaining_byte_credit - len as u32
        };
        let since = elapsed(self.last_credit_update, now);
        let recently = match smoothened_rtt {
            Some(rtt) => (since as u128) < 2 * (rtt as u128),
            None => false,
        };
        let low_frame_credit = frame_credit_left < self.max_frame_credit / 2;
        let low_byte_credit = byte_credit_left < self.max_byte_credit / 2;
        if low_frame_credit || low_byte_credit {
            let max_frame_credit = if !(low_frame_credit && recently) {
                self.max_frame_credit
            } else if self.max_frame_credit * 2 >= CHANNEL_MAX_FRAME_CREDIT {
                CHANNEL_MAX_FRAME_CREDIT
            } else {
                self.max_frame_credit * 2
            };
            let max_byte_credit = if !(low_byte_credit && recently) {
                self.max_byte_credit
            } else if self.max_byte_credit * 2 >= CHANNEL_MAX_BYTE_CREDIT {
                CHANNEL_MAX_BYTE_CREDIT
            } else {
                self.max_byte_credit * 2
            };
            let granted = CreditInterval {
                frame_credit: max_frame_credit - frame_credit_left,
                byte_credit: max_byte_credit - byte_credit_left,
                elapsed: since,
            };
            *self = Self {
                max_frame_credit,
                max_byte_credit,
                remaining_frame_credit: max_frame_credit,
                remaining_byte_credit: max_byte_credit,
                last_credit_update: now,
            };
            Some(granted)
        } else {
            *self = Self {
                max_frame_credit: self.max_frame_credit,
                max_byte_credit: self.max_byte_credit,
                remaining_frame_credit: frame_credit_left,
                remaining_byte_credit: byte_credit_left,
                last_credit_update: self.last_credit_update,
            };
            None
        }
    }
}

/// Shared state of the receiving end of a channel.
pub struct ReceiverShared {
    /// Buffered frames.
    buffer: VecDeque<FrameChannelData>,
    /// Indicates whether the channel has been closed by the peer.
    closed: bool,
    /// Whether the reader waits to be woken when something changes.
    parked: bool,
    /// The credit granted to the peer.
    credit: ReceiverCredit,
}

/// The payloads of a queue of data frames.
pub open spec fn payloads(frames: Seq<FrameChannelData>) -> Seq<Seq<u8>> {
    frames.map_values(|frame: FrameChannelData| frame@.tail())
}

impl View for ReceiverShared {
    type V = ReceiverView;

    closed spec fn view(&self) -> ReceiverView {
        self.credit.with(payloads(self.buffer@), self.closed, self.parked)
    }
}

/// A chunk that the reader took out of the queue, and the credit that was
/// granted to the peer on that occasion, if any, with the time since the
/// grant before it.
pub struct Received {
    /// The payload of the oldest queued data frame.
    pub chunk: Chunk,
    /// The credit granted, for the estimate of the inbound bandwidth.
    pub granted: Option<CreditInterval>,
}

impl ReceiverShared {
    /// Create a new receiver shared state.
    pub fn new(now: u64) -> (shared: Self)
        ensures
            shared@ == ReceiverView::fresh(now),
    {
        let shared = Self {
            buffer: VecDeque::new(),
            closed: false,
            parked: false,
            credit: ReceiverCredit::new(now),
        };
        assert(payloads(shared.buffer@) =~= Seq::empty());
        shared
    }

    /// The granted maximum of frame credit.
    pub fn max_frame_credit(&self) -> (credit: u32)
        ensures
            credit == self@.max_frame_credit,
            self@.wf(),
    {
        proof {
            use_type_invariant(&self.credit);
        }
        self.credit.max_frame_credit
    }

    /// The granted maximum of byte credit.
    pub fn max_byte_credit(&self) -> (credit: u32)
        ensures
            credit == self@.max_byte_credit,
            self@.wf(),
    {
        proof {
            use_type_invariant(&self.credit);
        }
        self.credit.max_byte_credit
    }

    /// Take in a data frame from the peer.
    ///
    /// A frame that arrives when no frame credit is left, or whose payload
    /// exceeds the remaining byte credit, violates the protocol. Any other
    /// frame is queued as it is, without copying. Returns whether a reader
    /// has to be woken.
    pub fn receive(&mut self, frame: FrameChannelData) -> (taken: Result<bool, ProtocolViolation>)
        ensures
            match old(self)@.receive_step(frame@.tail()) {
                ReceiveStep::NoFrameCredit => taken is Err && taken->Err_0.0@
                    == "no frame credit remaining"@ && final(self)@ == old(self)@,
                ReceiveStep::NotEnoughByteCredit => taken is Err && taken->Err_0.0@
                    == "not enough byte credit"@ && final(self)@ == old(self)@,
                ReceiveStep::Accepted => taken == Ok::<bool, ProtocolViolation>(old(self)@.parked)
                    && final(self)@ == old(self)@.received(frame@.tail()),
            },
    {
        if self.credit.remaining_frame_credit == 0 {
            return Err(ProtocolViolation("no frame credit remaining"));
        }
        if (self.credit.remaining_byte_credit as usize) < frame.payload().len() {
            return Err(ProtocolViolation("not enough byte credit"));
        }
        let wake = self.parked;
        self.parked = false;
        let ghost before = self.buffer@;
        let ghost payload = frame@.tail();
        self.buffer.push_back(frame);
        assert(payloads(self.buffer@) =~= payloads(before).push(payload));
        Ok(wake)
    }

    /// Record that the peer closed its sending end. Returns whether a reader
    /// has to be woken, so that it sees the end of the stream.
    pub fn close(&mut self) -> (wake: bool)
        ensures
            final(self)@ == old(self)@.closed_by_peer(),
            wake == old(self)@.parked,
    {
        let wake = self.parked;
        self.closed = true;
        self.parked = false;
        wake
    }
}

/// What becomes of a reader's attempt to take a chunk out of the queue.
pub ghost enum NextStep {
    /// The oldest queued frame is handed out.
    Chunk,
    /// Nothing is queued and the peer has closed: the stream has ended.
    End,
    /// Nothing is queued yet: the reader waits.
    Parked,
}

impl ReceiverView {
    /// What becomes of a reader's attempt to take a chunk out of the queue.
    pub open spec fn next_step(self) -> NextStep {
        if self.buffer.len() > 0 {
            NextStep::Chunk
        } else if self.closed {
            NextStep::End
        } else {
            NextStep::Parked
        }
    }
}

/// Where the bytes of a read come from.
pub ghost enum ReadSource {
    /// From what is left of the chunk that was taken out last.
    Pending(Seq<u8>),
    /// From the oldest queued frame, which is taken out for it.
    Queue(Seq<u8>),
    /// From nowhere: the stream has ended.
    End,
    /// From nowhere yet: nothing is queued.
    Nothing,
}

/// Where the bytes of a read come from, given the states of the reader and
/// of the queue.
pub open spec fn read_source(reader: ReceiverHalfView, shared: ReceiverView) -> ReadSource {
    if reader.pending is Some {
        ReadSource::Pending(reader.pending->0)
    } else {
        match shared.next_step() {
            NextStep::Chunk => ReadSource::Queue(shared.buffer[0]),
            NextStep::End => ReadSource::End,
            NextStep::Parked => ReadSource::Nothing,
        }
    }
}

/// The number of bytes that a read copies: as many as the source has and the
/// buffer takes.
pub open spec fn read_len(source: Seq<u8>, buf_len: nat) -> usize {
    if source.len() < buf_len {
        source.len() as usize
    } else {
        buf_len as usize
    }
}

/// What is left of the source for the next read, if anything.
pub open spec fn rest_after_read(source: Seq<u8>, buf_len: nat) -> Option<Seq<u8>> {
    if source.len() <= buf_len {
        None
    } else {
        Some(source.skip(buf_len as int))
    }
}

/// The outcome of a read that did not have to wait.
#[derive(Debug, Clone, Copy, PartialEq, Eq, Structural)]
pub struct ReadOutcome {
    /// The number of bytes that were copied; zero at the end of the stream.
    pub len: usize,
    /// The credit granted to the peer on this occasion, if any, for the
    /// estimate of the inbound bandwidth.
    pub granted: Option<CreditInterval>,
}

/// What a reader works on, as plain values: its own state, the state it
/// shares with the connection, and the frames that wait to go out.
pub ghost struct Reading {
    /// The reader's own state.
    pub half: ReceiverHalfView,
    /// The state of the receiving direction.
    pub shared: ReceiverView,
    /// The frames that wait to go out, oldest first.
    pub outbound: Seq<FrameView>,
}

impl Reading {
    /// The credit that is granted to the peer when the oldest queued frame
    /// is taken out, if any is, with the time since the grant before it.
    pub open spec fn granted(self, smoothened_rtt: Option<u64>, now: u64) -> Option<
        CreditInterval,
    > {
        match self.shared.grant(smoothened_rtt, now) {
            Some(grant) => Some(
                CreditInterval {
                    frame_credit: grant.0,
                    byte_credit: grant.1,
                    elapsed: elapsed_between(self.shared.last_credit_update, now),
                },
            ),
            None => None,
        }
    }

    /// What taking the oldest queued frame out leaves. Its credit is used
    /// up, and where that leaves less than half of the granted frame or byte
    /// credit, an adjust frame brings the peer's credit back up to the
    /// granted maximum, which first doubles if the credit ran low within two
    /// round-trip times.
    pub open spec fn taken(self, smoothened_rtt: Option<u64>, now: u64) -> Reading
        recommends
            self.shared.buffer.len() > 0,
    {
        Reading {
            shared: self.shared.consumed(smoothened_rtt, now),
            outbound: match self.shared.grant(smoothened_rtt, now) {
                Some(grant) => self.outbound.push(
                    FrameView::ChannelAdjust {
                        receiver_id: self.half.remote_id,
                        frame_credit: grant.0,
                        byte_credit: grant.1,
                    },
                ),
                None => self.outbound,
            },
            ..self
        }
    }

    /// What an attempt to take the next chunk leaves, and how it ends: with
    /// the oldest queued chunk and what was granted on the occasion, with
    /// the end of the stream, or with the reader parked.
    pub open spec fn next(self, smoothened_rtt: Option<u64>, now: u64) -> (
        Reading,
        Poll<Option<(Seq<u8>, Option<CreditInterval>)>>,
    ) {
        match self.shared.next_step() {
            NextStep::Chunk => (
                self.taken(smoothened_rtt, now),
                Poll::Ready(Some((self.shared.buffer[0], self.granted(smoothened_rtt, now)))),
            ),
            NextStep::End => (self, Poll::Ready(None)),
            NextStep::Parked => (
                Reading { shared: self.shared.parked(), ..self },
                Poll::Pending,
            ),
        }
    }

    /// What a read into the given buffer leaves, what the buffer holds
    /// afterwards, and how the read ends.
    ///
    /// What is left of the chunk that was taken out last is read first. With
    /// nothing left, the next chunk is taken out of the queue and read from.
    /// As many bytes as fit are copied to the front of the buffer, and a
    /// chunk that has been read to its end is discarded. At the end of the
    /// stream no byte is read; with nothing queued the reader is parked.
    pub open spec fn read(self, buf: Seq<u8>, smoothened_rtt: Option<u64>, now: u64) -> (
        Reading,
        Seq<u8>,
        Poll<ReadOutcome>,
    ) {
        match read_source(self.half, self.shared) {
            ReadSource::Pending(source) => (
                Reading {
                    half: ReceiverHalfView {
                        pending: rest_after_read(source, buf.len()),
                        ..self.half
                    },
                    ..self
                },
                source.take(read_len(source, buf.len()) as int) + buf.skip(
                    read_len(source, buf.len()) as int,
                ),
                Poll::Ready(ReadOutcome { len: read_len(source, buf.len()), granted: None }),
            ),
            ReadSource::Queue(source) => (
                Reading {
                    half: ReceiverHalfView {
                        pending: rest_after_read(source, buf.len()),
                        ..self.half
                    },
                    ..self.taken(smoothened_rtt, now)
                },
                source.take(read_len(source, buf.len()) as int) + buf.skip(
                    read_len(source, buf.len()) as int,
                ),
                Poll::Ready(
                    ReadOutcome {
                        len: read_len(source, buf.len()),
                        granted: self.granted(smoothened_rtt, now),
                    },
                ),
            ),
            ReadSource::End => (self, buf, Poll::Ready(ReadOutcome { len: 0, granted: None })),
            ReadSource::Nothing => (
                Reading { shared: self.shared.parked(), ..self },
                buf,
                Poll::Pending,
            ),
        }
    }
}

/// What an attempt to take a chunk came to, as plain values.
pub open spec fn received_view(polled: Poll<Option<Received>>) -> Poll<
    Option<(Seq<u8>, Option<CreditInterval>)>,
> {
    match polled {
        Poll::Ready(Some(received)) => Poll::Ready(Some((received.chunk@, received.granted))),
        Poll::Ready(None) => Poll::Ready(None),
        Poll::Pending => Poll::Pending,
    }
}

/// What a reader holds of its channel, as plain values.
pub ghost struct ReceiverHalfView {
    /// The connection that the channel belongs to.
    pub connection: u64,
    /// Id of the channel at this end.
    pub local_id: u64,
    /// Id of the channel at the peer.
    pub remote_id: u64,
    /// What is left to read of the chunk that was taken out last.
    pub pending: Option<Seq<u8>>,
}

/// Receiving end of a channel.
///
/// Yields the chunks that the peer sent, in order, and reads them as one
/// stream of bytes.
pub struct Receiver {
    /// The connection that the channel belongs to.
    connection: u64,
    /// Local id of the channel.
    local_id: ChannelId,
    /// Remote id of the channel.
    remote_id: ChannelId,
    /// Pending chunk.
    pending: Option<Chunk>,
    /// Offset into the pending chunk.
    offset: usize,
}

impl View for Receiver {
    type V = ReceiverHalfView;

    closed spec fn view(&self) -> ReceiverHalfView {
        ReceiverHalfView {
            connection: self.connection,
            local_id: self.local_id.0,
            remote_id: self.remote_id.0,
            pending: match self.pending {
                Some(chunk) => Some(chunk@.skip(self.offset as int)),
                None => None,
            },
        }
    }
}

/// `<[u8]>::copy_from_slice` on the front of `dst`: the first bytes of `dst`
/// become those of `src`, and the rest stays. The slice method panics where
/// the lengths differ, so `src` must fit.
#[verifier::external_body]
fn copy_to_front(dst: &mut [u8], src: &[u8])
    requires
        src@.len() <= old(dst)@.len(),
    ensures
        final(dst)@ == src@ + old(dst)@.skip(src@.len() as int),
{
    dst[..src.len()].copy_from_slice(src)
}

impl Receiver {
    /// What a reader works on, put together.
    pub open spec fn reading(
        half: ReceiverHalfView,
        shared: ReceiverView,
        outbound: Seq<Frame>,
    ) -> Reading {
        Reading { half, shared, outbound: frame_views(outbound) }
    }

    /// The receiving end of a fresh channel.
    pub(crate) fn new(connection: u64, local_id: ChannelId, remote_id: ChannelId) -> (receiver:
        Self)
        ensures
            receiver@ == (ReceiverHalfView {
                connection,
                local_id: local_id.0,
                remote_id: remote_id.0,
                pending: None,
            }),
    {
        Self { connection, local_id, remote_id, pending: None, offset: 0 }
    }

    #[verifier::type_invariant]
    spec fn well_formed(self) -> bool {
        match self.pending {
            Some(chunk) => self.offset <= chunk@.len(),
            None => true,
        }
    }

    /// The connection that the channel belongs to.
    pub fn connection(&self) -> (connection: u64)
        ensures
            connection == self@.connection,
    {
        self.connection
    }

    /// Id of the channel at this end.
    pub fn local_id(&self) -> (id: ChannelId)
        ensures
            id.0 == self@.local_id,
    {
        self.local_id
    }

    /// Id of the channel at the peer.
    pub fn remote_id(&self) -> (id: ChannelId)
        ensures
            id.0 == self@.remote_id,
    {
        self.remote_id
    }

    /// Poll the next chunk.
    ///
    /// The oldest queued frame, if there is one, is handed out whole. Its
    /// credit is used up, and where that leaves less than half of the granted
    /// frame or byte credit, an adjust frame brings the peer's credit back up
    /// to the granted maximum, which first doubles if the credit ran low
    /// within two round-trip times. With an empty queue the stream has ended
    /// if the peer has closed, and else the reader is parked.
    pub fn poll_next_chunk(
        &mut self,
        shared: &mut ReceiverShared,
        outbound: &mut VecDeque<Frame>,
        smoothened_rtt: Option<u64>,
        now: u64,
    ) -> (polled: Poll<Option<Received>>)
        ensures
            (
                Receiver::reading(final(self)@, final(shared)@, final(outbound)@),
                received_view(polled),
            ) == Receiver::reading(old(self)@, old(shared)@, old(outbound)@).next(
                smoothened_rtt,
                now,
            ),
    {
        let ghost before = shared.buffer@;
        match shared.buffer.pop_front() {
            Some(frame) => {
                assert(payloads(shared.buffer@) =~= payloads(before).skip(1));
                assert(payloads(before)[0] == frame@.tail());
                let granted = shared.credit.consume(frame.payload().len(), smoothened_rtt, now);
                match granted {
                    Some(interval) => {
                        enqueue(
                            outbound,
                            Frame::ChannelAdjust(
                                FrameChannelAdjust::new(
                                    self.remote_id,
                                    interval.frame_credit,
                                    interval.byte_credit,
                                ),
                            ),
                        );
                    },
                    None => {},
                }
                Poll::Ready(Some(Received { chunk: Chunk::from_frame(frame), granted }))
            },
            None => {
                assert(payloads(shared.buffer@) =~= payloads(before));
                if shared.closed {
                    Poll::Ready(None)
                } else {
                    shared.parked = true;
                    Poll::Pending
                }
            },
        }
    }

    /// Read bytes of the stream into `buf`.
    ///
    /// What is left of the chunk that was taken out last is read first. With
    /// nothing left, the next chunk is taken out of the queue and read from.
    /// As many bytes as fit are copied to the front of `buf`, and a chunk
    /// that has been read to its end is discarded. At the end of the stream
    /// no byte is read; with nothing queued the reader is parked.
    pub fn poll_read(
        &mut self,
        shared: &mut ReceiverShared,
        outbound: &mut VecDeque<Frame>,
        smoothened_rtt: Option<u64>,
        now: u64,
        buf: &mut [u8],
    ) -> (polled: Poll<ReadOutcome>)
        ensures
            (
                Receiver::reading(final(self)@, final(shared)@, final(outbound)@),
                final(buf)@,
                polled,
            ) == Receiver::reading(old(self)@, old(shared)@, old(outbound)@).read(
                old(buf)@,
                smoothened_rtt,
                now,
            ),
    {
        proof {
            use_type_invariant(&*self);
        }
        let mut granted: Option<CreditInterval> = None;
        if self.pending.is_none() {
            match self.poll_next_chunk(shared, outbound, smoothened_rtt, now) {
                Poll::Ready(Some(received)) => {
                    granted = received.granted;
                    self.offset = 0;
                    self.pending = Some(received.chunk);
                },
                Poll::Ready(None) => {
                    return Poll::Ready(ReadOutcome { len: 0, granted: None });
                },
                Poll::Pending => {
                    return Poll::Pending;
                },
            }
        }
        let (len, pending_len) = match &self.pending {
            Some(chunk) => {
                let pending = chunk.as_slice();
                let left = pending.len() - self.offset;
                let len = if left < buf.len() {
                    left
                } else {
                    buf.len()
                };
                let source = slice_subrange(pending, self.offset, self.offset + len);
                assert(source@ =~= chunk@.skip(self.offset as int).take(len as int));
                copy_to_front(buf, source);
                (len, pending.len())
            },
            None => (0, 0),
        };
        if self.offset + len >= pending_len {
            self.offset = 0;
            self.pending = None;
        } else {
            let ghost before = self@.pending->0;
            self.offset = self.offset + len;
            assert(self@.pending->0 =~= before.skip(len as int));
        }
        Poll::Ready(ReadOutcome { len, granted })
    }

    /// The frame that tells the peer that this end has stopped reading: a
    /// close frame with an empty reason, enqueued when the receiver is given
    /// up.
    pub fn release(self, outbound: &mut VecDeque<Frame>)
        ensures
            frame_views(final(outbound)@) == frame_views(old(outbound)@).push(
                FrameView::ChannelClose { receiver_id: self@.remote_id, reason: Seq::empty() },
            ),
    {
        let reason: [u8; 0] = [];
        assert(reason@ =~= Seq::<u8>::empty());
        enqueue(
            outbound,
            Frame::ChannelClose(FrameChannelClose::new(self.remote_id, reason.as_slice())),
        );
    }
}

} // verus!
