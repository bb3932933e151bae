//! What holds of the multiplexer as a whole.
//!
//! The state machines of the other modules are put together here, as
//! mathematics, and the properties that users rely on are proved of every
//! state they can reach: data in flight never exceeds the credit granted,
//! channel ids are never used twice, frames leave in the order they were
//! queued, a half that the peer has closed stays closed, and no more than one
//! ping is outstanding.

use crate::multiplex::channel::ConnectionCmd;
use crate::multiplex::connection::ConnectionView;
use crate::multiplex::connection::DispatchView;
use crate::multiplex::receiver::lemma_max_credit_kept;
use crate::multiplex::receiver::lemma_max_credit_monotonic;
use crate::multiplex::receiver::Reading;
use crate::multiplex::receiver::ReceiverHalfView;
use crate::multiplex::receiver::ReceiverView;
use crate::multiplex::receiver::CHANNEL_MAX_BYTE_CREDIT;
use crate::multiplex::receiver::CHANNEL_MAX_FRAME_CREDIT;
use crate::multiplex::sender::SenderHalfView;
use crate::multiplex::sender::Writing;
use crate::multiplex::sender::SenderView;
use crate::multiplex::sender::INITIAL_BYTE_CREDIT;
use crate::multiplex::sender::INITIAL_FRAME_CREDIT;
use crate::multiplex::wire::FrameView;
use vstd::prelude::*;

verus! {

/// The number of bytes in a sequence of payloads.
pub open spec fn total_len(payloads: Seq<Seq<u8>>) -> nat
    decreases payloads.len(),
{
    if payloads.len() == 0 {
        0
    } else {
        total_len(payloads.drop_last()) + payloads.last().len()
    }
}

/// The frame credit in a sequence of grants.
pub open spec fn total_frame_credit(grants: Seq<(u32, u32)>) -> nat
    decreases grants.len(),
{
    if grants.len() == 0 {
        0
    } else {
        total_frame_credit(grants.drop_last()) + grants.last().0 as nat
    }
}

/// The byte credit in a sequence of grants.
pub open spec fn total_byte_credit(grants: Seq<(u32, u32)>) -> nat
    decreases grants.len(),
{
    if grants.len() == 0 {
        0
    } else {
        total_byte_credit(grants.drop_last()) + grants.last().1 as nat
    }
}

proof fn lemma_total_len_push(payloads: Seq<Seq<u8>>, payload: Seq<u8>)
    ensures
        total_len(payloads.push(payload)) == total_len(payloads) + payload.len(),
{
    assert(payloads.push(payload).drop_last() =~= payloads);
}

proof fn lemma_total_len_skip(payloads: Seq<Seq<u8>>)
    requires
        payloads.len() > 0,
    ensures
        total_len(payloads) == payloads[0].len() + total_len(payloads.skip(1)),
    decreases payloads.len(),
{
    if payloads.len() == 1 {
        assert(payloads.drop_last() =~= Seq::empty());
        assert(payloads.skip(1) =~= Seq::empty());
    } else {
        lemma_total_len_skip(payloads.drop_last());
        assert(payloads.drop_last().skip(1) =~= payloads.skip(1).drop_last());
    }
}

proof fn lemma_total_credit_push(grants: Seq<(u32, u32)>, grant: (u32, u32))
    ensures
        total_frame_credit(grants.push(grant)) == total_frame_credit(grants) + grant.0,
        total_byte_credit(grants.push(grant)) == total_byte_credit(grants) + grant.1,
{
    assert(grants.push(grant).drop_last() =~= grants);
}

proof fn lemma_total_credit_skip(grants: Seq<(u32, u32)>)
    requires
        grants.len() > 0,
    ensures
        total_frame_credit(grants) == grants[0].0 + total_frame_credit(grants.skip(1)),
        total_byte_credit(grants) == grants[0].1 + total_byte_credit(grants.skip(1)),
    decreases grants.len(),
{
    if grants.len() == 1 {
        assert(grants.drop_last() =~= Seq::empty());
        assert(grants.skip(1) =~= Seq::empty());
    } else {
        lemma_total_credit_skip(grants.drop_last());
        assert(grants.drop_last().skip(1) =~= grants.skip(1).drop_last());
    }
}

/// One direction of a channel between two ends that keep to the protocol:
/// the writer's credit at the one end, what is on its way between the two,
/// and the reader's queue and credit at the other.
pub ghost struct Link {
    /// The sending end.
    pub sender: SenderView,
    /// Payloads of the data frames that are on their way to the receiver.
    pub data_in_flight: Seq<Seq<u8>>,
    /// Frame and byte credit of the adjust frames that are on their way to
    /// the sender.
    pub grants_in_flight: Seq<(u32, u32)>,
    /// The receiving end.
    pub receiver: ReceiverView,
}

impl Link {
    /// A fresh channel: both ends start from the initial credit and nothing
    /// is on its way.
    pub open spec fn fresh(sender_now: u64, receiver_now: u64) -> Link {
        Link {
            sender: SenderView::fresh(INITIAL_FRAME_CREDIT, INITIAL_BYTE_CREDIT, sender_now),
            data_in_flight: Seq::empty(),
            grants_in_flight: Seq::empty(),
            receiver: ReceiverView::fresh(receiver_now),
        }
    }

    /// Credit soundness. What the receiver has left of the credit it granted
    /// is, at every moment, exactly what the sender may still use, plus what
    /// the sender used on data that is in flight or queued and unread, plus
    /// what the receiver has added in grants that have not arrived yet. So
    /// the data in flight to the receiver never exceeds the credit granted
    /// less the credit used up by reads, and the same holds of frames.
    pub open spec fn credit_sound(self) -> bool {
        &&& self.receiver.wf()
        &&& self.sender.wf()
        &&& self.receiver.remaining_byte_credit == self.sender.remaining_byte_credit + total_len(
            self.data_in_flight,
        ) + total_len(self.receiver.buffer) + total_byte_credit(self.grants_in_flight)
        &&& self.receiver.remaining_frame_credit == self.sender.remaining_frame_credit
            + self.data_in_flight.len() + self.receiver.buffer.len() + total_frame_credit(
            self.grants_in_flight,
        )
    }

    /// The writer sends a chunk that its credit allows.
    pub open spec fn send(self, payload: Seq<u8>) -> Link
        recommends
            self.sender.send_step(Some(payload)) is Sent,
    {
        Link {
            sender: self.sender.sent(payload.len()),
            data_in_flight: self.data_in_flight.push(payload),
            ..self
        }
    }

    /// The oldest data frame in flight arrives.
    pub open spec fn deliver_data(self) -> Link
        recommends
            self.data_in_flight.len() > 0,
    {
        Link {
            data_in_flight: self.data_in_flight.skip(1),
            receiver: self.receiver.received(self.data_in_flight[0]),
            ..self
        }
    }

    /// The reader takes the oldest queued chunk out, which may grant the
    /// writer new credit.
    pub open spec fn consume(self, smoothened_rtt: Option<u64>, now: u64) -> Link
        recommends
            self.receiver.buffer.len() > 0,
    {
        Link {
            grants_in_flight: match self.receiver.grant(smoothened_rtt, now) {
                Some(grant) => self.grants_in_flight.push(grant),
                None => self.grants_in_flight,
            },
            receiver: self.receiver.consumed(smoothened_rtt, now),
            ..self
        }
    }

    /// The oldest grant in flight arrives.
    pub open spec fn deliver_grant(self, now: u64) -> Link
        recommends
            self.grants_in_flight.len() > 0,
    {
        Link {
            sender: self.sender.adjusted(
                self.grants_in_flight[0].0,
                self.grants_in_flight[0].1,
                now,
            ),
            grants_in_flight: self.grants_in_flight.skip(1),
            ..self
        }
    }
}

/// Credit soundness holds of a fresh channel.
pub proof fn lemma_credit_sound_at_first(sender_now: u64, receiver_now: u64)
    ensures
        Link::fresh(sender_now, receiver_now).credit_sound(),
{
}

/// Credit soundness is kept when the writer sends what its credit allows.
pub proof fn lemma_credit_sound_after_send(link: Link, payload: Seq<u8>)
    requires
        link.credit_sound(),
        link.sender.send_step(Some(payload)) is Sent,
    ensures
        link.send(payload).credit_sound(),
{
    lemma_total_len_push(link.data_in_flight, payload);
}

/// Data that was sent within the credit arrives within the credit: between
/// two ends that keep to the protocol no data frame is a violation. Credit
/// soundness is kept on arrival.
pub proof fn lemma_credit_sound_after_data(link: Link)
    requires
        link.credit_sound(),
        link.data_in_flight.len() > 0,
    ensures
        link.receiver.receive_step(link.data_in_flight[0]) is Accepted,
        link.deliver_data().credit_sound(),
{
    lemma_total_len_skip(link.data_in_flight);
    lemma_total_len_push(link.receiver.buffer, link.data_in_flight[0]);
}

/// Credit soundness is kept when the reader takes a chunk out, whether or
/// not that grants new credit; and what is granted then never takes the
/// writer's credit past the granted maximum.
pub proof fn lemma_credit_sound_after_consume(link: Link, smoothened_rtt: Option<u64>, now: u64)
    requires
        link.credit_sound(),
        link.receiver.buffer.len() > 0,
    ensures
        link.consume(smoothened_rtt, now).credit_sound(),
{
    lemma_total_len_skip(link.receiver.buffer);
    match link.receiver.grant(smoothened_rtt, now) {
        Some(grant) => {
            lemma_total_credit_push(link.grants_in_flight, grant);
        },
        None => {},
    }
}

/// Credit soundness is kept when a grant arrives, and the writer's credit
/// does not reach the point where it would stop growing.
pub proof fn lemma_credit_sound_after_grant(link: Link, now: u64)
    requires
        link.credit_sound(),
        link.grants_in_flight.len() > 0,
    ensures
        link.deliver_grant(now).credit_sound(),
        link.deliver_grant(now).sender.remaining_byte_credit
            == link.sender.remaining_byte_credit + link.grants_in_flight[0].1,
        link.deliver_grant(now).sender.remaining_frame_credit
            == link.sender.remaining_frame_credit + link.grants_in_flight[0].0,
{
    lemma_total_credit_skip(link.grants_in_flight);
}

/// What credit soundness comes to: the bytes and frames that are in flight
/// or queued never exceed the receiver's remaining credit, and so never the
/// limits that hold for every channel.
pub proof fn lemma_in_flight_within_credit(link: Link)
    requires
        link.credit_sound(),
    ensures
        total_len(link.data_in_flight) + total_len(link.receiver.buffer)
            <= link.receiver.remaining_byte_credit <= link.receiver.max_byte_credit
            <= CHANNEL_MAX_BYTE_CREDIT,
        link.data_in_flight.len() + link.receiver.buffer.len()
            <= link.receiver.remaining_frame_credit <= link.receiver.max_frame_credit
            <= CHANNEL_MAX_FRAME_CREDIT,
{
}

/// What can happen to a connection.
pub ghost enum Input {
    /// A command is carried out at the given time.
    Cmd(ConnectionCmd, u64),
    /// A frame from the peer is handled at the given time.
    Frame(FrameView, u64),
    /// The keepalive timer fires at the given time.
    Tick(u64),
    /// A frame is queued by a handle.
    Queued(FrameView),
    /// The oldest queued frame is handed to the transport.
    Sent,
    /// A writer writes the given bytes.
    Write(SenderHalfView, Seq<u8>),
    /// A writer flushes.
    Flush(SenderHalfView),
    /// A writer closes.
    Close(SenderHalfView),
    /// A reader takes the next chunk at the given time.
    Next(ReceiverHalfView, u64),
    /// A reader reads into a buffer that holds the given bytes, at the given
    /// time.
    Read(ReceiverHalfView, Seq<u8>, u64),
    /// A reader is given up.
    Release(ReceiverHalfView),
}

impl ConnectionView {
    /// The state after something happened to the connection.
    pub open spec fn step(self, input: Input) -> ConnectionView {
        match input {
            Input::Cmd(cmd, now) => self.after_cmd(cmd, now),
            Input::Frame(frame, now) => if self.counted_received().dispatch(frame, now)
                is Violation {
                self.counted_received()
            } else {
                self.counted_received().after_frame(frame, now)
            },
            Input::Tick(now) => self.pinged(now),
            Input::Queued(frame) => ConnectionView { outbound: self.outbound.push(frame), ..self },
            Input::Sent => if self.outbound.len() > 0 {
                self.sent()
            } else {
                self
            },
            Input::Write(half, buf) => match self.writing(half) {
                Some(writing) => self.with_writing(writing.written(buf).0),
                None => self,
            },
            Input::Flush(half) => match self.writing(half) {
                Some(writing) => self.with_writing(writing.flushed().0),
                None => self,
            },
            Input::Close(half) => match self.writing(half) {
                Some(writing) => self.with_writing(writing.closed().0),
                None => self,
            },
            Input::Next(half, now) => match self.reading(half) {
                Some(reading) => self.with_reading(reading.next(self.smoothened_rtt, now).0),
                None => self,
            },
            Input::Read(half, buf, now) => match self.reading(half) {
                Some(reading) => self.with_reading(
                    reading.read(buf, self.smoothened_rtt, now).0,
                ),
                None => self,
            },
            Input::Release(half) => ConnectionView {
                outbound: self.outbound.push(
                    FrameView::ChannelClose { receiver_id: half.remote_id, reason: Seq::empty() },
                ),
                ..self
            },
        }
    }

    /// The channel id that is assigned when the input happens in this state,
    /// if one is.
    pub open spec fn assigned(self, input: Input) -> Option<u64> {
        if input is Cmd && self.can_reserve() {
            Some(self.next_channel_id)
        } else {
            None
        }
    }

    /// The state after a sequence of inputs happened, one after the other.
    pub open spec fn run(self, inputs: Seq<Input>) -> ConnectionView
        decreases inputs.len(),
    {
        if inputs.len() == 0 {
            self
        } else {
            self.run(inputs.drop_last()).step(inputs.last())
        }
    }

    /// The channel id that is assigned at the given position of a sequence
    /// of inputs, if one is.
    pub open spec fn assigned_at(self, inputs: Seq<Input>, at: int) -> Option<u64>
        recommends
            0 <= at < inputs.len(),
    {
        self.run(inputs.take(at)).assigned(inputs[at])
    }
}

/// Whether a connection has moved on in order: its ids and the credit of
/// its channels are still within their bounds, no id was given back, every
/// channel that existed still exists, and the maxima of credit that it
/// grants have not shrunk.
pub open spec fn advances(before: ConnectionView, after: ConnectionView) -> bool {
    &&& after.wf()
    &&& after.next_channel_id >= before.next_channel_id
    &&& forall|id: u64| #[trigger]
        before.channels.contains_key(id) ==> {
            &&& after.channels.contains_key(id)
            &&& before.channels[id].receiver.max_frame_credit
                <= after.channels[id].receiver.max_frame_credit <= CHANNEL_MAX_FRAME_CREDIT
            &&& before.channels[id].receiver.max_byte_credit
                <= after.channels[id].receiver.max_byte_credit <= CHANNEL_MAX_BYTE_CREDIT
        }
}

proof fn lemma_cmd_advances(state: ConnectionView, cmd: ConnectionCmd, now: u64)
    requires
        state.wf(),
    ensures
        advances(state, state.after_cmd(cmd, now)),
{
    lemma_max_credit_kept(ReceiverView::fresh(now), Seq::empty());
}

proof fn lemma_frame_advances(state: ConnectionView, frame: FrameView, now: u64)
    requires
        state.wf(),
    ensures
        advances(state, state.step(Input::Frame(frame, now))),
{
    let counted = state.counted_received();
    lemma_max_credit_kept(ReceiverView::fresh(now), Seq::empty());
    match counted.dispatch(frame, now) {
        DispatchView::Routed { local_id, .. } => {
            let channel = counted.channels[local_id];
            lemma_max_credit_kept(channel.receiver, frame.tail());
            assert(channel.handled(frame, now).sender.wf());
            assert(channel.handled(frame, now).receiver.wf());
        },
        _ => {},
    }
}

proof fn lemma_writing_advances(state: ConnectionView, writing: Writing, after: Writing)
    requires
        state.wf(),
        state.writing(writing.half) == Some(writing),
        after.shared.wf(),
        after.half.local_id == writing.half.local_id,
    ensures
        advances(state, state.with_writing(after)),
{
}

proof fn lemma_reading_advances(state: ConnectionView, reading: Reading, after: Reading)
    requires
        state.wf(),
        state.reading(reading.half) == Some(reading),
        after.shared.wf(),
        after.half.local_id == reading.half.local_id,
        reading.shared.max_frame_credit <= after.shared.max_frame_credit,
        reading.shared.max_byte_credit <= after.shared.max_byte_credit,
    ensures
        advances(state, state.with_reading(after)),
{
}

/// Whatever a writer does leaves the credit of its direction within its
/// bounds.
pub proof fn lemma_writing_keeps_credit(writing: Writing, buf: Seq<u8>)
    requires
        writing.shared.wf(),
    ensures
        writing.flushed().0.shared.wf(),
        writing.written(buf).0.shared.wf(),
        writing.closed().0.shared.wf(),
        writing.flushed().0.half.local_id == writing.half.local_id,
        writing.written(buf).0.half.local_id == writing.half.local_id,
        writing.closed().0.half.local_id == writing.half.local_id,
{
}

/// Whatever a reader does leaves the credit of its direction within its
/// bounds, and the granted maxima as large as they were or larger.
pub proof fn lemma_reading_keeps_credit(
    reading: Reading,
    buf: Seq<u8>,
    smoothened_rtt: Option<u64>,
    now: u64,
)
    requires
        reading.shared.wf(),
    ensures
        reading.next(smoothened_rtt, now).0.shared.wf(),
        reading.read(buf, smoothened_rtt, now).0.shared.wf(),
        reading.next(smoothened_rtt, now).0.half.local_id == reading.half.local_id,
        reading.read(buf, smoothened_rtt, now).0.half.local_id == reading.half.local_id,
        reading.shared.max_frame_credit <= reading.next(
            smoothened_rtt,
            now,
        ).0.shared.max_frame_credit,
        reading.shared.max_byte_credit <= reading.next(
            smoothened_rtt,
            now,
        ).0.shared.max_byte_credit,
        reading.shared.max_frame_credit <= reading.read(
            buf,
            smoothened_rtt,
            now,
        ).0.shared.max_frame_credit,
        reading.shared.max_byte_credit <= reading.read(
            buf,
            smoothened_rtt,
            now,
        ).0.shared.max_byte_credit,
{
    if reading.shared.buffer.len() > 0 {
        lemma_max_credit_monotonic(reading.shared, smoothened_rtt, now);
    }
}

/// Whatever happens to a connection leaves it in order.
pub proof fn lemma_step_advances(state: ConnectionView, input: Input)
    requires
        state.wf(),
    ensures
        advances(state, state.step(input)),
{
    match input {
        Input::Cmd(cmd, now) => {
            lemma_cmd_advances(state, cmd, now);
        },
        Input::Frame(frame, now) => {
            lemma_frame_advances(state, frame, now);
        },
        Input::Write(half, buf) => {
            if let Some(writing) = state.writing(half) {
                lemma_writing_keeps_credit(writing, buf);
                lemma_writing_advances(state, writing, writing.written(buf).0);
            }
        },
        Input::Flush(half) => {
            if let Some(writing) = state.writing(half) {
                lemma_writing_keeps_credit(writing, Seq::empty());
                lemma_writing_advances(state, writing, writing.flushed().0);
            }
        },
        Input::Close(half) => {
            if let Some(writing) = state.writing(half) {
                lemma_writing_keeps_credit(writing, Seq::empty());
                lemma_writing_advances(state, writing, writing.closed().0);
            }
        },
        Input::Next(half, now) => {
            if let Some(reading) = state.reading(half) {
                lemma_reading_keeps_credit(reading, Seq::empty(), state.smoothened_rtt, now);
                lemma_reading_advances(
                    state,
                    reading,
                    reading.next(state.smoothened_rtt, now).0,
                );
            }
        },
        Input::Read(half, buf, now) => {
            if let Some(reading) = state.reading(half) {
                lemma_reading_keeps_credit(reading, buf, state.smoothened_rtt, now);
                lemma_reading_advances(
                    state,
                    reading,
                    reading.read(buf, state.smoothened_rtt, now).0,
                );
            }
        },
        _ => {},
    }
}

/// Whatever happens to a connection keeps its ids in order: an id that is
/// assigned was never in use before, is not the reserved id, and is smaller
/// than every id assigned later.
pub proof fn lemma_step_keeps_ids(state: ConnectionView, input: Input)
    requires
        state.wf(),
    ensures
        state.step(input).wf(),
        state.step(input).next_channel_id >= state.next_channel_id,
        match state.assigned(input) {
            Some(id) => {
                &&& id != 0
                &&& !state.pending_requests.contains(id)
                &&& !state.channels.contains_key(id)
                &&& state.step(input).next_channel_id > id
            },
            None => state.step(input).next_channel_id == state.next_channel_id,
        },
{
    lemma_step_advances(state, input);
}

/// Credit growth. Whatever happens to a connection, every channel that
/// exists goes on to exist, and the maxima of frame and byte credit that it
/// grants never shrink and never pass the limits that hold for every
/// channel.
pub proof fn lemma_step_keeps_credit(state: ConnectionView, input: Input, id: u64)
    requires
        state.wf(),
        state.channels.contains_key(id),
    ensures
        state.step(input).channels.contains_key(id),
        state.channels[id].receiver.max_frame_credit <= state.step(
            input,
        ).channels[id].receiver.max_frame_credit <= CHANNEL_MAX_FRAME_CREDIT,
        state.channels[id].receiver.max_byte_credit <= state.step(
            input,
        ).channels[id].receiver.max_byte_credit <= CHANNEL_MAX_BYTE_CREDIT,
{
    lemma_step_advances(state, input);
}

proof fn lemma_run_keeps_ids(state: ConnectionView, inputs: Seq<Input>, at: int)
    requires
        state.wf(),
        0 <= at <= inputs.len(),
    ensures
        state.run(inputs.take(at)).wf(),
        state.run(inputs).wf(),
        state.run(inputs.take(at)).next_channel_id <= state.run(inputs).next_channel_id,
    decreases inputs.len() - at,
{
    if at == inputs.len() {
        assert(inputs.take(at) =~= inputs);
        lemma_run_wf(state, inputs);
    } else {
        lemma_run_keeps_ids(state, inputs, at + 1);
        assert(inputs.take(at + 1).drop_last() =~= inputs.take(at));
        lemma_run_wf(state, inputs.take(at));
        lemma_step_keeps_ids(state.run(inputs.take(at)), inputs[at]);
    }
}

proof fn lemma_run_wf(state: ConnectionView, inputs: Seq<Input>)
    requires
        state.wf(),
    ensures
        state.run(inputs).wf(),
    decreases inputs.len(),
{
    if inputs.len() > 0 {
        lemma_run_wf(state, inputs.drop_last());
        lemma_step_keeps_ids(state.run(inputs.drop_last()), inputs.last());
    }
}

/// Every state that a connection can reach is in order. Whatever happens to
/// a new connection and in whatever sequence, its ids and the credit of its
/// channels stay within their bounds, and from any state on the way to any
/// later one no channel ceases to exist and no granted maximum shrinks.
pub proof fn lemma_reachable_states_in_order(id: u64, inputs: Seq<Input>, at: int)
    requires
        0 <= at <= inputs.len(),
    ensures
        ConnectionView::fresh(id).run(inputs).wf(),
        advances(
            ConnectionView::fresh(id).run(inputs.take(at)),
            ConnectionView::fresh(id).run(inputs),
        ),
    decreases inputs.len() - at,
{
    let start = ConnectionView::fresh(id);
    lemma_run_wf(start, inputs);
    lemma_run_wf(start, inputs.take(at));
    if at == inputs.len() {
        assert(inputs.take(at) =~= inputs);
    } else {
        lemma_reachable_states_in_order(id, inputs, at + 1);
        assert(inputs.take(at + 1).drop_last() =~= inputs.take(at));
        lemma_step_advances(start.run(inputs.take(at)), inputs[at]);
    }
}

/// Whether the input is an acceptance that makes the channel with the given
/// id exist: the acceptance of a request of the peer under the id that is
/// assigned next, or the peer's acceptance of a request that waits under the
/// id.
pub open spec fn accepts(state: ConnectionView, input: Input, id: u64) -> bool {
    match input {
        Input::Cmd(ConnectionCmd::AcceptChannel { .. }, _) => state.can_reserve() && id
            == state.next_channel_id,
        Input::Frame(FrameView::ChannelAccept { receiver_id, .. }, _) => receiver_id == id
            && state.pending_requests.contains(id),
        _ => false,
    }
}

/// A channel exists if and only if it has been accepted: whatever happens
/// to a connection, the channels that exist afterwards are those that
/// existed before and the one that was accepted, if one was.
pub proof fn lemma_channel_exists_iff_accepted(state: ConnectionView, input: Input, id: u64)
    requires
        state.wf(),
    ensures
        state.step(input).channels.contains_key(id) <==> state.channels.contains_key(id)
            || accepts(state, input, id),
{
    lemma_step_advances(state, input);
}

/// No reuse. Whatever happens to a connection and in whatever order, the
/// channel ids that it assigns are strictly increasing: of two ids, the one
/// assigned later is the larger. So no id is assigned twice, and each id
/// goes out in one request or one acceptance only.
pub proof fn lemma_assigned_ids_increase(
    state: ConnectionView,
    inputs: Seq<Input>,
    earlier: int,
    later: int,
)
    requires
        state.wf(),
        0 <= earlier < later < inputs.len(),
        state.assigned_at(inputs, earlier) is Some,
        state.assigned_at(inputs, later) is Some,
    ensures
        state.assigned_at(inputs, earlier)->0 < state.assigned_at(inputs, later)->0,
{
    let upto_later = inputs.take(later);
    lemma_run_keeps_ids(state, upto_later, earlier + 1);
    assert(upto_later.take(earlier + 1) =~= inputs.take(earlier + 1));
    assert(inputs.take(earlier + 1).drop_last() =~= inputs.take(earlier));
    assert(inputs.take(earlier + 1).last() == inputs[earlier]);
    lemma_run_wf(state, inputs.take(earlier));
    lemma_step_keeps_ids(state.run(inputs.take(earlier)), inputs[earlier]);
}

/// Frames leave in the order in which they were queued. After `count`
/// frames of a queue were handed to the transport, those were its first
/// `count` frames in their order, and a frame that was queued behind them in
/// the meantime is still behind all that is left.
pub proof fn lemma_outbound_in_order(state: ConnectionView, frame: FrameView, count: nat)
    requires
        count <= state.outbound.len(),
    ensures
        state.step(Input::Queued(frame)).run(Seq::new(count, |i: int| Input::Sent)).outbound
            == state.outbound.skip(count as int).push(frame),
        state.run(Seq::new(count, |i: int| Input::Sent)).outbound == state.outbound.skip(
            count as int,
        ),
        count < state.outbound.len() ==> state.run(
            Seq::new(count, |i: int| Input::Sent),
        ).outbound[0] == state.outbound[count as int],
    decreases count,
{
    let sends = Seq::new(count, |i: int| Input::Sent);
    let queued = state.step(Input::Queued(frame));
    if count == 0 {
        assert(state.outbound.skip(0) =~= state.outbound);
    } else {
        let fewer = Seq::new((count - 1) as nat, |i: int| Input::Sent);
        assert(sends.drop_last() =~= fewer);
        lemma_outbound_in_order(state, frame, (count - 1) as nat);
        assert(state.outbound.skip(count - 1).skip(1) =~= state.outbound.skip(count as int));
        assert(state.outbound.skip(count - 1).push(frame).skip(1) =~= state.outbound.skip(
            count as int,
        ).push(frame));
    }
}

/// Half-close of the sending direction. Once the peer has closed a channel,
/// the writer's half stays closed whatever follows, and every attempt to
/// send or write ends at once with the error that a byte-stream writer
/// reports as a broken pipe.
pub proof fn lemma_closed_sender_stays_closed(
    state: SenderView,
    reason: Seq<u8>,
    pending: Option<Seq<u8>>,
    frame_credit: u32,
    byte_credit: u32,
    now: u64,
)
    ensures
        state.closed_by_peer(reason).send_step(pending) is Closed,
        state.closed is Some ==> {
            &&& state.send_step(pending) is Closed
            &&& state.after_send(pending) == state
            &&& state.adjusted(frame_credit, byte_credit, now).closed is Some
            &&& state.closed_by_peer(reason).closed is Some
        },
{
}

/// Half-close of the receiving direction. Once the peer has closed its
/// sending end, the reader's half stays closed whatever follows. The reader
/// still gets what is queued, one chunk with each attempt, and with the queue
/// empty every attempt ends at once with the end of the stream.
pub proof fn lemma_closed_receiver_ends(
    state: ReceiverView,
    payload: Seq<u8>,
    smoothened_rtt: Option<u64>,
    now: u64,
)
    ensures
        state.closed_by_peer().closed,
        state.closed_by_peer().buffer == state.buffer,
        state.closed ==> {
            &&& state.received(payload).closed
            &&& state.closed_by_peer().closed
            &&& state.buffer.len() > 0 ==> state.next_step() is Chunk && state.consumed(
                smoothened_rtt,
                now,
            ).closed && state.consumed(smoothened_rtt, now).buffer.len() == state.buffer.len()
                - 1
            &&& state.buffer.len() == 0 ==> state.next_step() is End
        },
{
}

/// The state of the receiving direction after the reader took chunks out at
/// the given times, each with the round-trip time that was known then.
pub open spec fn after_reads(state: ReceiverView, times: Seq<(Option<u64>, u64)>) -> ReceiverView
    decreases times.len(),
{
    if times.len() == 0 {
        state
    } else {
        after_reads(state, times.drop_last()).consumed(times.last().0, times.last().1)
    }
}

/// The end of the stream is reached. Once the peer has closed its sending
/// end and sends no more, the reader gets each queued chunk with one
/// attempt, and once it has taken all of them, whenever it did so, its next
/// attempt ends at once with the end of the stream.
pub proof fn lemma_closed_receiver_reaches_end(
    state: ReceiverView,
    times: Seq<(Option<u64>, u64)>,
)
    requires
        state.wf(),
        state.closed,
        times.len() <= state.buffer.len(),
    ensures
        after_reads(state, times).wf(),
        after_reads(state, times).closed,
        after_reads(state, times).buffer == state.buffer.skip(times.len() as int),
        times.len() < state.buffer.len() ==> after_reads(state, times).next_step() is Chunk,
        times.len() == state.buffer.len() ==> after_reads(state, times).next_step() is End,
    decreases times.len(),
{
    if times.len() == 0 {
        assert(state.buffer.skip(0) =~= state.buffer);
    } else {
        lemma_closed_receiver_reaches_end(state, times.drop_last());
        let before = after_reads(state, times.drop_last());
        assert(before.buffer.skip(1) =~= state.buffer.skip(times.len() as int));
    }
}

/// The handshake links the two ends of a channel. Where one end asks for a
/// channel and the other accepts, a channel exists at both ends once the
/// acceptance has arrived; each end knows the id of the channel at the
/// other, and both directions start from the same credit at both ends, so
/// that credit soundness holds of the new channel.
pub proof fn lemma_handshake_links_channels(
    asking: ConnectionView,
    accepting: ConnectionView,
    open: ConnectionCmd,
    accept: ConnectionCmd,
    asked_at: u64,
    accepted_at: u64,
    opened_at: u64,
)
    requires
        asking.wf(),
        asking.can_reserve(),
        accepting.wf(),
        accepting.can_reserve(),
        open is OpenChannel,
        accept matches ConnectionCmd::AcceptChannel { accept: frame } && frame@.receiver_id()
            == asking.next_channel_id,
    ensures
        ({
            let asked = asking.after_cmd(open, asked_at);
            let accepted = accepting.after_cmd(accept, accepted_at);
            let opened = asked.after_frame(accepted.outbound.last(), opened_at);
            let here = opened.channels[asking.next_channel_id];
            let there = accepted.channels[accepting.next_channel_id];
            &&& asked.outbound.last().sender_id() == asking.next_channel_id
            &&& accepting.dispatch(asked.outbound.last(), accepted_at) is RequestChannel
            &&& accepted.outbound.last().receiver_id() == asking.next_channel_id
            &&& accepted.outbound.last().sender_id() == accepting.next_channel_id
            &&& asked.dispatch(accepted.outbound.last(), opened_at) is Opened
            &&& opened.channels.contains_key(asking.next_channel_id)
            &&& accepted.channels.contains_key(accepting.next_channel_id)
            &&& here.remote_id == accepting.next_channel_id
            &&& there.remote_id == asking.next_channel_id
            &&& (Link {
                sender: here.sender,
                data_in_flight: Seq::empty(),
                grants_in_flight: Seq::empty(),
                receiver: there.receiver,
            }).credit_sound()
            &&& (Link {
                sender: there.sender,
                data_in_flight: Seq::empty(),
                grants_in_flight: Seq::empty(),
                receiver: here.receiver,
            }).credit_sound()
        }),
{
}

/// Whether the input is a pong from the peer.
pub open spec fn is_pong(input: Input) -> bool {
    input matches Input::Frame(FrameView::Pong, _)
}

/// Keepalive. A tick sends a ping exactly when none is outstanding, and from
/// then on one is outstanding: further ticks send nothing, and nothing but a
/// pong from the peer ends that. So no more than one ping is ever
/// outstanding.
pub proof fn lemma_single_ping_outstanding(state: ConnectionView, input: Input, now: u64)
    requires
        state.wf(),
    ensures
        state.pong_received ==> state.pinged(now).outbound == state.outbound.push(FrameView::Ping)
            && !state.pinged(now).pong_received,
        !state.pong_received ==> state.pinged(now) == state,
        !state.pong_received && !is_pong(input) ==> !state.step(input).pong_received,
        !state.pong_received && is_pong(input) ==> state.step(input).pong_received,
{
}

} // verus!
