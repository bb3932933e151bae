//! Multiplexing of many byte-stream channels over one message transport.
//!
//! The transport carries frames, one to a message. A connection sorts the
//! frames that come in, queues those that go out, assigns channel ids and
//! keeps the peer alive. A channel is a pair of byte streams, one in each
//! direction, each held back by the credit that its reader grants.
//!
//! Nothing in here waits, locks or reads a clock: every operation takes the
//! state and what happened, and leaves the new state and what is to be done.
//! Times are nanoseconds on a clock that does not go back.

pub mod buffer;
pub mod channel;
pub mod connection;
pub mod error;
pub mod frames;
pub mod laws;
pub mod poll;
pub mod receiver;
pub mod sender;
pub mod wire;
