//! The outcome of one attempt at something that may have to wait.

use vstd::prelude::*;

verus! {

/// Whether a value is available now or the caller has to come back later.
///
/// The state machines of this crate never block: an operation that cannot
/// finish says so, records that somebody waits, and reports the wake-up when
/// the awaited change arrives.
#[derive(Debug)]
pub enum Poll<T> {
    /// The operation finished with this value.
    Ready(T),
    /// The operation cannot finish yet.
    Pending,
}

} // verus!
