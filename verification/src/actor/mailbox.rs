//! The sending side of an actor's mailbox.
use vstd::prelude::*;

verus! {

/// Why a message could not be queued; the message comes back.
#[derive(Debug)]
pub enum SendError<T> {
    /// The mailbox is full.
    Full(T),
    /// The mailbox is closed.
    Closed(T),
}

/// The number of messages a mailbox holds before it is full.
pub const MAILBOX_CAPACITY: usize = 50;

} // verus!
