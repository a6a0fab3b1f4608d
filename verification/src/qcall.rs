//! The messages that the kernel sends to the host.

use vstd::prelude::*;

verus! {

/// Closes a descriptor of the host.
#[derive(Debug, Clone, Copy, PartialEq, Eq)]
pub struct Close {
    pub fd: i32,
}

/// A message to the host.
#[derive(Debug, Clone, Copy, PartialEq, Eq)]
pub enum Msg {
    Close(Close),
}

/// What is posted to the host's queue.
#[derive(Debug, Clone, Copy, PartialEq, Eq)]
pub enum HostOutputMsg {
    /// The address of a [`QMsg`] to be served.
    QCall(u64),
}

/// The envelope of a message, in which the host leaves its answer.
#[derive(Debug, Clone, Copy, PartialEq, Eq)]
pub struct QMsg {
    /// The task that waits for the answer.
    pub taskId: u64,
    /// Whether the host serves the message under its global lock.
    pub globalLock: bool,
    /// The answer.
    pub ret: u64,
    /// The address of the message.
    pub msg: u64,
}

} // verus!
