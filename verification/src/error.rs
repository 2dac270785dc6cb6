//! What can go wrong in the listener. None of these aborts the host process.

use vstd::prelude::*;

verus! {

/// A failure the listener reports to whoever drives it.
#[derive(Clone, Copy, Debug, PartialEq, Eq, Structural)]
pub enum ListenerError {
    /// The channel could not be created because one of that name is open.
    ChannelAlreadyExists,
    /// The channel could not be created; the operating system's error code.
    ChannelCreationFailed(u32),
    /// A read failed for a reason other than the channel being closed.
    ChannelReadFailed(u32),
    /// A write was attempted on a closed channel, or the write itself failed.
    ChannelWriteFailed,
    /// A byte that is no defined tag was read.
    UndefinedMessage(u8),
    /// A restore was asked for a window that was never backed up.
    RecoverWithoutPriorBackup(isize),
    /// The worker did not terminate within the wait.
    JoinTimeout,
}

impl ListenerError {
    /// Whether the failure ends the start-up of the listener.
    pub open spec fn is_fatal_to_startup(self) -> bool {
        self is ChannelAlreadyExists || self is ChannelCreationFailed
    }

    /// Whether the failure ends the start-up of the listener. Every other
    /// failure is logged and the listener carries on.
    pub fn fatal_to_startup(&self) -> (fatal: bool)
        ensures
            fatal == self.is_fatal_to_startup(),
    {
        match self {
            ListenerError::ChannelAlreadyExists => true,
            ListenerError::ChannelCreationFailed(_) => true,
            _ => false,
        }
    }
}

} // verus!
