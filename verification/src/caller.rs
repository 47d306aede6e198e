//! The caller side of the acknowledgement race.
//!
//! The caller of a capture receives the snapshot result from the session's
//! result channel and must signal the acknowledgement channel as its very
//! first action, strictly before any further processing: the grace window
//! on the watchdog side is a valid liveness signal only if the
//! acknowledgement means "I have successfully resumed running". The phase
//! discipline here makes that ordering, and any second receive or second
//! acknowledgement, impossible by construction: the result can only be
//! taken out once the acknowledgement has been produced, and each step is
//! enabled exactly once.

use vstd::prelude::*;
use crate::trace::SnapshotResult;

verus! {

/// The caller's half of one capture session.
pub struct CallerSession {
    /// The one message received from the result channel, once it has been.
    pub inbox: Option<SnapshotResult>,
    /// Whether the acknowledgement has been produced.
    pub acked: bool,
}

impl CallerSession {
    /// A caller that has received nothing and acknowledged nothing.
    pub fn new() -> (c: CallerSession)
        ensures
            c.inbox is None,
            !c.acked,
    {
        CallerSession { inbox: None, acked: false }
    }

    /// Record the one result read from the result channel. A second read
    /// is ruled out: a session that has received cannot receive again.
    pub fn receive(&mut self, result: SnapshotResult)
        requires
            old(self).inbox is None,
            !old(self).acked,
        ensures
            final(self).inbox == Some(result),
            !final(self).acked,
    {
        self.inbox = Some(result);
    }

    /// Produce the signal to send on the acknowledgement channel. This is
    /// only enabled once a result has been received and not yet
    /// acknowledged, and nothing else is enabled in that state: the
    /// acknowledgement is necessarily the caller's first action after the
    /// receive, and is produced at most once.
    pub fn acknowledge(&mut self) -> (signal: bool)
        requires
            old(self).inbox is Some,
            !old(self).acked,
        ensures
            final(self).acked,
            final(self).inbox == old(self).inbox,
            signal == true,
    {
        self.acked = true;
        true
    }

    /// Surrender the received result for further processing. Only an
    /// acknowledged session gives its result up, so all processing of the
    /// result happens strictly after the acknowledgement; consuming the
    /// session rules out a second take.
    pub fn take_result(self) -> (r: SnapshotResult)
        requires
            self.inbox is Some,
            self.acked,
        ensures
            r == self.inbox->0,
    {
        match self.inbox {
            Some(r) => r,
            None => vstd::pervasive::unreached(),
        }
    }
}

} // verus!
