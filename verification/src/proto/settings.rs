//! The settings of the remote side.

use super::AsyncSink;
use crate::frame;
use vstd::prelude::*;

verus! {

/// Acknowledges the settings of the remote side. They take effect once the acknowledgement is sent.
#[derive(Clone, Copy, Debug, PartialEq, Eq, Structural)]
pub struct Settings {
    /// Received settings that have yet to be acknowledged.
    pub pending: Option<frame::Settings>,
    /// The settings that were acknowledged last.
    pub remote: Option<frame::Settings>,
}

impl Settings {
    pub fn new() -> (r: Settings)
        ensures
            r == (Settings { pending: None, remote: None }),
    {
        Settings { pending: None, remote: None }
    }

    /// Settings are received, or the acknowledgement of the local ones, which changes nothing. Only
    /// one of them can be waiting to be acknowledged.
    pub fn recv_settings(&mut self, frame: frame::Settings)
        requires
            !frame.ack ==> old(self).pending is None,
        ensures
            *final(self) == if frame.ack {
                *old(self)
            } else {
                Settings { pending: Some(frame), ..*old(self) }
            },
    {
        if !frame.is_ack() {
            self.pending = Some(frame);
        }
    }

    /// The acknowledgement to send, if there is one. What the transport says to it goes to
    /// `ack_answered`.
    pub fn send_pending_ack(&self) -> (r: Option<frame::Settings>)
        ensures
            r == match self.pending {
                Some(_) => Some(frame::Settings { ack: true, ..frame::Settings::none() }),
                None => None,
            },
    {
        match self.pending {
            Some(_) => Some(frame::Settings::ack()),
            None => None,
        }
    }

    /// The transport took the acknowledgement, and the settings take effect; or it did not, and
    /// they stay pending.
    pub fn ack_answered(&mut self, answer: AsyncSink)
        requires
            old(self).pending is Some,
        ensures
            *final(self) == match answer {
                AsyncSink::Ready => Settings { pending: None, remote: old(self).pending },
                AsyncSink::NotReady => *old(self),
            },
    {
        match answer {
            AsyncSink::Ready => {
                self.remote = self.pending;
                self.pending = None;
            },
            AsyncSink::NotReady => {},
        }
    }
}

} // verus!
