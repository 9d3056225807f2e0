//! The state of one stream, and flow control windows.

use super::WindowSize;
use crate::error::{ConnectionError, Reason, User};
use vstd::prelude::*;

verus! {

/// A flow control window.
#[derive(Clone, Copy, Debug, PartialEq, Eq, Structural)]
pub struct FlowControl {
    /// Amount that may be claimed.
    pub window_size: WindowSize,
    /// Amount by which the window has been expanded, but that has not been advertised.
    pub next_window_update: WindowSize,
}

/// What one side of a stream has done so far.
#[derive(Clone, Copy, Debug, PartialEq, Eq, Structural)]
pub enum Peer {
    /// It has yet to send headers.
    AwaitingHeaders,
    /// It has sent headers and may send data, as far as the window allows.
    Streaming(FlowControl),
}

/// The state of a stream.
#[derive(Clone, Copy, Debug, PartialEq, Eq, Structural)]
pub enum Stream {
    Idle,
    Open { local: Peer, remote: Peer },
    /// The local side has finished; the state of the remote one.
    HalfClosedLocal(Peer),
    /// The remote side has finished; the state of the local one.
    HalfClosedRemote(Peer),
    Closed,
}

// ===== impl FlowControl =====

impl FlowControl {
    /// A window of this size, with nothing to advertise.
    pub open spec fn of_size(sz: WindowSize) -> FlowControl {
        FlowControl { window_size: sz, next_window_update: 0 }
    }

    /// The window after so much of it was claimed.
    pub open spec fn claimed(self, sz: WindowSize) -> FlowControl {
        FlowControl { window_size: (self.window_size - sz) as u32, ..self }
    }

    /// The window after it was expanded.
    pub open spec fn expanded(self, sz: WindowSize) -> FlowControl {
        FlowControl { next_window_update: (self.next_window_update + sz) as u32, ..self }
    }

    /// The window after the expansion was advertised.
    pub open spec fn applied(self) -> FlowControl {
        FlowControl {
            window_size: (self.window_size + self.next_window_update) as u32,
            next_window_update: 0,
        }
    }

    /// The expansion that has yet to be advertised, if there is any.
    pub open spec fn update(self) -> Option<WindowSize> {
        if self.next_window_update == 0 {
            None
        } else {
            Some(self.next_window_update)
        }
    }

    /// The expansion, if it is worth a window update: at least half of what may be claimed.
    pub open spec fn advertised(self) -> Option<WindowSize> {
        if self.next_window_update == 0 || self.next_window_update < self.window_size / 2 {
            None
        } else {
            Some(self.next_window_update)
        }
    }

    /// True if the window can count `sz` more.
    pub open spec fn expand_fits(self, sz: WindowSize) -> bool {
        self.window_size + self.next_window_update + sz <= u32::MAX
    }

    /// True if the window can count what has yet to be advertised.
    pub open spec fn update_fits(self) -> bool {
        self.window_size + self.next_window_update <= u32::MAX
    }

    pub fn new(window_size: WindowSize) -> (r: FlowControl)
        ensures
            r == FlowControl::of_size(window_size),
    {
        FlowControl { window_size, next_window_update: 0 }
    }

    /// Succeeds if and only if `claim_window` would.
    pub fn ensure_window(&self, sz: WindowSize, err: ConnectionError) -> (r: Result<
        (),
        ConnectionError,
    >)
        ensures
            r == if sz <= self.window_size {
                Ok(())
            } else {
                Err(err)
            },
    {
        if sz <= self.window_size {
            Ok(())
        } else {
            Err(err)
        }
    }

    /// Claims the provided amount from the window, if there is enough space.
    pub fn claim_window(&mut self, sz: WindowSize, err: ConnectionError) -> (r: Result<
        (),
        ConnectionError,
    >)
        ensures
            if sz <= old(self).window_size {
                r == Ok::<(), ConnectionError>(()) && *final(self) == old(self).claimed(sz)
            } else {
                r == Err::<(), ConnectionError>(err) && *final(self) == *old(self)
            },
    {
        match self.ensure_window(sz, err) {
            Ok(()) => {
                self.window_size = self.window_size - sz;
                Ok(())
            },
            Err(err) => Err(err),
        }
    }

    /// Increases the window by an amount that has yet to be advertised.
    pub fn expand_window(&mut self, sz: WindowSize)
        requires
            old(self).expand_fits(sz),
        ensures
            *final(self) == old(self).expanded(sz),
    {
        self.next_window_update = self.next_window_update + sz;
    }

    /// The amount that has yet to be advertised, if it is worth a window update: small amounts wait
    /// until they are at least half of what may be claimed.
    pub fn peek_window_update(&self) -> (r: Option<WindowSize>)
        ensures
            r == self.advertised(),
    {
        if self.next_window_update == 0 || self.next_window_update < self.window_size / 2 {
            None
        } else {
            Some(self.next_window_update)
        }
    }

    /// Hands out the amount that has yet to be advertised, which may be claimed from now on.
    pub fn apply_window_update(&mut self) -> (r: Option<WindowSize>)
        requires
            old(self).update_fits(),
        ensures
            r == old(self).update(),
            *final(self) == old(self).applied(),
    {
        if self.next_window_update == 0 {
            return None;
        }
        let incr: WindowSize = self.next_window_update;
        self.next_window_update = 0;
        self.window_size = self.window_size + incr;
        Some(incr)
    }
}

/// Flow control neither makes nor loses window: what may be claimed now and later is what the
/// window was made with and expanded by, less what was claimed; and advertising changes nothing of
/// it.
pub proof fn window_is_conserved(flow: FlowControl, sz: WindowSize)
    ensures
        sz <= flow.window_size ==> flow.claimed(sz).window_size + flow.claimed(
            sz,
        ).next_window_update == flow.window_size + flow.next_window_update - sz,
        flow.expand_fits(sz) ==> flow.expanded(sz).window_size + flow.expanded(
            sz,
        ).next_window_update == flow.window_size + flow.next_window_update + sz,
        flow.update_fits() ==> flow.applied().window_size + flow.applied().next_window_update
            == flow.window_size + flow.next_window_update,
{
}

// ===== impl Peer =====

impl Peer {
    /// The window of a side that has sent headers.
    pub open spec fn flow(self) -> Option<FlowControl> {
        match self {
            Peer::AwaitingHeaders => None,
            Peer::Streaming(flow) => Some(flow),
        }
    }

    /// The window of a side that has sent headers.
    fn flow_control(&mut self) -> (r: Option<&mut FlowControl>)
        ensures
            match r {
                Some(flow) => old(self).flow() == Some(*flow) && *final(self) == Peer::Streaming(
                    *final(flow),
                ),
                None => old(self).flow() is None && *final(self) == *old(self),
            },
    {
        match self {
            Peer::AwaitingHeaders => None,
            Peer::Streaming(flow) => Some(flow),
        }
    }
}

// ===== impl Stream =====

impl Default for Stream {
    fn default() -> (r: Self)
        ensures
            r == Stream::Idle,
    {
        Stream::Idle
    }
}

impl Stream {
    /// The state after headers were received, if they can be.
    pub open spec fn recv_opened(self, sz: WindowSize, eos: bool) -> Result<
        Stream,
        ConnectionError,
    > {
        let remote = Peer::Streaming(FlowControl::of_size(sz));
        match self {
            Stream::Idle => if eos {
                Ok(Stream::HalfClosedRemote(Peer::AwaitingHeaders))
            } else {
                Ok(Stream::Open { local: Peer::AwaitingHeaders, remote })
            },
            Stream::Open { local, remote: Peer::AwaitingHeaders } => if eos {
                Ok(Stream::HalfClosedRemote(local))
            } else {
                Ok(Stream::Open { local, remote })
            },
            Stream::HalfClosedLocal(Peer::AwaitingHeaders) => if eos {
                Ok(Stream::Closed)
            } else {
                Ok(Stream::HalfClosedLocal(remote))
            },
            _ => Err(ConnectionError::Proto(Reason::ProtocolError)),
        }
    }

    /// The state after headers were sent, if they can be.
    pub open spec fn send_opened(self, sz: WindowSize, eos: bool) -> Result<
        Stream,
        ConnectionError,
    > {
        let local = Peer::Streaming(FlowControl::of_size(sz));
        match self {
            Stream::Idle => if eos {
                Ok(Stream::HalfClosedLocal(Peer::AwaitingHeaders))
            } else {
                Ok(Stream::Open { local, remote: Peer::AwaitingHeaders })
            },
            Stream::Open { local: Peer::AwaitingHeaders, remote } => if eos {
                Ok(Stream::HalfClosedLocal(remote))
            } else {
                Ok(Stream::Open { local, remote })
            },
            Stream::HalfClosedRemote(Peer::AwaitingHeaders) => if eos {
                Ok(Stream::Closed)
            } else {
                Ok(Stream::HalfClosedRemote(local))
            },
            _ => Err(ConnectionError::User(User::UnexpectedFrameType)),
        }
    }

    /// The state after the remote side finished, if it can.
    pub open spec fn recv_closed(self) -> Result<Stream, ConnectionError> {
        match self {
            Stream::Open { local, .. } => Ok(Stream::HalfClosedRemote(local)),
            Stream::HalfClosedLocal(_) => Ok(Stream::Closed),
            _ => Err(ConnectionError::Proto(Reason::ProtocolError)),
        }
    }

    /// The state after the local side finished, if it can.
    pub open spec fn send_closed(self) -> Result<Stream, ConnectionError> {
        match self {
            Stream::Open { remote, .. } => Ok(Stream::HalfClosedLocal(remote)),
            Stream::HalfClosedRemote(_) => Ok(Stream::Closed),
            _ => Err(ConnectionError::Proto(Reason::ProtocolError)),
        }
    }

    /// The window governing data that is received, if there can be any.
    pub open spec fn recv_flow(self) -> Option<FlowControl> {
        match self {
            Stream::Open { remote, .. } => remote.flow(),
            Stream::HalfClosedLocal(remote) => remote.flow(),
            _ => None,
        }
    }

    /// The state with another window governing data that is received.
    pub open spec fn with_recv_flow(self, flow: FlowControl) -> Stream {
        match self {
            Stream::Open { local, .. } => Stream::Open { local, remote: Peer::Streaming(flow) },
            Stream::HalfClosedLocal(_) => Stream::HalfClosedLocal(Peer::Streaming(flow)),
            _ => self,
        }
    }

    /// The window governing data that is sent, if there can be any.
    pub open spec fn send_flow(self) -> Option<FlowControl> {
        match self {
            Stream::Open { local, .. } => local.flow(),
            Stream::HalfClosedRemote(local) => local.flow(),
            _ => None,
        }
    }

    /// The state with another window governing data that is sent.
    pub open spec fn with_send_flow(self, flow: FlowControl) -> Stream {
        match self {
            Stream::Open { remote, .. } => Stream::Open { local: Peer::Streaming(flow), remote },
            Stream::HalfClosedRemote(_) => Stream::HalfClosedRemote(Peer::Streaming(flow)),
            _ => self,
        }
    }

    /// True if the remote side has finished: nothing more is received.
    pub open spec fn recv_ended(self) -> bool {
        self is HalfClosedRemote || self is Closed
    }

    /// The state after trailers were received, if they can be: they end what the remote side sends.
    pub open spec fn trailers_received(self, eos: bool) -> Result<Stream, ConnectionError> {
        if eos && self.recv_flow() is Some {
            self.recv_closed()
        } else {
            Err(ConnectionError::Proto(Reason::ProtocolError))
        }
    }

    /// The state after trailers were sent, if they can be: they end what the local side sends.
    pub open spec fn trailers_sent(self, eos: bool) -> Result<Stream, ConnectionError> {
        if eos && self.send_flow() is Some {
            self.send_closed()
        } else {
            Err(ConnectionError::User(User::UnexpectedFrameType))
        }
    }

    /// True if the windows can count what has yet to be advertised.
    pub open spec fn windows_fit(self) -> bool {
        &&& self.recv_flow() matches Some(flow) ==> flow.update_fits()
        &&& self.send_flow() matches Some(flow) ==> flow.update_fits()
    }

    /// Trailers are received. They end what the remote side sends.
    pub fn recv_trailers(&mut self, eos: bool) -> (r: Result<(), ConnectionError>)
        ensures
            match old(self).trailers_received(eos) {
                Ok(stream) => r == Ok::<(), ConnectionError>(()) && *final(self) == stream,
                Err(err) => r == Err::<(), ConnectionError>(err) && *final(self) == *old(self),
            },
    {
        if !eos || self.recv_flow_control().is_none() {
            return Err(ConnectionError::Proto(Reason::ProtocolError));
        }
        self.recv_close()
    }

    /// Returns true if the remote side has finished.
    pub fn is_recv_ended(&self) -> (r: bool)
        ensures
            r == self.recv_ended(),
    {
        match self {
            Stream::HalfClosedRemote(_) | Stream::Closed => true,
            _ => false,
        }
    }

    /// Trailers are sent. They end what the local side sends.
    pub fn send_trailers(&mut self, eos: bool) -> (r: Result<(), ConnectionError>)
        ensures
            match old(self).trailers_sent(eos) {
                Ok(stream) => r == Ok::<(), ConnectionError>(()) && *final(self) == stream,
                Err(err) => r == Err::<(), ConnectionError>(err) && *final(self) == *old(self),
            },
    {
        if !eos || self.send_flow_control().is_none() {
            return Err(ConnectionError::User(User::UnexpectedFrameType));
        }
        self.send_close()
    }

    /// Headers are received; with `eos` the remote side finishes.
    pub fn recv_open(&mut self, sz: WindowSize, eos: bool) -> (r: Result<(), ConnectionError>)
        ensures
            match old(self).recv_opened(sz, eos) {
                Ok(stream) => r == Ok::<(), ConnectionError>(()) && *final(self) == stream,
                Err(err) => r == Err::<(), ConnectionError>(err) && *final(self) == *old(self),
            },
    {
        let remote = Peer::Streaming(FlowControl::new(sz));
        *self = match *self {
            Stream::Idle => {
                if eos {
                    Stream::HalfClosedRemote(Peer::AwaitingHeaders)
                } else {
                    Stream::Open { local: Peer::AwaitingHeaders, remote }
                }
            },
            Stream::Open { local, remote: Peer::AwaitingHeaders } => {
                if eos {
                    Stream::HalfClosedRemote(local)
                } else {
                    Stream::Open { local, remote }
                }
            },
            Stream::HalfClosedLocal(Peer::AwaitingHeaders) => {
                if eos {
                    Stream::Closed
                } else {
                    Stream::HalfClosedLocal(remote)
                }
            },
            _ => return Err(ConnectionError::Proto(Reason::ProtocolError)),
        };
        Ok(())
    }

    /// Headers are sent; with `eos` the local side finishes.
    pub fn send_open(&mut self, sz: WindowSize, eos: bool) -> (r: Result<(), ConnectionError>)
        ensures
            match old(self).send_opened(sz, eos) {
                Ok(stream) => r == Ok::<(), ConnectionError>(()) && *final(self) == stream,
                Err(err) => r == Err::<(), ConnectionError>(err) && *final(self) == *old(self),
            },
    {
        let local = Peer::Streaming(FlowControl::new(sz));
        *self = match *self {
            Stream::Idle => {
                if eos {
                    Stream::HalfClosedLocal(Peer::AwaitingHeaders)
                } else {
                    Stream::Open { local, remote: Peer::AwaitingHeaders }
                }
            },
            Stream::Open { local: Peer::AwaitingHeaders, remote } => {
                if eos {
                    Stream::HalfClosedLocal(remote)
                } else {
                    Stream::Open { local, remote }
                }
            },
            Stream::HalfClosedRemote(Peer::AwaitingHeaders) => {
                if eos {
                    Stream::Closed
                } else {
                    Stream::HalfClosedRemote(local)
                }
            },
            _ => return Err(ConnectionError::User(User::UnexpectedFrameType)),
        };
        Ok(())
    }

    /// The remote side finishes.
    pub fn recv_close(&mut self) -> (r: Result<(), ConnectionError>)
        ensures
            match old(self).recv_closed() {
                Ok(stream) => r == Ok::<(), ConnectionError>(()) && *final(self) == stream,
                Err(err) => r == Err::<(), ConnectionError>(err) && *final(self) == *old(self),
            },
    {
        *self = match *self {
            Stream::Open { local, .. } => Stream::HalfClosedRemote(local),
            Stream::HalfClosedLocal(_) => Stream::Closed,
            _ => return Err(ConnectionError::Proto(Reason::ProtocolError)),
        };
        Ok(())
    }

    /// The local side finishes.
    pub fn send_close(&mut self) -> (r: Result<(), ConnectionError>)
        ensures
            match old(self).send_closed() {
                Ok(stream) => r == Ok::<(), ConnectionError>(()) && *final(self) == stream,
                Err(err) => r == Err::<(), ConnectionError>(err) && *final(self) == *old(self),
            },
    {
        *self = match *self {
            Stream::Open { remote, .. } => Stream::HalfClosedLocal(remote),
            Stream::HalfClosedRemote(_) => Stream::Closed,
            _ => return Err(ConnectionError::Proto(Reason::ProtocolError)),
        };
        Ok(())
    }

    pub fn is_closed(&self) -> (r: bool)
        ensures
            r == (*self is Closed),
    {
        match self {
            Stream::Closed => true,
            _ => false,
        }
    }

    /// The window governing data that is received, if there can be any.
    pub fn recv_flow_control(&mut self) -> (r: Option<&mut FlowControl>)
        ensures
            match r {
                Some(flow) => old(self).recv_flow() == Some(*flow) && *final(self) == old(
                    self
                ).with_recv_flow(*final(flow)),
                None => old(self).recv_flow() is None && *final(self) == *old(self),
            },
    {
        match self {
            Stream::Open { remote, .. } => remote.flow_control(),
            Stream::HalfClosedLocal(remote) => remote.flow_control(),
            _ => None,
        }
    }

    /// The window governing data that is sent, if there can be any.
    pub fn send_flow_control(&mut self) -> (r: Option<&mut FlowControl>)
        ensures
            match r {
                Some(flow) => old(self).send_flow() == Some(*flow) && *final(self) == old(
                    self
                ).with_send_flow(*final(flow)),
                None => old(self).send_flow() is None && *final(self) == *old(self),
            },
    {
        match self {
            Stream::Open { local, .. } => local.flow_control(),
            Stream::HalfClosedRemote(local) => local.flow_control(),
            _ => None,
        }
    }
}

/// A closed stream stays closed: nothing opens it, nothing closes it again, and no data flows.
pub proof fn closed_is_final(sz: WindowSize, eos: bool)
    ensures
        Stream::Closed.recv_opened(sz, eos) is Err,
        Stream::Closed.send_opened(sz, eos) is Err,
        Stream::Closed.recv_closed() is Err,
        Stream::Closed.send_closed() is Err,
        Stream::Closed.recv_flow() is None,
        Stream::Closed.send_flow() is None,
{
}

/// Data can be received only from a side that can still finish, and once it has finished nothing
/// more is received from it; and so for data that is sent.
pub proof fn no_data_after_the_end(stream: Stream)
    ensures
        stream.recv_flow() is Some ==> stream.recv_closed() is Ok,
        stream.send_flow() is Some ==> stream.send_closed() is Ok,
        stream.recv_closed() matches Ok(s) ==> s.recv_flow() is None && s.recv_closed() is Err
            && forall|sz: WindowSize, eos: bool| #[trigger] s.recv_opened(sz, eos) is Err,
        stream.send_closed() matches Ok(s) ==> s.send_flow() is None && s.send_closed() is Err
            && forall|sz: WindowSize, eos: bool| #[trigger] s.send_opened(sz, eos) is Err,
{
}

/// What one side does leaves the other as it is.
pub proof fn sides_are_independent(stream: Stream, sz: WindowSize, flow: FlowControl)
    ensures
        stream.recv_closed() matches Ok(s) ==> s.send_flow() == stream.send_flow(),
        stream.send_closed() matches Ok(s) ==> s.recv_flow() == stream.recv_flow(),
        forall|eos: bool|
            #[trigger] stream.recv_opened(sz, eos) matches Ok(s) ==> s.send_flow()
                == stream.send_flow(),
        forall|eos: bool|
            #[trigger] stream.send_opened(sz, eos) matches Ok(s) ==> s.recv_flow()
                == stream.recv_flow(),
        stream.with_recv_flow(flow).send_flow() == stream.send_flow(),
        stream.with_send_flow(flow).recv_flow() == stream.recv_flow(),
{
}

} // verus!
