//! The connection as a whole.

use super::ping_pong::{ping_in, PingPong, PingPongModel, PongEvent, PongStep};
use super::settings::Settings;
use super::streams::{Config, Streams, StreamsModel};
use super::{Async, AsyncSink, Peer, DEFAULT_INITIAL_WINDOW_SIZE, MAX_WINDOW_SIZE};
use crate::client::{self, SentStream, StreamKey, MAX_STREAM_ID};
use crate::error::{ConnectionError, Reason, RecvError, User};
use crate::frame::headers::END_STREAM;
use crate::frame::{self, Frame, GoAway, Headers, Ping, Reset, StreamId};
use crate::message::{Request, Version};
use vstd::prelude::*;

verus! {

/// An H2 connection. It says what is to be done with the transport, and is told how that went.
#[derive(Debug)]
pub struct Connection {
    /// Tracks the connection level state transitions.
    state: State,
    /// Ping/pong handler
    ping_pong: PingPong,
    /// Connection settings
    settings: Settings,
    /// Stream state handler
    streams: Streams,
    /// The ID of the stream that the next request is sent on
    next_stream_id: StreamId,
}

/// The state of a connection.
#[derive(Clone, Copy, Debug, PartialEq, Eq, Structural)]
pub enum State {
    /// Currently open in a sane state
    Open,
    /// Waiting to send a GO_AWAY frame
    GoAway(GoAway),
    /// The codec must be flushed
    Flush(Reason),
    /// In an errored state
    Error(Reason),
}

/// A connection, as values.
#[verifier::ext_equal]
pub struct ConnectionModel {
    pub state: State,
    pub ping_pong: PingPongModel,
    pub settings: Settings,
    pub streams: StreamsModel,
    pub next_stream_id: StreamId,
}

/// The frames that have to be sent before another one is received.
#[derive(Clone, Copy, Debug, PartialEq, Eq, Structural)]
pub enum Control {
    Pong,
    SettingsAck,
    Refusal,
}

/// What happened while the connection is made ready to receive a frame.
#[derive(Debug)]
pub enum ReadyEvent {
    /// Nothing yet.
    Start,
    /// The transport took the frame.
    Taken(Control),
    /// The transport handed the frame back.
    NotTaken(Control, Frame),
}

/// What to do next to make the connection ready to receive a frame.
#[derive(Debug)]
pub enum ReadyStep {
    /// Hand the frame to the transport.
    Send(Control, Frame),
    /// The result.
    Done(Async<()>),
}

/// What came of polling the transport for a frame.
#[derive(Debug)]
pub enum RecvEvent {
    /// A frame, or `None` if the transport has ended.
    Frame(Option<Frame>),
    /// Socket not ready
    NotReady,
    /// Receiving failed
    Failed(RecvError),
}

/// What to do after the transport was polled for a frame.
#[derive(Debug)]
pub enum RecvStep {
    /// Make the connection ready, and poll again.
    Continue,
    /// Hand the frame to the reader of its stream, then go on.
    Deliver(Frame),
    /// Notify the task that waits for window updates, then go on.
    Notify,
    /// Reset the stream, then go on.
    ResetStream { id: StreamId, reason: Reason },
    /// Flush any pending writes, then return that nothing is ready.
    Flush,
    /// Return this.
    Return(Result<Async<()>, ConnectionError>),
}

/// What to do to advance the connection.
#[derive(Debug)]
pub enum PollStep {
    /// Make the connection ready, and poll the transport for a frame.
    Receive,
    /// Complete what is to be sent; once that is done, ask again.
    Complete,
    /// Return this error.
    Fail(ConnectionError),
}

/// What happened while the connection completes what is to be sent.
#[derive(Clone, Copy, Debug, PartialEq, Eq, Structural)]
pub enum CompleteEvent {
    /// Nothing yet.
    Start,
    /// The transport took the frame.
    Taken,
    /// The transport is flushed.
    Flushed,
    /// The transport is not ready.
    NotReady,
}

/// What to do next to complete what is to be sent.
#[derive(Debug)]
pub enum CompleteStep {
    /// Make the connection ready to receive a frame, then send the window updates; the result is
    /// what comes of that.
    SendPending,
    /// Hand the frame to the transport.
    Send(Frame),
    /// Flush the transport.
    Flush,
    /// The result.
    Done(Async<()>),
}

impl View for Connection {
    type V = ConnectionModel;

    closed spec fn view(&self) -> ConnectionModel {
        ConnectionModel {
            state: self.state,
            ping_pong: self.ping_pong@,
            settings: self.settings,
            streams: self.streams@,
            next_stream_id: self.next_stream_id,
        }
    }
}

impl State {
    /// The reason for which the connection failed, once the remote has been told.
    pub open spec fn failure(self) -> Option<Reason> {
        match self {
            State::Error(reason) => Some(reason),
            _ => None,
        }
    }

    /// The reason for which the connection failed, once the remote has been told.
    pub fn error(&self) -> (r: Option<Reason>)
        ensures
            r == self.failure(),
    {
        match *self {
            State::Error(reason) => Some(reason),
            _ => None,
        }
    }
}

impl ConnectionModel {
    /// A connection without streams and with nothing to send. Its streams are set up by the local
    /// settings.
    pub open spec fn initial(
        is_server: bool,
        local: frame::Settings,
        next_stream_id: StreamId,
    ) -> ConnectionModel {
        ConnectionModel {
            state: State::Open,
            ping_pong: PingPongModel { is_closed: false, pongs: Seq::empty() },
            settings: Settings { pending: None, remote: None },
            streams: StreamsModel::of_windows(
                is_server,
                config_of(local),
                DEFAULT_INITIAL_WINDOW_SIZE,
                DEFAULT_INITIAL_WINDOW_SIZE,
            ),
            next_stream_id,
        }
    }

    /// True if nothing has to be sent before another frame is received.
    pub open spec fn is_ready(self) -> bool {
        &&& self.ping_pong.pongs.len() == 0
        &&& self.settings.pending is None
        &&& self.streams.refused is None
    }

    /// The frame that has to be sent next, if there is one: a pong, an acknowledgement of settings,
    /// or a refusal, in this order.
    pub open spec fn next_control(self) -> Option<Control> {
        if self.ping_pong.pongs.len() > 0 {
            Some(Control::Pong)
        } else if self.settings.pending is Some {
            Some(Control::SettingsAck)
        } else if self.streams.refused is Some {
            Some(Control::Refusal)
        } else {
            None
        }
    }

    /// The connection after the frame that has to be sent next was handed out.
    pub open spec fn control_taken(self) -> ConnectionModel {
        match self.next_control() {
            Some(Control::Pong) => ConnectionModel {
                ping_pong: self.ping_pong.handed_out(),
                ..self
            },
            Some(Control::Refusal) => ConnectionModel {
                streams: self.streams.send_pending_refusal().1,
                ..self
            },
            _ => self,
        }
    }

    /// True if this is the frame that has to be sent next.
    pub open spec fn is_next(self, frame: Frame) -> bool {
        match self.next_control() {
            Some(Control::Pong) => frame is Ping && ping_in(frame) == self.ping_pong.pongs[0]
                && ping_in(frame).ack,
            Some(Control::SettingsAck) => frame == Frame::Settings(
                frame::Settings { ack: true, ..frame::Settings::none() },
            ),
            Some(Control::Refusal) => frame == Frame::Reset(
                Reset { stream_id: self.streams.refused->0, reason: Reason::RefusedStream },
            ),
            None => false,
        }
    }

    /// The connection after the transport took a frame that had to be sent. Settings take effect
    /// when they are acknowledged.
    pub open spec fn control_sent(self, control: Control) -> ConnectionModel {
        match control {
            Control::SettingsAck => ConnectionModel {
                settings: Settings { pending: None, remote: self.settings.pending },
                streams: self.streams.apply_remote_settings(
                    self.settings.pending->0.max_concurrent_streams,
                    self.settings.pending->0.initial_window_size,
                ),
                ..self
            },
            _ => self,
        }
    }

    /// The connection after the transport handed back a frame that had to be sent.
    pub open spec fn control_back(self, control: Control, frame: Frame) -> ConnectionModel {
        match control {
            Control::Pong => ConnectionModel {
                ping_pong: self.ping_pong.handed_back(ping_in(frame)),
                ..self
            },
            Control::SettingsAck => self,
            Control::Refusal => ConnectionModel {
                streams: self.streams.refusal_answered(
                    frame->Reset_0.stream_id,
                    AsyncSink::NotReady,
                ),
                ..self
            },
        }
    }

    /// True if the event is an answer to what was handed out.
    pub open spec fn expects(self, event: ReadyEvent) -> bool {
        match event {
            ReadyEvent::Start => true,
            ReadyEvent::Taken(control) => control is SettingsAck ==> self.settings.pending is Some,
            ReadyEvent::NotTaken(control, frame) => match control {
                Control::Pong => frame is Ping && ping_in(frame).ack,
                Control::SettingsAck => self.settings.pending is Some,
                Control::Refusal => frame is Reset,
            },
        }
    }

    /// True if the frame can be received: neither RST_STREAM nor PUSH_PROMISE frames are supported;
    /// data must fit into the largest window, and what a window is expanded by must be countable.
    pub open spec fn supports(self, frame: Frame) -> bool {
        match frame {
            Frame::Reset(_) => false,
            Frame::PushPromise(_) => false,
            Frame::Headers(headers) => self.streams.supports_recv_headers(
                headers@.stream_id,
                headers@.is_trailers(),
            ),
            Frame::Data(data) => data@.payload.len() <= MAX_WINDOW_SIZE,
            Frame::WindowUpdate(update) => self.streams.expand_fits(
                update.stream_id,
                update.size_increment,
            ),
            _ => true,
        }
    }

    /// A frame is received: what to do, and the connection after it.
    pub open spec fn recv_frame(self, frame: Frame) -> (RecvStep, ConnectionModel) {
        match frame {
            Frame::Headers(headers) => {
                let (answer, streams) = self.streams.recv_headers(
                    headers@.stream_id,
                    headers@.is_trailers(),
                    headers@.flags.has(END_STREAM),
                );
                (
                    match answer {
                        Ok(true) => RecvStep::Deliver(frame),
                        Ok(false) => RecvStep::Continue,
                        Err(err) => RecvStep::Return(Err(err)),
                    },
                    ConnectionModel { streams, ..self },
                )
            },
            Frame::Data(data) => {
                let (answer, streams) = self.streams.recv_data(
                    data@.stream_id,
                    data@.payload.len() as u32,
                    data@.end_stream,
                );
                (
                    match answer {
                        Ok(()) => RecvStep::Deliver(frame),
                        Err(err) => RecvStep::Return(Err(err)),
                    },
                    ConnectionModel { streams, ..self },
                )
            },
            Frame::Settings(settings) => (
                RecvStep::Continue,
                if settings.ack {
                    self
                } else {
                    ConnectionModel {
                        settings: Settings { pending: Some(settings), ..self.settings },
                        ..self
                    }
                },
            ),
            Frame::Ping(ping) => (
                RecvStep::Continue,
                ConnectionModel { ping_pong: self.ping_pong.after_ping(ping@), ..self },
            ),
            Frame::WindowUpdate(update) => {
                let (notify, streams) = self.streams.recv_window_update(update);
                (
                    if notify {
                        RecvStep::Notify
                    } else {
                        RecvStep::Continue
                    },
                    ConnectionModel { streams, ..self },
                )
            },
            _ => (RecvStep::Continue, self),
        }
    }

    /// The transport was polled for a frame: what to do, and the connection after it.
    pub open spec fn recv(self, event: RecvEvent) -> (RecvStep, ConnectionModel) {
        match event {
            RecvEvent::Frame(Some(frame)) => self.recv_frame(frame),
            RecvEvent::Frame(None) => (RecvStep::Return(Ok(Async::Ready(()))), self),
            RecvEvent::NotReady => (RecvStep::Flush, self),
            RecvEvent::Failed(RecvError::Connection(reason)) => (
                RecvStep::Return(Err(ConnectionError::Proto(reason))),
                self,
            ),
            RecvEvent::Failed(RecvError::Stream { id, reason }) => (
                RecvStep::ResetStream { id, reason },
                self,
            ),
            RecvEvent::Failed(RecvError::Io(kind)) => (
                RecvStep::Return(Err(ConnectionError::Io(kind))),
                self,
            ),
        }
    }

    /// A request is sent on a new stream: the stream, and the connection after it. The ID is not
    /// used up by a request that cannot be sent. One for a relative URI can be sent only if it is
    /// forwarded from HTTP 1.x.
    pub open spec fn send_request(self, request: Request, end_of_stream: bool) -> (
        Result<StreamId, ConnectionError>,
        ConnectionModel,
    ) {
        let id = self.next_stream_id;
        let (opened, streams) = self.streams.send_headers(id, false, end_of_stream);
        if id.0 > MAX_STREAM_ID {
            (Err(ConnectionError::User(User::OverflowedStreamId)), self)
        } else if request.uri@.scheme is None && request.uri@.authority is None && request.version
            == Version::Http2 {
            (Err(ConnectionError::User(User::MissingUriSchemeAndAuthority)), self)
        } else {
            match opened {
                Ok(()) => (
                    Ok(id),
                    ConnectionModel { streams, next_stream_id: id_after(id), ..self },
                ),
                Err(err) => (Err(err), self),
            }
        }
    }

    /// The connection after receiving failed: the readers of the streams are told, and the remote
    /// is told of a protocol error and of the last of its streams that was processed. A connection
    /// that has failed already stays as it is.
    pub open spec fn failed(self, err: ConnectionError) -> (
        Option<ConnectionError>,
        ConnectionModel,
    ) {
        let told = ConnectionModel { streams: self.streams.recv_err(err), ..self };
        if !(self.state is Open) {
            (None, self)
        } else {
            match err {
                ConnectionError::Proto(reason) => (
                    None,
                    ConnectionModel {
                        state: State::GoAway(
                            GoAway { last_stream_id: self.streams.last_processed_id, reason },
                        ),
                        ..told
                    },
                ),
                _ => (Some(err), told),
            }
        }
    }

    /// What to do next to complete what is to be sent, and the state after it.
    pub open spec fn complete(state: State, event: CompleteEvent) -> (CompleteStep, State) {
        match (event, state) {
            (CompleteEvent::NotReady, _) => (CompleteStep::Done(Async::NotReady), state),
            (CompleteEvent::Taken, State::GoAway(frame)) => (
                CompleteStep::Flush,
                State::Flush(frame.reason),
            ),
            (CompleteEvent::Flushed, State::Flush(reason)) => (
                CompleteStep::Done(Async::Ready(())),
                State::Error(reason),
            ),
            (_, State::Open) => (CompleteStep::SendPending, state),
            (_, State::GoAway(frame)) => (CompleteStep::Send(Frame::GoAway(frame)), state),
            (_, State::Flush(_)) => (CompleteStep::Flush, state),
            (_, State::Error(_)) => (CompleteStep::Done(Async::Ready(())), state),
        }
    }
}

/// How the local settings configure the streams: the windows and the limit that the remote side was
/// told of. The remote side has not told of its own yet.
pub open spec fn config_of(local: frame::Settings) -> Config {
    Config {
        max_remote_initiated: match local.max_concurrent_streams {
            Some(max) => Some(max as usize),
            None => None,
        },
        init_remote_window_sz: match local.initial_window_size {
            Some(size) => size,
            None => DEFAULT_INITIAL_WINDOW_SIZE,
        },
        max_local_initiated: None,
        init_local_window_sz: DEFAULT_INITIAL_WINDOW_SIZE,
    }
}

impl Connection {
    /// What holds of every connection.
    pub closed spec fn wf(self) -> bool {
        self.ping_pong.wf() && self.streams@.wf()
    }

    /// A connection without streams. The streams are set up by the settings that the remote side
    /// is told of; the windows of the connection have the default size. The first stream that is
    /// opened has the lowest ID of its side.
    pub fn new<P: Peer>(local: frame::Settings) -> (r: Connection)
        ensures
            r.wf(),
            r@ == ConnectionModel::initial(
                P::spec_is_server(),
                local,
                StreamId(
                    if P::spec_is_server() {
                        2
                    } else {
                        1
                    },
                ),
            ),
            r@.is_ready(),
    {
        let first: u32 = if P::is_server() {
            2
        } else {
            1
        };
        Connection::with_stream_id::<P>(local, StreamId(first))
    }

    /// A connection without streams, where the first stream that is opened has this ID.
    pub fn with_stream_id<P: Peer>(local: frame::Settings, next_stream_id: StreamId) -> (r:
        Connection)
        ensures
            r.wf(),
            r@ == ConnectionModel::initial(P::spec_is_server(), local, next_stream_id),
            r@.is_ready(),
    {
        let config = Config {
            max_remote_initiated: match local.max_concurrent_streams {
                Some(max) => Some(max as usize),
                None => None,
            },
            init_remote_window_sz: match local.initial_window_size {
                Some(size) => size,
                None => DEFAULT_INITIAL_WINDOW_SIZE,
            },
            max_local_initiated: None,
            init_local_window_sz: DEFAULT_INITIAL_WINDOW_SIZE,
        };
        let streams = Streams::with_windows::<P>(
            config,
            DEFAULT_INITIAL_WINDOW_SIZE,
            DEFAULT_INITIAL_WINDOW_SIZE,
        );
        Connection {
            state: State::Open,
            ping_pong: PingPong::new(),
            settings: Settings::new(),
            streams,
            next_stream_id,
        }
    }

    /// Returns `Ready` when the connection is able to support a new request stream: not as long as
    /// there are as many active ones as the remote allows.
    pub fn poll_send_request_ready(&self) -> (r: Async<()>)
        ensures
            r == if self@.streams.local_full() {
                Async::NotReady
            } else {
                Async::Ready(())
            },
    {
        self.streams.poll_send_request_ready()
    }

    /// Initialize a new HTTP/2.0 stream and send the message: the HEADERS frame is to be handed to
    /// the transport. Each request is sent on a stream with a higher ID than those before it; one
    /// that cannot be sent leaves everything as it is.
    pub fn send_request(&mut self, request: Request, end_of_stream: bool) -> (r: Result<
        (SentStream, Headers),
        ConnectionError,
    >)
        requires
            old(self).wf(),
        ensures
            final(self).wf(),
            ({
                let (sent, after) = old(self)@.send_request(request, end_of_stream);
                &&& final(self)@ == after
                &&& match sent {
                    Ok(id) => {
                        &&& r is Ok
                        &&& r->Ok_0.0 == SentStream {
                            key: StreamKey(id.0),
                            is_pending_open: false,
                        }
                        &&& r->Ok_0.1@ == client::Peer::request_frame(id, request, end_of_stream)
                    },
                    Err(err) => r == Err::<(SentStream, Headers), ConnectionError>(err),
                }
            }),
    {
        let id = self.next_stream_id;
        if id.0 > MAX_STREAM_ID {
            return Err(ConnectionError::User(User::OverflowedStreamId));
        }
        let headers = match client::Peer::convert_send_message(id, request, end_of_stream) {
            Ok(headers) => headers,
            Err(err) => return Err(ConnectionError::User(err)),
        };
        if let Err(err) = self.streams.send_headers(&headers) {
            return Err(err);
        }
        self.next_stream_id = StreamId(id.0 + 2);
        Ok((SentStream { key: StreamKey(id.0), is_pending_open: false }, headers))
    }

    /// Hands out the streams that the remote side initiated, oldest first.
    pub fn next_incoming(&mut self) -> (r: Option<StreamKey>)
        requires
            old(self).wf(),
        ensures
            final(self).wf(),
            ({
                let (next, streams) = old(self)@.streams.next_incoming();
                &&& final(self)@ == (ConnectionModel { streams, ..old(self)@ })
                &&& r == match next {
                    Some(id) => Some(StreamKey(id.0)),
                    None => None,
                }
            }),
    {
        match self.streams.next_incoming() {
            Some(id) => Some(StreamKey(id.0)),
            None => None,
        }
    }

    /// The state of the connection.
    pub fn state(&self) -> (r: State)
        ensures
            r == self@.state,
    {
        self.state
    }

    /// The settings of the remote side that were acknowledged last.
    pub fn remote_settings(&self) -> (r: Option<frame::Settings>)
        ensures
            r == self@.settings.remote,
    {
        self.settings.remote
    }

    /// The streams of the connection.
    pub fn streams(&mut self) -> (r: &mut Streams)
        ensures
            r@ == old(self)@.streams,
            old(self).wf() ==> r@.wf(),
            final(self)@ == (ConnectionModel { streams: final(r)@, ..old(self)@ }),
            old(self).wf() && final(r)@.wf() ==> final(self).wf(),
    {
        &mut self.streams
    }

    /// Makes the connection ready to receive a frame: sends what has to be sent before that.
    pub fn poll_ready(&mut self, event: ReadyEvent) -> (r: ReadyStep)
        requires
            old(self).wf(),
            old(self)@.expects(event),
        ensures
            final(self).wf(),
            match event {
                ReadyEvent::NotTaken(control, frame) => {
                    &&& r == ReadyStep::Done(Async::NotReady)
                    &&& final(self)@ == old(self)@.control_back(control, frame)
                },
                _ => {
                    let m = match event {
                        ReadyEvent::Taken(control) => old(self)@.control_sent(control),
                        _ => old(self)@,
                    };
                    match m.next_control() {
                        Some(control) => {
                            &&& r matches ReadyStep::Send(c, frame) && c == control && m.is_next(
                                frame,
                            )
                            &&& final(self)@ == m.control_taken()
                        },
                        None => {
                            &&& r == ReadyStep::Done(Async::Ready(()))
                            &&& final(self)@ == m
                            &&& final(self)@.is_ready()
                        },
                    }
                },
            },
    {
        match event {
            ReadyEvent::Start => {},
            ReadyEvent::Taken(control) => match control {
                Control::SettingsAck => {
                    if let Some(settings) = self.settings.pending {
                        self.streams.apply_remote_settings(&settings);
                    }
                    self.settings.ack_answered(AsyncSink::Ready);
                },
                Control::Pong => {},
                Control::Refusal => {},
            },
            ReadyEvent::NotTaken(control, frame) => {
                match (control, frame) {
                    (Control::Pong, frame) => {
                        self.ping_pong.send_pongs(PongEvent::NotTaken(frame));
                    },
                    (Control::SettingsAck, _) => {
                        self.settings.ack_answered(AsyncSink::NotReady);
                    },
                    (Control::Refusal, Frame::Reset(reset)) => {
                        self.streams.refusal_answered(reset, AsyncSink::NotReady);
                    },
                    (Control::Refusal, _) => {},
                }
                return ReadyStep::Done(Async::NotReady);
            },
        }
        // The order of these calls don't really matter too much as only one
        // should have pending work.
        if let PongStep::Send(frame) = self.ping_pong.send_pongs(PongEvent::Start) {
            return ReadyStep::Send(Control::Pong, frame);
        }
        if let Some(ack) = self.settings.send_pending_ack() {
            return ReadyStep::Send(Control::SettingsAck, Frame::from(ack));
        }
        if let Some(reset) = self.streams.send_pending_refusal() {
            return ReadyStep::Send(Control::Refusal, Frame::from(reset));
        }
        ReadyStep::Done(Async::Ready(()))
    }

    /// Advances the internal state of the connection: when open, a frame is received; when not, the
    /// remote is told, and the error is returned once that is done.
    pub fn poll(&self) -> (r: PollStep)
        ensures
            r == match self@.state {
                State::Open => PollStep::Receive,
                State::Error(reason) => PollStep::Fail(ConnectionError::Proto(reason)),
                _ => PollStep::Complete,
            },
    {
        match self.state {
            // When open, continue to poll a frame
            State::Open => PollStep::Receive,
            // In an error state
            _ => match self.state.error() {
                // GO_AWAY frame has been sent, return the error
                Some(reason) => PollStep::Fail(ConnectionError::Proto(reason)),
                None => PollStep::Complete,
            },
        }
    }

    /// True if the frame can be received.
    pub fn can_recv(&self, frame: &Frame) -> (r: bool)
        requires
            self.wf(),
        ensures
            r == self@.supports(*frame),
    {
        match frame {
            Frame::Reset(_) => false,
            Frame::PushPromise(_) => false,
            Frame::Headers(headers) => self.streams.can_recv_headers(headers),
            Frame::Data(data) => data.len() <= MAX_WINDOW_SIZE as usize,
            Frame::WindowUpdate(update) => self.streams.can_expand_window(
                update.stream_id(),
                update.size_increment(),
            ),
            _ => true,
        }
    }

    /// The transport was polled for a frame, after the connection was made ready for one.
    pub fn recv(&mut self, event: RecvEvent) -> (r: RecvStep)
        requires
            old(self).wf(),
            old(self)@.is_ready(),
            event matches RecvEvent::Frame(Some(frame)) ==> old(self)@.supports(frame),
        ensures
            final(self).wf(),
            (r, final(self)@) == old(self)@.recv(event),
    {
        // Poll a frame from the codec.
        let frame = match event {
            // Received a frame
            RecvEvent::Frame(frame) => frame,
            // Socket not ready, try to flush any pending data
            RecvEvent::NotReady => return RecvStep::Flush,
            // Connection level error, set GO_AWAY and close connection
            RecvEvent::Failed(RecvError::Connection(reason)) => return RecvStep::Return(
                Err(ConnectionError::Proto(reason)),
            ),
            // Stream level error, reset the stream and try to poll again
            RecvEvent::Failed(RecvError::Stream { id, reason }) => return RecvStep::ResetStream {
                id,
                reason,
            },
            // I/O error, nothing more can be done
            RecvEvent::Failed(RecvError::Io(kind)) => return RecvStep::Return(
                Err(ConnectionError::Io(kind)),
            ),
        };
        match frame {
            Some(Frame::Headers(frame)) => match self.streams.recv_headers(frame) {
                Ok(Some(frame)) => RecvStep::Deliver(Frame::from(frame)),
                Ok(None) => RecvStep::Continue,
                Err(err) => RecvStep::Return(Err(err)),
            },
            Some(Frame::Data(frame)) => match self.streams.recv_data(&frame) {
                Ok(()) => RecvStep::Deliver(Frame::from(frame)),
                Err(err) => RecvStep::Return(Err(err)),
            },
            Some(Frame::Settings(frame)) => {
                self.settings.recv_settings(frame);
                RecvStep::Continue
            },
            // The remote opens no more streams; those that are there go on
            Some(Frame::GoAway(_)) => RecvStep::Continue,
            Some(Frame::Ping(frame)) => {
                self.ping_pong.recv_ping(frame);
                RecvStep::Continue
            },
            Some(Frame::WindowUpdate(frame)) => {
                if self.streams.recv_window_update(frame) {
                    RecvStep::Notify
                } else {
                    RecvStep::Continue
                }
            },
            Some(_) => RecvStep::Continue,
            None => RecvStep::Return(Ok(Async::Ready(()))),
        }
    }

    /// Receiving failed, which the readers of the streams are told. Of a protocol error the remote
    /// is told first, with the ID of the last of its streams that was processed; any other is
    /// returned. A connection that has failed already stays as it is.
    pub fn recv_failed(&mut self, err: ConnectionError) -> (r: Option<ConnectionError>)
        requires
            old(self).wf(),
        ensures
            final(self).wf(),
            (r, final(self)@) == old(self)@.failed(err),
    {
        match self.state {
            State::Open => {},
            _ => return None,
        }
        let last_processed_id = self.streams.recv_err(err);
        match err {
            ConnectionError::Proto(reason) => {
                let frame = GoAway::new(last_processed_id, reason);
                self.state = State::GoAway(frame);
                None
            },
            err => Some(err),
        }
    }

    /// Completes what is to be sent: when open, what is pending; else the GO_AWAY frame, after
    /// which the transport is flushed and the connection has failed.
    pub fn poll_complete(&mut self, event: CompleteEvent) -> (r: CompleteStep)
        ensures
            (r, final(self)@.state) == ConnectionModel::complete(old(self)@.state, event),
            final(self)@ == (ConnectionModel { state: final(self)@.state, ..old(self)@ }),
            final(self).wf() == old(self).wf(),
    {
        match event {
            // Not ready to send the frame... try again later.
            CompleteEvent::NotReady => return CompleteStep::Done(Async::NotReady),
            CompleteEvent::Taken => {
                if let State::GoAway(frame) = self.state {
                    // GO_AWAY sent, transition the connection to an errored state
                    self.state = State::Flush(frame.reason());
                }
            },
            CompleteEvent::Flushed => {
                if let State::Flush(reason) = self.state {
                    self.state = State::Error(reason);
                }
            },
            CompleteEvent::Start => {},
        }
        match self.state {
            State::Open => CompleteStep::SendPending,
            State::GoAway(frame) => CompleteStep::Send(Frame::from(frame)),
            State::Flush(_) => CompleteStep::Flush,
            State::Error(_) => CompleteStep::Done(Async::Ready(())),
        }
    }
}

/// The ID of the stream after this one that the same side can open.
pub open spec fn id_after(id: StreamId) -> StreamId {
    StreamId((id.0 + 2) as u32)
}

/// Requests are sent on streams of their own, whose IDs are those of the client and increase. A
/// request that cannot be sent uses none up.
pub proof fn requests_have_increasing_ids(m: ConnectionModel, request: Request, eos: bool)
    requires
        m.next_stream_id.is_client_initiated(),
    ensures
        ({
            let (sent, after) = m.send_request(request, eos);
            match sent {
                Ok(id) => {
                    &&& id == m.next_stream_id
                    &&& after.next_stream_id.0 > id.0
                    &&& after.next_stream_id.is_client_initiated()
                    &&& after.streams.streams.contains_key(id.0)
                },
                Err(_) => after == m,
            }
        }),
{
}

/// A client can send a request as long as the number of its active streams has not reached what
/// the remote permits; one for an absolute URI is sent then.
pub proof fn requests_are_sent_when_ready(m: ConnectionModel, request: Request, eos: bool)
    requires
        m.streams.wf(),
        m.streams.can_local_open(m.next_stream_id),
        m.next_stream_id.0 <= MAX_STREAM_ID,
        !m.streams.streams.contains_key(m.next_stream_id.0),
        request.uri@.scheme is Some,
    ensures
        m.send_request(request, eos).0 is Ok <==> !m.streams.local_full(),
        m.streams.local_full() ==> m.send_request(request, eos).0 == Err::<
            StreamId,
            ConnectionError,
        >(ConnectionError::User(User::Rejected)),
{
}

/// A protocol error is reported only after the remote was sent a GO_AWAY frame with its reason and
/// the ID of the last of its streams that was processed, and the transport was flushed; and it is
/// reported with that reason.
pub proof fn remote_is_told_of_errors(m: ConnectionModel, reason: Reason)
    requires
        m.state is Open,
    ensures
        ({
            let (returned, told) = m.failed(ConnectionError::Proto(reason));
            let (send, state) = ConnectionModel::complete(told.state, CompleteEvent::Start);
            let (flush, sent) = ConnectionModel::complete(state, CompleteEvent::Taken);
            let (done, over) = ConnectionModel::complete(sent, CompleteEvent::Flushed);
            &&& returned is None
            &&& told.state.failure() is None
            &&& send == CompleteStep::Send(
                Frame::GoAway(GoAway { last_stream_id: m.streams.last_processed_id, reason }),
            )
            &&& state == told.state
            &&& flush == CompleteStep::Flush
            &&& sent.failure() is None
            &&& done == CompleteStep::Done(Async::Ready(()))
            &&& over.failure() == Some(reason)
        }),
{
}

/// A connection that has failed does not become open again, nor does the reason change, neither
/// when what is to be sent is completed nor when receiving fails again.
pub proof fn failure_is_final(
    m: ConnectionModel,
    state: State,
    event: CompleteEvent,
    err: ConnectionError,
)
    requires
        !(state is Open),
    ensures
        !(m.state is Open) ==> m.failed(err) == (None::<ConnectionError>, m),
        ({
            let after = ConnectionModel::complete(state, event).1;
            &&& !(after is Open)
            &&& reason_of(after) == reason_of(state)
            &&& event is NotReady || event is Start ==> after == state
        }),
{
}

/// When the connection fails, the reader of every stream that has not ended finds out why, behind
/// what was received; one whose stream has ended finds its end as before. What made the connection
/// fail first is what it stays.
pub proof fn readers_are_told_of_errors(
    m: ConnectionModel,
    err: ConnectionError,
    later: ConnectionError,
    id: StreamId,
)
    requires
        m.state is Open,
        m.streams.failure is None,
    ensures
        ({
            let after = m.failed(err).1;
            &&& after.streams.poll_recv_end(id) == if m.streams.poll_recv_end(id)
                == Ok::<Async<()>, ConnectionError>(Async::NotReady) {
                Err::<Async<()>, ConnectionError>(err)
            } else {
                m.streams.poll_recv_end(id)
            }
            &&& after.failed(later).1.streams.poll_recv_end(id) == after.streams.poll_recv_end(id)
        }),
{
}

/// The reason for which the connection fails or has failed.
pub open spec fn reason_of(state: State) -> Option<Reason> {
    match state {
        State::Open => None,
        State::GoAway(frame) => Some(frame.reason),
        State::Flush(reason) => Some(reason),
        State::Error(reason) => Some(reason),
    }
}

/// A frame that the transport hands back is the next one again, and nothing else has changed.
pub proof fn control_frames_are_not_lost(m: ConnectionModel, frame: Frame)
    requires
        m.next_control() is Some,
        m.is_next(frame),
    ensures
        m.control_taken().expects(ReadyEvent::NotTaken(m.next_control()->0, frame)),
        m.control_taken().expects(ReadyEvent::Taken(m.next_control()->0)),
        m.control_taken().control_back(m.next_control()->0, frame) == m,
{
    let back = m.control_taken().control_back(m.next_control()->0, frame);
    assert(back.ping_pong.pongs =~= m.ping_pong.pongs);
}

/// A ping request is answered before another frame is received: the next frame to send is the
/// answer with its payload, and there is no other.
pub proof fn pings_are_answered_first(m: ConnectionModel, ping: Ping)
    requires
        m.is_ready(),
        !ping@.ack,
    ensures
        ({
            let (step, after) = m.recv_frame(Frame::Ping(ping));
            &&& step == RecvStep::Continue
            &&& !after.is_ready()
            &&& after.next_control() == Some(Control::Pong)
            &&& after.ping_pong.pongs == seq![ping@.answer()]
            &&& after.control_taken().is_ready()
        }),
{
}

/// Settings are acknowledged before another frame is received, and take effect with that, not
/// before: the limit on streams and the window that new streams start with are those of the remote
/// side from then on.
pub proof fn settings_are_acknowledged_first(m: ConnectionModel, settings: frame::Settings)
    requires
        m.is_ready(),
        !settings.ack,
    ensures
        ({
            let (step, after) = m.recv_frame(Frame::Settings(settings));
            &&& step == RecvStep::Continue
            &&& !after.is_ready()
            &&& after.next_control() == Some(Control::SettingsAck)
            &&& after.settings.remote == m.settings.remote
            &&& after.streams == m.streams
            &&& after.control_sent(Control::SettingsAck).streams
                == m.streams.apply_remote_settings(
                settings.max_concurrent_streams,
                settings.initial_window_size,
            )
            &&& after.control_sent(Control::SettingsAck).settings.remote == Some(settings)
            &&& after.control_sent(Control::SettingsAck).is_ready()
        }),
{
}

/// A stream that is refused is reset, for that reason, before another frame is received. Its
/// headers are not handed on.
pub proof fn refusals_are_sent_first(m: ConnectionModel, headers: Headers)
    requires
        m.is_ready(),
        m.streams.recv_headers(
            headers@.stream_id,
            headers@.is_trailers(),
            headers@.flags.has(END_STREAM),
        ).0 == Ok::<bool, ConnectionError>(false),
    ensures
        ({
            let (step, after) = m.recv_frame(Frame::Headers(headers));
            let reset = Reset {
                stream_id: headers@.stream_id,
                reason: Reason::RefusedStream,
            };
            &&& step == RecvStep::Continue
            &&& !after.is_ready()
            &&& after.next_control() == Some(Control::Refusal)
            &&& after.is_next(Frame::Reset(reset))
            &&& after.streams.streams == m.streams.streams
            &&& after.control_taken().is_ready()
        }),
{
}

/// The connection finishes when the transport has ended, and only then: it goes on after every
/// frame that is not an error, a GO_AWAY frame among them.
pub proof fn only_the_end_finishes(m: ConnectionModel, event: RecvEvent)
    ensures
        m.recv(event).0 == RecvStep::Return(Ok(Async::Ready(()))) <==> event
            == RecvEvent::Frame(None),
        event matches RecvEvent::Frame(Some(Frame::GoAway(_))) ==> m.recv(event) == (
            RecvStep::Continue,
            m,
        ),
{
}

/// Data beyond a window, be it that of the stream or that of the connection, ends the connection:
/// the remote is told that flow control was violated.
pub proof fn violations_of_flow_control_are_told(m: ConnectionModel, data: frame::Data)
    requires
        m.supports(Frame::Data(data)),
        !data@.stream_id.is_zero(),
        m.streams.recv_flow(data@.stream_id) is Some,
        m.state is Open,
        data@.payload.len() > m.streams.recv_flow(data@.stream_id)->0.window_size
            || data@.payload.len() > m.streams.recv_flow_control.window_size,
    ensures
        ({
            let err = ConnectionError::Proto(Reason::FlowControlError);
            let (step, after) = m.recv_frame(Frame::Data(data));
            &&& step == RecvStep::Return(Err(err))
            &&& after == m
            &&& m.failed(err).1.state == State::GoAway(
                GoAway {
                    last_stream_id: m.streams.last_processed_id,
                    reason: Reason::FlowControlError,
                },
            )
        }),
{
}

} // verus!
