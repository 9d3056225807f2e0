//! The client side of a connection.

use crate::error::{ConnectionError, RecvError, User};
use crate::frame::headers::{is_request, HeadersModel, PseudoModel, END_HEADERS, END_STREAM};
use crate::frame::{Frame, Headers, HeadersFlag, Pseudo, Settings, StreamId};
use crate::header::{header_fields, StatusCode};
use crate::message::{Request, Response, Version};
use crate::proto::connection::ConnectionModel;
use crate::proto::{self, Async, Streams, MAX_WINDOW_SIZE};
use vstd::prelude::*;

verus! {

/// How long locally reset streams are kept around unless the builder says otherwise, in seconds.
pub const DEFAULT_RESET_STREAM_SECS: u64 = 30;

/// How many locally reset streams are kept at a time unless the builder says otherwise.
pub const DEFAULT_RESET_STREAM_MAX: usize = 10;

/// The largest ID that a stream can have.
pub const MAX_STREAM_ID: u32 = 0x7fff_ffff;

/// A span of time.
#[derive(Clone, Copy, Debug, PartialEq, Eq, Structural)]
pub struct Duration {
    pub secs: u64,
    pub nanos: u32,
}

/// In progress H2 connection binding
#[derive(Clone, Copy, Debug, PartialEq, Eq, Structural)]
pub struct Handshake {
    pub builder: Builder,
}

/// The number by which a stream is found again.
#[derive(Clone, Copy, Debug, PartialEq, Eq, Structural)]
pub struct StreamKey(pub u32);

/// A stream on which a request was sent.
#[derive(Clone, Copy, Debug, PartialEq, Eq, Structural)]
pub struct SentStream {
    pub key: StreamKey,
    /// True if the stream waits until it can be opened.
    pub is_pending_open: bool,
}

/// Sends requests on new streams of a connection.
#[derive(Debug, PartialEq, Eq, Structural)]
pub struct SendRequest {
    /// The stream that has to be opened before another one can be.
    pub pending: Option<StreamKey>,
}

/// The H2 protocol on a connection.
#[derive(Debug)]
pub struct Connection {
    inner: proto::Connection,
}

/// A response that is on its way.
#[derive(Clone, Copy, Debug, PartialEq, Eq, Structural)]
pub struct ResponseFuture {
    /// The stream on which the response comes.
    pub stream: StreamKey,
}

/// Build a client.
#[derive(Clone, Copy, Debug, PartialEq, Eq, Structural)]
pub struct Builder {
    /// Time to keep locally reset streams around before reaping.
    pub reset_stream_duration: Duration,
    /// Maximum number of locally reset streams to keep at a time.
    pub reset_stream_max: usize,
    /// Initial `Settings` frame to send as part of the handshake.
    pub settings: Settings,
    /// The stream ID of the first (lowest) stream. Subsequent streams will use
    /// monotonically increasing stream IDs.
    pub stream_id: StreamId,
}

/// How a connection is set up once it is bound.
#[derive(Clone, Copy, Debug, PartialEq, Eq, Structural)]
pub struct Config {
    /// Initial ID of the next stream.
    pub next_stream_id: StreamId,
    pub reset_stream_duration: Duration,
    pub reset_stream_max: usize,
    pub settings: Settings,
}

/// A connection that is bound.
#[derive(Debug)]
pub struct Bound {
    /// The largest frame that may be received, if the settings say so.
    pub max_recv_frame_size: Option<usize>,
    /// The first frame to send.
    pub initial: Frame,
    pub config: Config,
    pub send_request: SendRequest,
    pub connection: Connection,
}

/// Marker type indicating a client peer
#[derive(Clone, Copy, Debug, PartialEq, Eq, Structural)]
pub struct Peer;

// ===== impl SendRequest =====

impl SendRequest {
    /// Returns `Ready` when the connection can initialize a new HTTP 2.0
    /// stream: when the pending one is opened, which is what it is told.
    pub fn poll_ready(&mut self, opened: Result<Async<()>, ConnectionError>) -> (r: Result<
        Async<()>,
        ConnectionError,
    >)
        ensures
            r == opened,
            final(self).pending == if opened is Ok && opened->Ok_0 is Ready {
                None
            } else {
                old(self).pending
            },
    {
        if let Ok(Async::Ready(_)) = &opened {
            self.pending = None;
        }
        opened
    }

    /// Returns `Ready` when the connection can initialize a new HTTP 2.0 stream: not as long as
    /// the number of active streams has reached what the remote permits.
    pub fn poll_ready_on(&mut self, connection: &Connection) -> (r: Async<()>)
        ensures
            r == if connection.protocol()@.streams.local_full() {
                Async::NotReady
            } else {
                Async::Ready(())
            },
            final(self).pending == if r is Ready {
                None
            } else {
                old(self).pending
            },
    {
        match connection.inner.poll_send_request_ready() {
            Async::Ready(()) => {
                self.pending = None;
                Async::Ready(())
            },
            Async::NotReady => Async::NotReady,
        }
    }

    /// Sends a request on a new HTTP 2.0 stream of the connection: the HEADERS frame is to be
    /// handed to the transport.
    pub fn send_request_on(
        &mut self,
        connection: &mut Connection,
        request: Request,
        end_of_stream: bool,
    ) -> (r: Result<(ResponseFuture, StreamKey, Headers), ConnectionError>)
        requires
            old(connection).protocol().wf(),
        ensures
            final(connection).protocol().wf(),
            *final(self) == *old(self),
            ({
                let (sent, after) = old(connection).protocol()@.send_request(
                    request,
                    end_of_stream,
                );
                &&& final(connection).protocol()@ == after
                &&& match sent {
                    Ok(id) => {
                        &&& r is Ok
                        &&& r->Ok_0.0 == ResponseFuture { stream: StreamKey(id.0) }
                        &&& r->Ok_0.1 == StreamKey(id.0)
                        &&& r->Ok_0.2@ == Peer::request_frame(id, request, end_of_stream)
                    },
                    Err(err) => r == Err::<
                        (ResponseFuture, StreamKey, Headers),
                        ConnectionError,
                    >(err),
                }
            }),
    {
        match connection.inner.send_request(request, end_of_stream) {
            Ok((stream, headers)) => match self.send_request(Ok(stream)) {
                Ok((response, key)) => Ok((response, key, headers)),
                Err(err) => Err(err),
            },
            Err(err) => Err(err),
        }
    }

    /// A request was sent on a new HTTP 2.0 stream, or could not be. No other can be sent as long
    /// as the stream waits to be opened.
    pub fn send_request(&mut self, sent: Result<SentStream, ConnectionError>) -> (r: Result<
        (ResponseFuture, StreamKey),
        ConnectionError,
    >)
        ensures
            match sent {
                Ok(stream) => {
                    &&& r == Ok::<(ResponseFuture, StreamKey), ConnectionError>(
                        (ResponseFuture { stream: stream.key }, stream.key),
                    )
                    &&& final(self).pending == if stream.is_pending_open {
                        Some(stream.key)
                    } else {
                        old(self).pending
                    }
                },
                Err(err) => {
                    &&& r == Err::<(ResponseFuture, StreamKey), ConnectionError>(err)
                    &&& *final(self) == *old(self)
                },
            },
    {
        match sent {
            Ok(stream) => {
                if stream.is_pending_open {
                    self.pending = Some(stream.key);
                }
                let response = ResponseFuture { stream: stream.key };
                Ok((response, stream.key))
            },
            Err(err) => Err(err),
        }
    }

    /// Returns the number of active streams.
    ///
    /// An active stream is a stream that has not yet transitioned to a closed
    /// state.
    pub fn num_active_streams(&self, streams: &Streams) -> (r: usize)
        requires
            streams@.wf(),
        ensures
            r == streams@.streams.dom().filter(|id: u32| !(streams@.streams[id] is Closed)).len(),
    {
        streams.num_active_streams()
    }

    /// Returns the number of streams that are held in memory.
    ///
    /// A wired stream is a stream that is either active or is closed but must
    /// stay in memory for some reason. For example, there are still outstanding
    /// userspace handles pointing to the slot.
    pub fn num_wired_streams(&self, streams: &Streams) -> (r: usize)
        ensures
            r == streams@.streams.dom().len(),
    {
        streams.num_wired_streams()
    }
}

impl Clone for SendRequest {
    /// Another sender on the same connection, which waits for no stream.
    fn clone(&self) -> (r: Self)
        ensures
            r.pending is None,
    {
        SendRequest { pending: None }
    }
}

// ===== impl Builder =====

impl Builder {
    /// Creates a `Connection` Builder to customize a `Connection` before binding.
    pub fn new() -> (r: Builder)
        ensures
            r == (Builder {
                reset_stream_duration: Duration { secs: DEFAULT_RESET_STREAM_SECS, nanos: 0 },
                reset_stream_max: DEFAULT_RESET_STREAM_MAX,
                settings: Settings::none(),
                stream_id: StreamId(1),
            }),
    {
        Builder {
            reset_stream_duration: Duration { secs: DEFAULT_RESET_STREAM_SECS, nanos: 0 },
            reset_stream_max: DEFAULT_RESET_STREAM_MAX,
            settings: Settings::default(),
            stream_id: StreamId(1),
        }
    }

    /// Set the initial window size of the remote peer.
    pub fn initial_window_size(&mut self, size: u32) -> (r: &mut Self)
        ensures
            *r == (Builder {
                settings: Settings { initial_window_size: Some(size), ..old(self).settings },
                ..*old(self)
            }),
            *final(self) == *final(r),
    {
        self.settings.set_initial_window_size(Some(size));
        self
    }

    /// Set the max frame size of received frames.
    pub fn max_frame_size(&mut self, max: u32) -> (r: &mut Self)
        ensures
            *r == (Builder {
                settings: Settings { max_frame_size: Some(max), ..old(self).settings },
                ..*old(self)
            }),
            *final(self) == *final(r),
    {
        self.settings.set_max_frame_size(Some(max));
        self
    }

    /// Set the maximum number of concurrent streams.
    ///
    /// Clients can only limit the maximum number of streams that that the
    /// server can initiate.
    pub fn max_concurrent_streams(&mut self, max: u32) -> (r: &mut Self)
        ensures
            *r == (Builder {
                settings: Settings { max_concurrent_streams: Some(max), ..old(self).settings },
                ..*old(self)
            }),
            *final(self) == *final(r),
    {
        self.settings.set_max_concurrent_streams(Some(max));
        self
    }

    /// Set the maximum number of concurrent locally reset streams.
    ///
    /// Locally reset streams are to "ignore frames from the peer for some
    /// time". While waiting for that time, locally reset streams "waste"
    /// space in order to be able to ignore those frames. This setting
    /// can limit how many extra streams are left waiting for "some time".
    pub fn max_concurrent_reset_streams(&mut self, max: usize) -> (r: &mut Self)
        ensures
            *r == (Builder { reset_stream_max: max, ..*old(self) }),
            *final(self) == *final(r),
    {
        self.reset_stream_max = max;
        self
    }

    /// Set the time for which locally reset streams are kept.
    ///
    /// Locally reset streams are to "ignore frames from the peer for some
    /// time", but that time is unspecified. Set that time with this setting.
    pub fn reset_stream_duration(&mut self, dur: Duration) -> (r: &mut Self)
        ensures
            *r == (Builder { reset_stream_duration: dur, ..*old(self) }),
            *final(self) == *final(r),
    {
        self.reset_stream_duration = dur;
        self
    }

    /// Enable or disable the server to send push promises.
    pub fn enable_push(&mut self, enabled: bool) -> (r: &mut Self)
        ensures
            *r == (Builder {
                settings: Settings {
                    enable_push: Some(
                        if enabled {
                            1
                        } else {
                            0
                        },
                    ),
                    ..old(self).settings
                },
                ..*old(self)
            }),
            *final(self) == *final(r),
    {
        self.settings.set_enable_push(enabled);
        self
    }

    /// Set the first stream ID to something other than 1. It must be odd.
    pub fn initial_stream_id(&mut self, stream_id: u32) -> (r: &mut Self)
        requires
            StreamId(stream_id).is_client_initiated(),
        ensures
            *r == (Builder { stream_id: StreamId(stream_id), ..*old(self) }),
            *final(self) == *final(r),
    {
        self.stream_id = StreamId(stream_id);
        self
    }

    /// Bind an H2 client connection.
    ///
    /// The handshake is done once the preface is written to the transport. It does not **flush**
    /// the outbound settings to the wire.
    pub fn handshake(&self) -> (r: Handshake)
        ensures
            r == (Handshake { builder: *self }),
    {
        Connection::handshake2(*self)
    }
}

impl Default for Builder {
    fn default() -> (r: Builder)
        ensures
            r == (Builder {
                reset_stream_duration: Duration { secs: DEFAULT_RESET_STREAM_SECS, nanos: 0 },
                reset_stream_max: DEFAULT_RESET_STREAM_MAX,
                settings: Settings::none(),
                stream_id: StreamId(1),
            }),
    {
        Builder::new()
    }
}

/// Bind an H2 client connection.
///
/// The handshake is done once the preface is written to the transport. It does not **flush** the
/// outbound settings to the wire.
pub fn handshake() -> (r: Handshake)
    ensures
        r.builder == (Builder {
            reset_stream_duration: Duration { secs: DEFAULT_RESET_STREAM_SECS, nanos: 0 },
            reset_stream_max: DEFAULT_RESET_STREAM_MAX,
            settings: Settings::none(),
            stream_id: StreamId(1),
        }),
{
    Builder::new().handshake()
}

// ===== impl Connection =====

impl Connection {
    /// The protocol state of the connection.
    pub closed spec fn protocol(self) -> proto::Connection {
        self.inner
    }

    fn handshake2(builder: Builder) -> (r: Handshake)
        ensures
            r == (Handshake { builder }),
    {
        Handshake { builder }
    }

    /// Sets the target window size for the whole connection: what the remote side may send in all
    /// before any of it is released. It is told of an expansion by a window update.
    ///
    /// Default in HTTP2 is 65_535.
    pub fn set_target_window_size(&mut self, size: u32)
        requires
            old(self).protocol().wf(),
            size <= MAX_WINDOW_SIZE,
        ensures
            final(self).protocol().wf(),
            final(self).protocol()@ == (ConnectionModel {
                streams: old(self).protocol()@.streams.set_target_window_size(size),
                ..old(self).protocol()@
            }),
    {
        self.inner.streams().set_target_window_size(size);
    }

    /// The protocol state of the connection.
    pub fn protocol_mut(&mut self) -> (r: &mut proto::Connection)
        ensures
            *r == old(self).protocol(),
            final(self).protocol() == *final(r),
    {
        &mut self.inner
    }
}

// ===== impl Handshake =====

/// The bytes with which a client opens a connection: `PRI * HTTP/2.0`, an empty line, `SM`, and an
/// empty line.
pub open spec fn preface_bytes() -> Seq<u8> {
    seq![
        0x50u8, 0x52, 0x49, 0x20, 0x2a, 0x20, 0x48, 0x54, 0x54, 0x50, 0x2f, 0x32, 0x2e, 0x30, 0x0d,
        0x0a, 0x0d, 0x0a, 0x53, 0x4d, 0x0d, 0x0a, 0x0d, 0x0a,
    ]
}

impl Handshake {
    /// The bytes to write to the transport.
    pub fn preface(&self) -> (r: [u8; 24])
        ensures
            r@ == preface_bytes(),
    {
        let r: [u8; 24] = [
            0x50, 0x52, 0x49, 0x20, 0x2a, 0x20, 0x48, 0x54, 0x54, 0x50, 0x2f, 0x32, 0x2e, 0x30,
            0x0d, 0x0a, 0x0d, 0x0a, 0x53, 0x4d, 0x0d, 0x0a, 0x0d, 0x0a,
        ];
        assert(r@ =~= preface_bytes());
        r
    }

    /// The connection, once the preface is written. Its streams are set up by the settings that the
    /// remote side is told of first, and its requests are sent on streams from the first ID on.
    pub fn poll(&self, written: Async<()>) -> (r: Async<Bound>)
        ensures
            match written {
                Async::NotReady => r is NotReady,
                Async::Ready(()) => {
                    &&& r is Ready
                    &&& match self.builder.settings.max_frame_size {
                        Some(max) => r->Ready_0.max_recv_frame_size == Some(max as usize),
                        None => r->Ready_0.max_recv_frame_size is None,
                    }
                    &&& r->Ready_0.initial == Frame::Settings(self.builder.settings)
                    &&& r->Ready_0.config == Config {
                        next_stream_id: self.builder.stream_id,
                        reset_stream_duration: self.builder.reset_stream_duration,
                        reset_stream_max: self.builder.reset_stream_max,
                        settings: self.builder.settings,
                    }
                    &&& r->Ready_0.send_request.pending is None
                    &&& r->Ready_0.connection.protocol().wf()
                    &&& r->Ready_0.connection.protocol()@.is_ready()
                    &&& r->Ready_0.connection.protocol()@ == ConnectionModel::initial(
                        false,
                        self.builder.settings,
                        self.builder.stream_id,
                    )
                },
            },
    {
        match written {
            Async::NotReady => Async::NotReady,
            Async::Ready(()) => {
                let max_recv_frame_size = match self.builder.settings.max_frame_size() {
                    Some(max) => Some(max as usize),
                    None => None,
                };
                // Send initial settings frame
                let initial = Frame::from(self.builder.settings);
                let config = Config {
                    next_stream_id: self.builder.stream_id,
                    reset_stream_duration: self.builder.reset_stream_duration,
                    reset_stream_max: self.builder.reset_stream_max,
                    settings: self.builder.settings,
                };
                let send_request = SendRequest { pending: None };
                let connection = Connection {
                    inner: proto::Connection::with_stream_id::<Peer>(
                        config.settings,
                        config.next_stream_id,
                    ),
                };
                Async::Ready(
                    Bound { max_recv_frame_size, initial, config, send_request, connection },
                )
            },
        }
    }
}

// ===== impl ResponseFuture =====

impl ResponseFuture {
    /// The head of the response was polled for. Its body is read from the stream.
    pub fn poll(&self, polled: Result<Async<Response<()>>, ConnectionError>) -> (r: Result<
        Async<Response<StreamKey>>,
        ConnectionError,
    >)
        ensures
            r == match polled {
                Ok(Async::Ready(head)) => Ok(
                    Async::Ready(
                        Response {
                            status: head.status,
                            version: head.version,
                            headers: head.headers,
                            body: self.stream,
                        },
                    ),
                ),
                Ok(Async::NotReady) => Ok(Async::NotReady),
                Err(err) => Err(err),
            },
    {
        match polled {
            Ok(Async::Ready(head)) => {
                let Response { status, version, headers, body: _ } = head;
                Ok(Async::Ready(Response { status, version, headers, body: self.stream }))
            },
            Ok(Async::NotReady) => Ok(Async::NotReady),
            Err(err) => Err(err),
        }
    }
}

// ===== impl Peer =====

impl Peer {
    /// The pseudo headers that a request is sent with: those of its method and its URI, and the
    /// scheme `http` if the URI has neither a scheme nor an authority.
    pub open spec fn request_pseudo(request: Request) -> PseudoModel {
        let pseudo = PseudoModel::request(request.method@, request.uri@);
        if request.uri@.scheme is None && request.uri@.authority is None {
            PseudoModel { scheme: Some("http"@), ..pseudo }
        } else {
            pseudo
        }
    }

    /// The HEADERS frame that a request is sent with.
    pub open spec fn request_frame(
        id: StreamId,
        request: Request,
        end_of_stream: bool,
    ) -> HeadersModel {
        HeadersModel {
            stream_id: id,
            stream_dep: None,
            fields: header_fields(request.headers),
            pseudo: Peer::request_pseudo(request),
            flags: if end_of_stream {
                HeadersFlag(END_HEADERS | END_STREAM)
            } else {
                HeadersFlag(END_HEADERS)
            },
        }
    }

    /// The HEADERS frame that a request is sent with. A relative URI is permitted only when
    /// forwarding HTTP 1.x requests.
    pub fn convert_send_message(id: StreamId, request: Request, end_of_stream: bool) -> (r: Result<
        Headers,
        User,
    >)
        ensures
            if request.uri@.scheme is None && request.uri@.authority is None && request.version
                == Version::Http2 {
                r == Err::<Headers, User>(User::MissingUriSchemeAndAuthority)
            } else {
                &&& r is Ok
                &&& r->Ok_0@ == Peer::request_frame(id, request, end_of_stream)
                &&& r->Ok_0@.flags.has(END_STREAM) == end_of_stream
            },
    {
        // Build the set pseudo header set. All requests will include `method`
        // and `path`.
        let version = request.version;
        let mut pseudo = Pseudo::request(request.method, request.uri);
        if pseudo.scheme.is_none() {
            // If the scheme is not set, then there are a two options.
            //
            // 1) Authority is not set. In this case, a request was issued with
            //    a relative URI. This is permitted **only** when forwarding
            //    HTTP 1.x requests. If the HTTP version is set to 2.0, then
            //    this is an error.
            //
            // 2) Authority is set, then the HTTP method *must* be CONNECT.
            //
            // It is not possible to have a scheme but not an authority set.
            //
            if pseudo.authority.is_none() {
                if version == Version::Http2 {
                    return Err(User::MissingUriSchemeAndAuthority);
                } else {
                    // This is acceptable as per the above comment. However,
                    // HTTP/2.0 requires that a scheme is set. Since we are
                    // forwarding an HTTP 1.1 request, the scheme is set to
                    // "http".
                    pseudo.set_scheme("http".to_owned());
                }
            }
        }
        // Create the HEADERS frame
        let mut frame = Headers::new(id, pseudo, request.headers);
        assert(0x4u8 & 0x1 != 0x1) by (bit_vector);
        if end_of_stream {
            frame.set_end_stream();
        }
        Ok(frame)
    }

    /// The response that a HEADERS frame starts: its status is 200 where the frame gives none.
    pub fn convert_poll_message(headers: Headers) -> (r: Result<Response<()>, RecvError>)
        ensures
            r is Ok,
            match headers@.pseudo.status {
                Some(status) => r->Ok_0.status == status,
                None => r->Ok_0.status.code() == 200,
            },
            r->Ok_0.version == Version::Http2,
            header_fields(r->Ok_0.headers) == headers@.fields,
    {
        let (pseudo, fields) = headers.into_parts();
        let status = match pseudo.status {
            Some(status) => status,
            None => StatusCode::ok(),
        };
        Ok(Response { status, version: Version::Http2, headers: fields, body: () })
    }
}

impl proto::Peer for Peer {
    open spec fn spec_is_server() -> bool {
        false
    }

    fn is_server() -> (r: bool) {
        false
    }

    fn dyn_peer() -> (r: proto::DynPeer) {
        proto::DynPeer::Client
    }
}

/// The headers that a request is sent with are no trailers: there is always a method, and a path.
/// The scheme is missing only where there is an authority.
pub proof fn requests_are_not_trailers(request: Request)
    ensures
        Peer::request_pseudo(request).method is Some,
        Peer::request_pseudo(request).path is Some,
        Peer::request_pseudo(request).scheme is None ==> request.uri@.authority is Some,
{
}

/// A request for an absolute URI that was parsed is read as it was sent: the frame that it is sent
/// with has valid parts that go together, and is made a request with the same method, the same URI
/// and the same fields.
pub proof fn requests_are_read_back(sent: Request, frame: HeadersModel, read: Request)
    requires
        sent.uri@.is_parsed(),
        sent.uri@.scheme is Some,
        frame.pseudo == Peer::request_pseudo(sent),
        frame.fields == header_fields(sent.headers),
        is_request(read, frame),
    ensures
        frame.pseudo.uri().valid_parts(),
        frame.pseudo.uri().consistent(),
        read.method@ == sent.method@,
        read.uri@ == sent.uri@,
        header_fields(read.headers) == header_fields(sent.headers),
{
    assert(frame.pseudo.uri() == sent.uri@);
}

} // verus!
