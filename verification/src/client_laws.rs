//! What a client is set up with, and what becomes of its requests.

use crate::client::{
    handshake, Bound, Builder, Connection, Duration, Handshake, Peer, ResponseFuture, SendRequest,
    SentStream, StreamKey,
};
use crate::error::{ConnectionError, RecvError, User};
use crate::frame::{Frame, Headers, Settings, StreamId};
use crate::header::header_fields;
use crate::message::{Request, Response, Version};
use crate::proto::connection::ConnectionModel;
use crate::proto::connection_laws::{carries, starts_open};
use crate::proto::{Async, Streams};
use vstd::prelude::*;

verus! {

/// The pseudo headers that a request is sent with, whether its URI has a scheme or not, are its
/// method and the parts of its URI as they are. Only what the URI has not is made up: a path, and
/// for a relative URI a scheme.
pub proof fn requests_keep_their_uri(request: Request)
    ensures
        ({
            let pseudo = Peer::request_pseudo(request);
            let uri = request.uri@;
            &&& pseudo.method == Some(request.method@)
            &&& uri.path_and_query matches Some(path) ==> pseudo.path == Some(path)
            &&& uri.path_and_query is None ==> pseudo.path == Some("/"@)
            &&& pseudo.authority == uri.authority
            &&& uri.scheme matches Some(scheme) ==> pseudo.scheme == Some(scheme)
            &&& uri.scheme is None && uri.authority is Some ==> pseudo.scheme is None
            &&& uri.scheme is None && uri.authority is None ==> pseudo.scheme == Some("http"@)
            &&& pseudo.status is None
        }),
{
}

/// The frame that a request is sent with is on the given stream and carries the request. The only
/// requests without one are HTTP/2 requests for a relative URI.
pub proof fn requests_are_carried(
    id: StreamId,
    request: Request,
    end_of_stream: bool,
    r: Result<Headers, User>,
)
    requires
        call_ensures(Peer::convert_send_message, (id, request, end_of_stream), r),
    ensures
        r is Err <==> request.uri@.scheme is None && request.uri@.authority is None
            && request.version == Version::Http2,
        r matches Err(err) ==> err == User::MissingUriSchemeAndAuthority,
        r matches Ok(frame) ==> frame@.stream_id == id && carries(frame, request, end_of_stream),
{
    assert(4u8 | 1 == 5) by (bit_vector);
}

/// A response has the status and the fields of its headers; the status is 200 where they give none.
pub proof fn responses_are_read(headers: Headers, r: Result<Response<()>, RecvError>)
    requires
        call_ensures(Peer::convert_poll_message, (headers,), r),
    ensures
        r is Ok,
        headers@.pseudo.status matches Some(status) ==> r->Ok_0.status == status,
        headers@.pseudo.status is None ==> r->Ok_0.status.code() == 200,
        r->Ok_0.version == Version::Http2,
        header_fields(r->Ok_0.headers) == headers@.fields,
{
}

/// A response has its body on the stream of its request, and what else it has is its head.
pub proof fn responses_have_their_body(
    future: ResponseFuture,
    polled: Result<Async<Response<()>>, ConnectionError>,
    r: Result<Async<Response<StreamKey>>, ConnectionError>,
)
    requires
        call_ensures(ResponseFuture::poll, (&future, polled), r),
    ensures
        polled is Err <==> r is Err,
        polled matches Err(err) ==> r->Err_0 == err,
        polled is Ok ==> (polled->Ok_0 is Ready <==> r->Ok_0 is Ready),
        polled is Ok && polled->Ok_0 is Ready ==> {
            let head = polled->Ok_0->Ready_0;
            let response = r->Ok_0->Ready_0;
            &&& response.status == head.status && response.version == head.version
            &&& response.headers == head.headers && response.body == future.stream
        },
{
}

/// A builder starts with nothing set: locally reset streams are kept for thirty seconds and ten at
/// a time, and the first stream is 1.
pub proof fn builders_start_plain(r: Builder)
    requires
        call_ensures(Builder::new, (), r),
    ensures
        r.reset_stream_duration == (Duration { secs: 30, nanos: 0 }),
        r.reset_stream_max == 10,
        r.stream_id == StreamId(1),
        !r.settings.ack,
        r.settings.header_table_size is None && r.settings.enable_push is None
            && r.settings.max_concurrent_streams is None && r.settings.initial_window_size is None
            && r.settings.max_frame_size is None && r.settings.max_header_list_size is None,
{
}

/// What is set on a builder is what it has, and everything else on it stays. It can be set again
/// and again: what is set later is set on the same builder.
pub proof fn builders_keep_settings(
    a: &mut Builder,
    window: u32,
    ra: &mut Builder,
    b: &mut Builder,
    frame: u32,
    rb: &mut Builder,
    c: &mut Builder,
    streams: u32,
    rc: &mut Builder,
    d: &mut Builder,
    push: bool,
    rd: &mut Builder,
)
    requires
        call_ensures(Builder::initial_window_size, (a, window), ra),
        call_ensures(Builder::max_frame_size, (b, frame), rb),
        call_ensures(Builder::max_concurrent_streams, (c, streams), rc),
        call_ensures(Builder::enable_push, (d, push), rd),
    ensures
        *old(ra) == (Builder {
            settings: Settings { initial_window_size: Some(window), ..old(a).settings },
            ..*old(a)
        }) && *final(a) == *final(ra),
        *old(rb) == (Builder {
            settings: Settings { max_frame_size: Some(frame), ..old(b).settings },
            ..*old(b)
        }) && *final(b) == *final(rb),
        *old(rc) == (Builder {
            settings: Settings { max_concurrent_streams: Some(streams), ..old(c).settings },
            ..*old(c)
        }) && *final(c) == *final(rc),
        old(rd).settings.enable_push == Some(
            if push {
                1u32
            } else {
                0
            },
        ),
        *old(rd) == (Builder {
            settings: Settings {
                enable_push: old(rd).settings.enable_push,
                ..old(d).settings
            },
            ..*old(d)
        }) && *final(d) == *final(rd),
{
}

/// The same of what is not a setting.
pub proof fn builders_keep_limits(
    a: &mut Builder,
    max: usize,
    ra: &mut Builder,
    b: &mut Builder,
    dur: Duration,
    rb: &mut Builder,
    c: &mut Builder,
    id: u32,
    rc: &mut Builder,
)
    requires
        call_ensures(Builder::max_concurrent_reset_streams, (a, max), ra),
        call_ensures(Builder::reset_stream_duration, (b, dur), rb),
        call_ensures(Builder::initial_stream_id, (c, id), rc),
    ensures
        *old(ra) == (Builder { reset_stream_max: max, ..*old(a) }) && *final(a) == *final(ra),
        *old(rb) == (Builder { reset_stream_duration: dur, ..*old(b) }) && *final(b) == *final(rb),
        *old(rc) == (Builder { stream_id: StreamId(id), ..*old(c) }) && *final(c) == *final(rc),
{
}

/// A handshake is made with the builder that it was asked of, or with a plain one.
pub proof fn handshakes_have_a_builder(
    builder: Builder,
    r: Handshake,
    plain: Handshake,
    fresh: Builder,
)
    requires
        call_ensures(Builder::handshake, (&builder,), r),
        call_ensures(handshake, (), plain),
        call_ensures(Builder::new, (), fresh),
    ensures
        r.builder == builder,
        plain.builder == fresh,
{
}

/// The connection is bound when the preface is written. It then has everything that the builder was
/// given: the settings are the first frame to send, the largest frame to receive is theirs, the
/// streams are set up by them, and the first request goes on the first stream of the builder.
pub proof fn handshakes_bind(handshake: Handshake, written: Async<()>, r: Async<Bound>)
    requires
        call_ensures(Handshake::poll, (&handshake, written), r),
    ensures
        written is Ready <==> r is Ready,
        r is Ready ==> {
            let bound = r->Ready_0;
            let builder = handshake.builder;
            &&& bound.initial == Frame::Settings(builder.settings)
            &&& builder.settings.max_frame_size is None ==> bound.max_recv_frame_size is None
            &&& builder.settings.max_frame_size matches Some(max) ==> bound.max_recv_frame_size
                == Some(max as usize)
            &&& bound.config.next_stream_id == builder.stream_id
            &&& bound.config.reset_stream_duration == builder.reset_stream_duration
            &&& bound.config.reset_stream_max == builder.reset_stream_max
            &&& bound.config.settings == builder.settings
            &&& bound.send_request.pending is None
            &&& bound.connection.protocol().wf()
            &&& starts_open(
                false,
                builder.settings,
                builder.stream_id.0,
                bound.connection.protocol()@,
            )
        },
{
    crate::proto::stream_laws::new_streams_start(
        false,
        crate::proto::connection_laws::configured(handshake.builder.settings),
        65_535,
        65_535,
    );
}

/// A sender is ready when a stream can be opened, and then waits for none. A clone waits for none
/// either.
pub proof fn senders_are_ready(
    sender: &mut SendRequest,
    opened: Result<Async<()>, ConnectionError>,
    r: Result<Async<()>, ConnectionError>,
    on: &mut SendRequest,
    connection: &Connection,
    ready: Async<()>,
)
    requires
        call_ensures(SendRequest::poll_ready, (sender, opened), r),
        call_ensures(SendRequest::poll_ready_on, (on, connection), ready),
    ensures
        r == opened,
        r is Ok && r->Ok_0 is Ready ==> final(sender).pending is None,
        !(r is Ok && r->Ok_0 is Ready) ==> final(sender).pending == old(sender).pending,
        ({
            let m = connection.protocol()@.streams;
            ready is NotReady <==> (m.max_local_initiated matches Some(max)
                && m.num_local_initiated >= max)
        }),
        ready is Ready ==> final(on).pending is None,
        ready is NotReady ==> final(on).pending == old(on).pending,
{
}

/// A sender hands out the stream that a request was sent on, and waits for it only if it waits to
/// be opened; where none was sent it stays as it is.
pub proof fn senders_send(
    sender: &mut SendRequest,
    sent: Result<SentStream, ConnectionError>,
    r: Result<(ResponseFuture, StreamKey), ConnectionError>,
)
    requires
        call_ensures(SendRequest::send_request, (sender, sent), r),
    ensures
        sent is Ok <==> r is Ok,
        sent matches Err(err) ==> r->Err_0 == err && final(sender).pending == old(sender).pending,
        sent matches Ok(stream) ==> {
            &&& r->Ok_0.0.stream == stream.key && r->Ok_0.1 == stream.key
            &&& stream.is_pending_open ==> final(sender).pending == Some(stream.key)
            &&& !stream.is_pending_open ==> final(sender).pending == old(sender).pending
        },
{
}

/// A request that is sent on a connection goes on its next stream, and the frame carries it. One
/// that is not sent leaves the connection as it is.
pub proof fn senders_send_on_the_next_stream(
    sender: &mut SendRequest,
    connection: &mut Connection,
    request: Request,
    end_of_stream: bool,
    r: Result<(ResponseFuture, StreamKey, Headers), ConnectionError>,
)
    requires
        call_ensures(
            SendRequest::send_request_on,
            (sender, connection, request, end_of_stream),
            r,
        ),
    ensures
        ({
            let m = old(connection).protocol()@;
            let after = final(connection).protocol()@;
            let id = m.next_stream_id;
            &&& final(sender).pending == old(sender).pending
            &&& r matches Ok(sent) ==> {
                &&& sent.0.stream == StreamKey(id.0) && sent.1 == StreamKey(id.0)
                &&& sent.2@.stream_id == id && carries(sent.2, request, end_of_stream)
                &&& after.next_stream_id.0 == id.0 + 2
                &&& after.streams.streams.contains_key(id.0)
                &&& id.0 < 0x8000_0000
            }
            &&& r is Err ==> after == m
        }),
{
    assert(4u8 | 1 == 5) by (bit_vector);
}

/// The target window of a connection is that of its streams, and nothing else of it changes.
pub proof fn target_windows_are_set(connection: &mut Connection, size: u32)
    requires
        call_ensures(Connection::set_target_window_size, (connection, size), ()),
        old(connection).protocol()@.streams.wf(),
    ensures
        ({
            let m = old(connection).protocol()@;
            let after = final(connection).protocol()@;
            let flow = after.streams.recv_flow_control;
            let now = m.streams.recv_flow_control.window_size + m.streams.in_flight_data;
            &&& flow.window_size == m.streams.recv_flow_control.window_size
            &&& size >= now ==> now + flow.next_window_update == size
            &&& size < now ==> flow.next_window_update == 0
            &&& after == (ConnectionModel { streams: after.streams, ..m })
            &&& after.streams.streams == m.streams.streams
        }),
{
}

/// Senders count the streams of a connection: those on which something can still be sent, and those
/// that are held.
pub proof fn senders_count_streams(
    sender: SendRequest,
    streams: Streams,
    active: usize,
    wired: usize,
)
    requires
        call_ensures(SendRequest::num_active_streams, (&sender, &streams), active),
        call_ensures(SendRequest::num_wired_streams, (&sender, &streams), wired),
    ensures
        active == streams@.streams.dom().filter(
            |id: u32| !(streams@.streams[id] is Closed),
        ).len(),
        wired == streams@.streams.dom().len(),
{
}

} // verus!
