use bytes::Bytes;
use h2::client::{self, Bound, Builder, Peer as ClientPeer};
use h2::error::{ConnectionError, IoKind, Reason, User};
use h2::frame::{Data, Frame, GoAway, Headers, Pseudo, Settings, StreamId, WindowUpdate};
use h2::header::{Method, StatusCode};
use h2::hpack::Encode;
use h2::message::{Request, Version};
use h2::proto::connection::{
    CompleteEvent, CompleteStep, Connection, Control, PollStep, ReadyEvent, ReadyStep, RecvEvent,
    RecvStep,
};
use h2::proto::framed_write::{FlushStep, SendStep};
use h2::proto::state::{FlowControl, Peer, Stream};
use h2::proto::streams::{Config, Streams};
use h2::proto::{Async, AsyncSink, FramedWrite, DEFAULT_INITIAL_WINDOW_SIZE, MAX_WINDOW_SIZE};
use h2::server;
use h2::uri::Uri;
use http::HeaderMap;

fn response(id: u32) -> Headers {
    response_with(id, 200)
}

fn response_with(id: u32, code: u16) -> Headers {
    let status = StatusCode::from_u16(code).unwrap();
    Headers::new(StreamId(id), Pseudo::response(status), HeaderMap::new())
}

fn request(method: &str, uri: &str) -> Request {
    Request {
        method: Method::from_bytes(method.as_bytes()).unwrap(),
        uri: Uri::parse(uri).unwrap(),
        version: Version::Http2,
        headers: HeaderMap::new(),
    }
}

fn trailers(id: u32) -> Headers {
    let mut frame = Headers::new(StreamId(id), Pseudo::default(), HeaderMap::new());
    frame.set_end_stream();
    frame
}

fn data(id: u32, len: usize) -> Data {
    Data::new(StreamId(id), Bytes::from(vec![0u8; len]))
}

fn data_eos(id: u32, len: usize) -> Data {
    let mut frame = data(id, len);
    frame.set_end_stream();
    frame
}

fn text(id: u32, payload: &'static str, eos: bool) -> Data {
    let mut frame = Data::new(StreamId(id), Bytes::from_static(payload.as_bytes()));
    if eos {
        frame.set_end_stream();
    }
    frame
}

fn config(remote: u32, local: u32) -> Config {
    Config {
        max_remote_initiated: None,
        init_remote_window_sz: remote,
        max_local_initiated: None,
        init_local_window_sz: local,
    }
}

fn bind(builder: &Builder) -> Bound {
    match builder.handshake().poll(Async::Ready(())) {
        Async::Ready(bound) => bound,
        Async::NotReady => panic!("not bound"),
    }
}

/// Sends a request, and says on which stream.
fn send(conn: &mut client::Connection, method: &str, uri: &str, eos: bool) -> u32 {
    let sent = conn.protocol_mut().send_request(request(method, uri), eos);
    let (stream, headers) = sent.unwrap();
    assert_eq!(headers.stream_id().0, stream.key.0);
    assert_eq!(headers.is_end_stream(), eos);
    stream.key.0
}

fn make_ready(conn: &mut Connection) {
    assert!(matches!(conn.poll_ready(ReadyEvent::Start), ReadyStep::Done(Async::Ready(()))));
}

/// Receives a frame, and says whether it was handed on or what went wrong.
fn recv(conn: &mut Connection, frame: impl Into<Frame>) -> Result<bool, ConnectionError> {
    let frame = frame.into();
    make_ready(conn);
    assert!(conn.can_recv(&frame));
    match conn.recv(RecvEvent::Frame(Some(frame))) {
        RecvStep::Deliver(_) => Ok(true),
        RecvStep::Continue | RecvStep::Notify => Ok(false),
        RecvStep::Return(Err(err)) => Err(err),
        step => panic!("unexpected step: {:?}", step),
    }
}

/// All window updates that are to be sent, which the transport takes.
fn sent_updates(conn: &mut Connection) -> Vec<(u32, u32)> {
    let mut sent = Vec::new();
    while let Some(frame) = conn.streams().send_pending_window_updates() {
        sent.push((frame.stream_id().0, frame.size_increment()));
        conn.streams().window_update_answered(frame, AsyncSink::Ready);
    }
    sent
}

fn error_text(err: ConnectionError) -> String {
    match err {
        ConnectionError::Proto(reason) => reason.error_text(),
        err => panic!("unexpected error: {:?}", err),
    }
}

/// Ends the connection with an error, and says what the remote was told and what is reported.
fn fail(conn: &mut Connection, err: ConnectionError) -> (GoAway, ConnectionError) {
    assert_eq!(conn.recv_failed(err), None);
    assert!(matches!(conn.poll(), PollStep::Complete));
    let told = match conn.poll_complete(CompleteEvent::Start) {
        CompleteStep::Send(Frame::GoAway(frame)) => frame,
        step => panic!("unexpected step: {:?}", step),
    };
    assert!(matches!(conn.poll_complete(CompleteEvent::Taken), CompleteStep::Flush));
    assert!(matches!(conn.poll(), PollStep::Complete));
    assert!(matches!(
        conn.poll_complete(CompleteEvent::Flushed),
        CompleteStep::Done(Async::Ready(()))
    ));
    match conn.poll() {
        PollStep::Fail(err) => (told, err),
        step => panic!("unexpected step: {:?}", step),
    }
}

/// Everything that the writer has, as the transport gets it.
fn written(write: &mut FramedWrite) -> Vec<u8> {
    let mut out = Vec::new();
    while write.poll_complete() == FlushStep::Write {
        out.extend_from_slice(write.pending());
        write.wrote(write.pending().len());
    }
    write.flushed();
    out
}

// In this case, the stream & connection both have capacity, but capacity is not
// explicitly requested.
#[test]
fn send_data_without_requesting_capacity() {
    let payload = [0; 1024];
    let mut write = FramedWrite::new();
    let mut bound = bind(&Builder::new());
    let uri = "https://http2.akamai.com/";
    let sent = bound.connection.protocol_mut().send_request(request("POST", uri), false);
    let (stream, headers) = sent.unwrap();
    assert_eq!(stream.key.0, 1);
    let mut block = match write.start_send(headers.into()) {
        SendStep::EncodeHeaders(block) => block,
        step => panic!("unexpected step: {:?}", step),
    };
    while block.headers.next().is_some() {}
    // POST /
    let compressed = [131, 135, 65, 139, 157, 41, 172, 75, 143, 168, 233, 25, 151, 33, 233, 132];
    write.finish_headers(block, Encode::Full, &compressed);
    assert_eq!(
        written(&mut write),
        [
            0, 0, 16, 1, 4, 0, 0, 0, 1, 131, 135, 65, 139, 157, 41, 172, 75, 143, 168, 233, 25, 151,
            33, 233, 132,
        ]
    );

    let conn = bound.connection.protocol_mut();
    // The capacity should be immediately allocated
    assert_eq!(conn.streams().capacity(StreamId(1)), 0);

    // Send the data
    let mut frame = Data::new(StreamId(1), Bytes::from(&payload[..]));
    frame.set_end_stream();
    assert_eq!(conn.streams().send_data(&frame), Ok(()));
    write.start_send(frame.into());
    let out = written(&mut write);
    assert_eq!(out[..9], [0, 4, 0, 0, 1, 0, 0, 0, 1]);
    assert_eq!(out[9..], payload[..]);

    // The settings of the remote are acknowledged
    assert_eq!(recv(conn, Settings::default()), Ok(false));
    match conn.poll_ready(ReadyEvent::Start) {
        ReadyStep::Send(Control::SettingsAck, frame) => {
            write.start_send(frame);
        }
        step => panic!("unexpected step: {:?}", step),
    }
    assert_eq!(written(&mut write), [0, 0, 0, 4, 1, 0, 0, 0, 0]);
    assert!(matches!(
        conn.poll_ready(ReadyEvent::Taken(Control::SettingsAck)),
        ReadyStep::Done(Async::Ready(()))
    ));

    // Get the response
    let mut headers = response_with(1, 204);
    headers.set_end_stream();
    match conn.recv(RecvEvent::Frame(Some(headers.into()))) {
        RecvStep::Deliver(Frame::Headers(headers)) => {
            let resp = ClientPeer::convert_poll_message(headers).unwrap();
            assert_eq!(resp.status.as_u16(), 204);
        }
        step => panic!("unexpected step: {:?}", step),
    }
    assert_eq!(conn.streams().num_active_streams(), 0);
    assert!(matches!(
        conn.recv(RecvEvent::Frame(None)),
        RecvStep::Return(Ok(Async::Ready(())))
    ));
}

#[test]
fn release_capacity_sends_window_update() {
    let mut bound = bind(&Builder::new());
    assert_eq!(send(&mut bound.connection, "GET", "https://http2.akamai.com/", true), 1);
    let conn = bound.connection.protocol_mut();
    assert_eq!(recv(conn, response(1)), Ok(true));
    // use up window size to below half
    assert_eq!(recv(conn, data(1, 16_384)), Ok(true));
    assert_eq!(recv(conn, data(1, 16_384)), Ok(true));
    assert_eq!(recv(conn, data(1, 16_384)), Ok(true));
    assert!(sent_updates(conn).is_empty());
    assert_eq!(conn.streams().release_capacity(StreamId(1), 16_384 * 2), Ok(true));
    assert_eq!(sent_updates(conn), [(0, 32_768), (1, 32_768)]);
    assert_eq!(recv(conn, data_eos(1, 16_384)), Ok(true));
    assert!(sent_updates(conn).is_empty());
}

#[test]
fn release_capacity_of_small_amount_does_not_send_window_update() {
    let mut bound = bind(&Builder::new());
    assert_eq!(send(&mut bound.connection, "GET", "https://http2.akamai.com/", true), 1);
    let conn = bound.connection.protocol_mut();
    assert_eq!(recv(conn, response(1)), Ok(true));
    assert_eq!(recv(conn, data_eos(1, 16)), Ok(true));
    // read the small body and then release it
    assert_eq!(conn.streams().release_capacity(StreamId(1), 16), Ok(false));
    assert!(sent_updates(conn).is_empty());
    // nothing more comes
    assert_eq!(conn.streams().poll_recv_end(StreamId(1)), Ok(Async::Ready(())));
}

#[test]
fn recv_data_overflows_connection_window() {
    let mut bound = bind(&Builder::new());
    assert_eq!(send(&mut bound.connection, "GET", "https://http2.akamai.com/", true), 1);
    let conn = bound.connection.protocol_mut();
    assert_eq!(recv(conn, response(1)), Ok(true));
    // fill the whole window
    assert_eq!(recv(conn, data(1, 16_384)), Ok(true));
    assert_eq!(recv(conn, data(1, 16_384)), Ok(true));
    assert_eq!(recv(conn, data(1, 16_384)), Ok(true));
    assert_eq!(recv(conn, data(1, 16_383)), Ok(true));
    // this frame overflows the window!
    let err = recv(conn, data_eos(1, 128)).unwrap_err();
    // expecting goaway for the conn, not stream
    let (told, err) = fail(conn, err);
    assert_eq!(told, GoAway::new(StreamId(0), Reason::FlowControlError));
    // client should see a flow control error
    assert_eq!(error_text(err), "protocol error: flow-control protocol violated");
    // and so should the reader of the body
    let err = conn.streams().poll_recv_end(StreamId(1)).unwrap_err();
    assert_eq!(error_text(err), "protocol error: flow-control protocol violated");
}

#[test]
fn recv_data_overflows_stream_window() {
    // this tests for when streams have smaller windows than their connection
    let mut builder = Builder::new();
    builder.initial_window_size(16_384);
    let mut bound = bind(&builder);
    assert_eq!(send(&mut bound.connection, "GET", "https://http2.akamai.com/", true), 1);
    let conn = bound.connection.protocol_mut();
    assert_eq!(recv(conn, response(1)), Ok(true));
    // fill the whole window
    assert_eq!(recv(conn, data(1, 16_384)), Ok(true));
    // this frame overflows the window!
    let err = recv(conn, data_eos(1, 16)).unwrap_err();
    // expecting goaway for the conn
    let (told, err) = fail(conn, err);
    assert_eq!(told, GoAway::new(StreamId(0), Reason::FlowControlError));
    // client should see a flow control error
    assert_eq!(error_text(err), "protocol error: flow-control protocol violated");
    // and so should the reader of the body
    let err = conn.streams().poll_recv_end(StreamId(1)).unwrap_err();
    assert_eq!(error_text(err), "protocol error: flow-control protocol violated");
}

#[test]
fn stream_close_by_data_frame_releases_capacity() {
    let window_size = DEFAULT_INITIAL_WINDOW_SIZE;
    let mut bound = bind(&Builder::new());
    // Send request
    assert_eq!(send(&mut bound.connection, "POST", "https://http2.akamai.com/", false), 1);
    let streams = bound.connection.protocol_mut().streams();
    // This effectively reserves the entire connection window
    streams.reserve_capacity(StreamId(1), window_size);
    // The capacity should be immediately available as nothing else is
    // happening on the stream.
    assert_eq!(streams.capacity(StreamId(1)), window_size);

    // Create a second stream
    assert_eq!(send(&mut bound.connection, "POST", "https://http2.akamai.com/", false), 3);
    let conn = bound.connection.protocol_mut();
    // Request capacity
    conn.streams().reserve_capacity(StreamId(3), 5);
    // There should be no available capacity (as it is being held up by
    // the previous stream
    assert_eq!(conn.streams().capacity(StreamId(3)), 0);
    // Closing the previous stream by sending an empty data frame will
    // release the capacity to s2
    assert_eq!(conn.streams().send_data(&text(1, "", true)), Ok(()));
    // The capacity should be available
    assert_eq!(conn.streams().capacity(StreamId(3)), 5);
    // Send the frame
    assert_eq!(conn.streams().send_data(&text(3, "hello", true)), Ok(()));
    assert_eq!(conn.streams().capacity(StreamId(3)), 0);
    let mut headers = response(1);
    headers.set_end_stream();
    assert_eq!(recv(conn, headers), Ok(true));
    let mut headers = response(3);
    headers.set_end_stream();
    assert_eq!(recv(conn, headers), Ok(true));
    assert_eq!(conn.streams().num_active_streams(), 0);
}

#[test]
fn stream_close_by_trailers_frame_releases_capacity() {
    let window_size = DEFAULT_INITIAL_WINDOW_SIZE;
    let mut bound = bind(&Builder::new());
    // Send request
    assert_eq!(send(&mut bound.connection, "POST", "https://http2.akamai.com/", false), 1);
    let streams = bound.connection.protocol_mut().streams();
    // This effectively reserves the entire connection window
    streams.reserve_capacity(StreamId(1), window_size);
    // The capacity should be immediately available as nothing else is
    // happening on the stream.
    assert_eq!(streams.capacity(StreamId(1)), window_size);

    // Create a second stream
    assert_eq!(send(&mut bound.connection, "POST", "https://http2.akamai.com/", false), 3);
    let conn = bound.connection.protocol_mut();
    // Request capacity
    conn.streams().reserve_capacity(StreamId(3), 5);
    // There should be no available capacity (as it is being held up by
    // the previous stream
    assert_eq!(conn.streams().capacity(StreamId(3)), 0);
    // Closing the previous stream by sending a trailers frame will
    // release the capacity to s2
    assert_eq!(conn.streams().send_headers(&trailers(1)), Ok(()));
    // The capacity should be available
    assert_eq!(conn.streams().capacity(StreamId(3)), 5);
    // Send the frame
    assert_eq!(conn.streams().send_data(&text(3, "hello", true)), Ok(()));
}

#[test]
fn recv_window_update_on_stream_closed_by_data_frame() {
    let mut bound = bind(&Builder::new());
    assert_eq!(send(&mut bound.connection, "POST", "https://http2.akamai.com/", false), 1);
    let conn = bound.connection.protocol_mut();
    // Wait for the response
    make_ready(conn);
    match conn.recv(RecvEvent::Frame(Some(response(1).into()))) {
        RecvStep::Deliver(Frame::Headers(headers)) => {
            let resp = ClientPeer::convert_poll_message(headers).unwrap();
            assert_eq!(resp.status.as_u16(), 200);
        }
        step => panic!("unexpected step: {:?}", step),
    }
    // Send a data frame, this will also close the connection
    assert_eq!(conn.streams().send_data(&text(1, "hello", true)), Ok(()));
    assert_eq!(recv(conn, WindowUpdate::new(StreamId(1), 5)), Ok(false));
    assert_eq!(conn.streams().poll_window_update(), Ok(Async::NotReady));
    // Wait for the connection to close
    assert!(matches!(
        conn.recv(RecvEvent::Frame(None)),
        RecvStep::Return(Ok(Async::Ready(())))
    ));
}

#[test]
fn reserved_capacity_assigned_in_multi_window_updates() {
    let mut bound = bind(&Builder::new());
    assert_eq!(send(&mut bound.connection, "POST", "https://http2.akamai.com/", false), 1);
    let conn = bound.connection.protocol_mut();
    let id = StreamId(1);

    // Consume the capacity
    let payload = data(1, DEFAULT_INITIAL_WINDOW_SIZE as usize);
    assert_eq!(conn.streams().send_data(&payload), Ok(()));
    let mut write = FramedWrite::new();
    write.start_send(payload.into());
    let mut expected = Vec::new();
    for len in [16_384usize, 16_384, 16_384, 16_383] {
        expected.extend_from_slice(&[0, (len >> 8) as u8, len as u8, 0, 0, 0, 0, 0, 1]);
        expected.extend_from_slice(&vec![0u8; len]);
    }
    assert_eq!(written(&mut write), expected);

    // Reserve more data than we want
    conn.streams().reserve_capacity(id, 10);
    assert_eq!(conn.streams().capacity(id), 0);
    assert_eq!(conn.streams().poll_window_update(), Ok(Async::NotReady));

    // Increase the connection window
    assert_eq!(recv(conn, WindowUpdate::new(StreamId(0), 10)), Ok(false));
    // Incrementally increase the stream window
    assert_eq!(recv(conn, WindowUpdate::new(id, 4)), Ok(false));
    assert_eq!(recv(conn, WindowUpdate::new(id, 1)), Ok(false));
    assert_eq!(
        conn.streams().poll_window_update(),
        Ok(Async::Ready(WindowUpdate::new(StreamId(0), 10)))
    );
    assert_eq!(
        conn.streams().poll_window_update(),
        Ok(Async::Ready(WindowUpdate::new(id, 5)))
    );
    assert_eq!(conn.streams().capacity(id), 5);
    assert_eq!(conn.streams().poll_window_update(), Ok(Async::NotReady));

    // Send first chunk
    assert_eq!(conn.streams().send_data(&text(1, "hello", false)), Ok(()));
    assert_eq!(conn.streams().capacity(id), 0);
    assert_eq!(recv(conn, WindowUpdate::new(id, 5)), Ok(false));
    assert_eq!(
        conn.streams().poll_window_update(),
        Ok(Async::Ready(WindowUpdate::new(id, 5)))
    );
    assert_eq!(conn.streams().capacity(id), 5);
    // Send second chunk
    assert_eq!(conn.streams().send_data(&text(1, "world", true)), Ok(()));
    let mut headers = response_with(1, 204);
    headers.set_end_stream();
    assert_eq!(recv(conn, headers), Ok(true));
    assert_eq!(conn.streams().num_active_streams(), 0);
}

#[test]
fn connection_notified_on_released_capacity() {
    let mut bound = bind(&Builder::new());
    assert_eq!(send(&mut bound.connection, "GET", "https://example.com/a", true), 1);
    assert_eq!(send(&mut bound.connection, "GET", "https://example.com/b", true), 3);
    let conn = bound.connection.protocol_mut();
    // Get the responses
    assert_eq!(recv(conn, response(1)), Ok(true));
    assert_eq!(recv(conn, response(3)), Ok(true));
    // Fill the connection window
    assert_eq!(recv(conn, data_eos(1, 16_384)), Ok(true));
    assert_eq!(recv(conn, data_eos(3, 16_384)), Ok(true));
    assert!(sent_updates(conn).is_empty());
    // Release the capacity: the connection is to be notified
    assert_eq!(conn.streams().release_capacity(StreamId(1), 16_384), Ok(true));
    // The window update is sent
    assert_eq!(sent_updates(conn), [(0, 16_384)]);
}

#[test]
fn no_more_is_released_than_was_received() {
    let too_big = Err(ConnectionError::User(User::ReleaseCapacityTooBig));
    let mut streams = Streams::new::<client::Peer>(config(100, 100));
    assert_eq!(streams.release_capacity(StreamId(2), 1), too_big);
    assert!(streams.recv_headers(response(2)).unwrap().is_some());
    assert_eq!(streams.recv_data(&data(2, 10)), Ok(()));
    assert_eq!(streams.release_capacity(StreamId(2), 11), too_big);
    assert_eq!(streams.release_capacity(StreamId(2), 4), Ok(false));
    assert_eq!(streams.release_capacity(StreamId(2), 7), too_big);
    assert_eq!(streams.release_capacity(StreamId(2), 6), Ok(false));
    assert_eq!(streams.send_pending_window_updates(), None);
}

#[test]
fn updates_that_are_not_taken_come_again() {
    let mut streams = Streams::new::<client::Peer>(config(100, 100));
    assert!(streams.recv_headers(response(2)).unwrap().is_some());
    assert_eq!(streams.recv_data(&data(2, 100)), Ok(()));
    assert_eq!(streams.release_capacity(StreamId(2), 60), Ok(true));
    let first = WindowUpdate::new(StreamId(0), 60);
    assert_eq!(streams.send_pending_window_updates(), Some(first));
    assert_eq!(streams.window_update_answered(first, AsyncSink::NotReady), Async::NotReady);
    assert_eq!(streams.send_pending_window_updates(), Some(first));
    assert_eq!(streams.window_update_answered(first, AsyncSink::Ready), Async::Ready(()));
    let second = WindowUpdate::new(StreamId(2), 60);
    assert_eq!(streams.send_pending_window_updates(), Some(second));
    assert_eq!(streams.window_update_answered(second, AsyncSink::NotReady), Async::NotReady);
    assert_eq!(streams.send_pending_window_updates(), Some(second));
    // The remote may not use it yet.
    assert_eq!(
        streams.recv_data(&data(2, 1)),
        Err(ConnectionError::Proto(Reason::FlowControlError))
    );
    assert_eq!(streams.window_update_answered(second, AsyncSink::Ready), Async::Ready(()));
    assert_eq!(streams.send_pending_window_updates(), None);
    assert_eq!(streams.recv_data(&data(2, 60)), Ok(()));
}

#[test]
fn target_window_is_advertised() {
    let mut bound = bind(&Builder::new());
    bound.connection.set_target_window_size(65_535 + 40_000);
    let conn = bound.connection.protocol_mut();
    assert_eq!(sent_updates(conn), [(0, 40_000)]);

    // Data that is received is not advertised twice.
    let mut bound = bind(&Builder::new());
    assert_eq!(send(&mut bound.connection, "GET", "https://example.com/a", true), 1);
    let conn = bound.connection.protocol_mut();
    assert_eq!(recv(conn, response(1)), Ok(true));
    assert_eq!(recv(conn, data(1, 16_384)), Ok(true));
    bound.connection.set_target_window_size(65_535);
    let conn = bound.connection.protocol_mut();
    assert!(sent_updates(conn).is_empty());
    // What was advertised is not taken back; nothing is added to it.
    bound.connection.set_target_window_size(1);
    let conn = bound.connection.protocol_mut();
    assert!(sent_updates(conn).is_empty());
    assert_eq!(recv(conn, data(1, 49_151)), Ok(true));
}

#[test]
fn capacity_goes_to_those_that_reserved_first() {
    let mut streams = Streams::new::<client::Peer>(config(100, 100));
    let mut open = |id: u32| {
        let pseudo = Pseudo::request(Method::get(), Uri::parse("https://a.b/").unwrap());
        let frame = Headers::new(StreamId(id), pseudo, HeaderMap::new());
        streams.send_headers(&frame).unwrap();
    };
    open(1);
    open(3);
    open(5);
    let (a, b, c) = (StreamId(1), StreamId(3), StreamId(5));
    streams.reserve_capacity(a, 30);
    streams.reserve_capacity(b, 50);
    streams.reserve_capacity(c, 50);
    let capacities = |streams: &Streams| [a, b, c].map(|id| streams.capacity(id));
    assert_eq!(capacities(&streams), [30, 50, 20]);
    // One that changes its mind keeps its turn.
    streams.reserve_capacity(a, 60);
    assert_eq!(capacities(&streams), [60, 40, 0]);
    // What was sent is no longer reserved.
    assert_eq!(streams.send_data(&data(1, 20)), Ok(()));
    assert_eq!(capacities(&streams), [40, 40, 0]);
    // Those that did not reserve have none, but may send what the windows allow.
    streams.reserve_capacity(a, 0);
    assert_eq!(capacities(&streams), [0, 50, 30]);
    assert_eq!(streams.capacity(StreamId(7)), 0);
    assert_eq!(streams.send_data(&data(1, 80)), Ok(()));
    assert_eq!(capacities(&streams), [0, 0, 0]);
}

#[test]
fn one_stream_takes_the_window_of_another() {
    // The windows of the streams are as large as that of the connection.
    let mut streams = Streams::new::<client::Peer>(config(100, 100));
    assert!(streams.recv_headers(response(2)).unwrap().is_some());
    assert!(streams.recv_headers(response(4)).unwrap().is_some());
    assert_eq!(streams.recv_data(&data(2, 60)), Ok(()));
    assert_eq!(
        streams.recv_data(&data(4, 41)),
        Err(ConnectionError::Proto(Reason::FlowControlError))
    );
    assert_eq!(streams.recv_data(&data(4, 40)), Ok(()));
    assert_eq!(
        streams.recv_data(&data(2, 1)),
        Err(ConnectionError::Proto(Reason::FlowControlError))
    );
}

#[test]
fn sent_data_is_limited_by_both_windows() {
    let mut streams = Streams::new::<server::Peer>(config(100, 100));
    assert_eq!(streams.send_headers(&response(2)), Ok(()));
    assert_eq!(streams.send_headers(&response(4)), Ok(()));
    assert_eq!(streams.send_data(&data(2, 70)), Ok(()));
    assert_eq!(
        streams.send_data(&data(4, 31)),
        Err(ConnectionError::User(User::FlowControlViolation))
    );
    assert_eq!(streams.send_data(&data(4, 30)), Ok(()));

    // The remote lets more through on the connection, twice.
    assert!(!streams.recv_window_update(WindowUpdate::new(StreamId(0), 20)));
    assert!(!streams.recv_window_update(WindowUpdate::new(StreamId(0), 30)));
    // It may be used once it was handed out, both parts as one.
    assert_eq!(
        streams.send_data(&data(4, 1)),
        Err(ConnectionError::User(User::FlowControlViolation))
    );
    assert_eq!(
        streams.poll_window_update(),
        Ok(Async::Ready(WindowUpdate::new(StreamId(0), 50)))
    );
    assert_eq!(streams.send_data(&data(4, 50)), Ok(()));
    assert_eq!(
        streams.send_data(&data(4, 1)),
        Err(ConnectionError::User(User::FlowControlViolation))
    );
}

#[test]
fn waiting_task_is_notified_once() {
    let mut streams = Streams::new::<server::Peer>(config(100, 100));
    assert_eq!(streams.poll_window_update(), Ok(Async::NotReady));
    // Window updates for streams that are not there are ignored, but wake the task.
    assert!(streams.recv_window_update(WindowUpdate::new(StreamId(2), 1)));
    assert!(!streams.recv_window_update(WindowUpdate::new(StreamId(2), 1)));
    assert_eq!(streams.poll_window_update(), Ok(Async::NotReady));
    streams.expand_window(StreamId(0), 5);
    assert_eq!(
        streams.poll_window_update(),
        Ok(Async::Ready(WindowUpdate::new(StreamId(0), 5)))
    );
    // Expanding does not wake the task; receiving does.
    assert!(streams.recv_window_update(WindowUpdate::new(StreamId(0), 1)));
}

#[test]
fn windows_that_cannot_be_counted_are_found() {
    let mut streams = Streams::new::<server::Peer>(config(100, 100));
    assert!(streams.can_expand_window(StreamId(0), u32::MAX - 100));
    assert!(!streams.can_expand_window(StreamId(0), u32::MAX - 99));
    streams.expand_window(StreamId(0), MAX_WINDOW_SIZE);
    assert!(streams.can_expand_window(StreamId(0), MAX_WINDOW_SIZE + 1 - 100));
    assert!(!streams.can_expand_window(StreamId(0), MAX_WINDOW_SIZE + 2 - 100));
    // Streams that are not there do not matter.
    assert!(streams.can_expand_window(StreamId(2), u32::MAX));
    streams.send_headers(&response(2)).unwrap();
    streams.expand_window(StreamId(2), 1);
    assert!(!streams.can_expand_window(StreamId(2), u32::MAX - 100));
    assert!(streams.can_expand_window(StreamId(2), u32::MAX - 101));
}

#[test]
fn windows_are_claimed_expanded_and_applied() {
    let err = ConnectionError::Proto(Reason::FlowControlError);
    let mut flow = FlowControl::new(10);
    assert_eq!(flow.ensure_window(10, err), Ok(()));
    assert_eq!(flow.ensure_window(11, err), Err(err));
    assert_eq!(flow.claim_window(11, err), Err(err));
    assert_eq!(flow.claim_window(4, err), Ok(()));
    assert_eq!(flow, FlowControl { window_size: 6, next_window_update: 0 });
    assert_eq!(flow.peek_window_update(), None);
    assert_eq!(flow.apply_window_update(), None);
    // What is less than half of the window waits.
    flow.expand_window(2);
    assert_eq!(flow.peek_window_update(), None);
    flow.expand_window(1);
    assert_eq!(flow.peek_window_update(), Some(3));
    flow.expand_window(2);
    assert_eq!(flow.peek_window_update(), Some(5));
    assert_eq!(flow.claim_window(7, err), Err(err));
    assert_eq!(flow.apply_window_update(), Some(5));
    assert_eq!(flow, FlowControl { window_size: 11, next_window_update: 0 });
}

#[test]
fn streams_open_and_close() {
    let flow = Peer::Streaming(FlowControl::new(10));
    let mut stream = Stream::default();
    assert_eq!(stream, Stream::Idle);
    assert_eq!(stream.recv_close(), Err(ConnectionError::Proto(Reason::ProtocolError)));
    stream.recv_open(10, false).unwrap();
    assert_eq!(stream, Stream::Open { local: Peer::AwaitingHeaders, remote: flow });
    assert_eq!(
        stream.recv_open(10, false),
        Err(ConnectionError::Proto(Reason::ProtocolError))
    );
    assert!(stream.send_flow_control().is_none());
    stream.send_open(10, true).unwrap();
    assert_eq!(stream, Stream::HalfClosedLocal(flow));
    assert_eq!(
        stream.send_open(10, false),
        Err(ConnectionError::User(User::UnexpectedFrameType))
    );
    assert_eq!(stream.send_close(), Err(ConnectionError::Proto(Reason::ProtocolError)));
    stream.recv_flow_control().unwrap().expand_window(7);
    assert_eq!(stream.recv_flow_control().unwrap().apply_window_update(), Some(7));
    assert!(!stream.is_closed());
    stream.recv_close().unwrap();
    assert!(stream.is_closed());
    assert!(stream.recv_flow_control().is_none());

    let mut stream = Stream::default();
    stream.send_open(10, true).unwrap();
    assert_eq!(stream, Stream::HalfClosedLocal(Peer::AwaitingHeaders));
    stream.recv_open(10, true).unwrap();
    assert!(stream.is_closed());

    let mut stream = Stream::default();
    stream.recv_open(10, true).unwrap();
    assert_eq!(stream, Stream::HalfClosedRemote(Peer::AwaitingHeaders));
    stream.send_open(10, false).unwrap();
    assert_eq!(stream, Stream::HalfClosedRemote(flow));
    let err = ConnectionError::Io(IoKind::Other);
    stream.send_flow_control().unwrap().claim_window(10, err).unwrap();
    stream.send_close().unwrap();
    assert!(stream.is_closed());
}

#[test]
fn trailers_end_a_stream() {
    let flow = Peer::Streaming(FlowControl::new(10));
    let mut stream = Stream::Open { local: flow, remote: flow };
    // Trailers say that they end the stream.
    assert_eq!(stream.recv_trailers(false), Err(ConnectionError::Proto(Reason::ProtocolError)));
    assert_eq!(stream.send_trailers(false), Err(ConnectionError::User(User::UnexpectedFrameType)));
    assert_eq!(stream.recv_trailers(true), Ok(()));
    assert_eq!(stream, Stream::HalfClosedRemote(flow));
    assert_eq!(stream.recv_trailers(true), Err(ConnectionError::Proto(Reason::ProtocolError)));
    assert_eq!(stream.send_trailers(true), Ok(()));
    assert!(stream.is_closed());
    assert_eq!(stream.send_trailers(true), Err(ConnectionError::User(User::UnexpectedFrameType)));
}
