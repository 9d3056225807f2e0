use h2::client::{
    self, Builder, Config, Duration, Handshake, ResponseFuture, SendRequest, SentStream, StreamKey,
};
use h2::error::{ConnectionError, IoKind, Reason, User};
use h2::frame::{Frame, Settings, StreamId, WindowUpdate};
use h2::header::{Method, StatusCode};
use h2::message::{Request, Response, Version};
use h2::proto::connection::State;
use h2::proto::streams::{Config as StreamsConfig, Streams};
use h2::proto::{Async, DEFAULT_INITIAL_WINDOW_SIZE, MAX_WINDOW_SIZE};
use h2::uri::Uri;

#[test]
fn builder_has_defaults() {
    let builder = Builder::new();
    assert_eq!(builder.reset_stream_duration, Duration { secs: 30, nanos: 0 });
    assert_eq!(builder.reset_stream_max, 10);
    assert_eq!(builder.settings, Settings::default());
    assert_eq!(builder.stream_id, StreamId(1));
    assert_eq!(Builder::default(), builder);
    assert_eq!(client::handshake(), Handshake { builder });
    assert_eq!(DEFAULT_INITIAL_WINDOW_SIZE, 65_535);
    assert_eq!(MAX_WINDOW_SIZE, (1 << 31) - 1);
}

#[test]
fn builder_is_chained() {
    let mut builder = Builder::new();
    builder
        .initial_window_size(1_000_000)
        .max_frame_size(1_000_000)
        .max_concurrent_streams(1_000)
        .max_concurrent_reset_streams(1_000)
        .reset_stream_duration(Duration { secs: 10, nanos: 5 })
        .enable_push(false)
        .initial_stream_id(7);
    let mut settings = Settings::default();
    settings.set_initial_window_size(Some(1_000_000));
    settings.set_max_frame_size(Some(1_000_000));
    settings.set_max_concurrent_streams(Some(1_000));
    settings.set_enable_push(false);
    assert_eq!(
        builder,
        Builder {
            reset_stream_duration: Duration { secs: 10, nanos: 5 },
            reset_stream_max: 1_000,
            settings,
            stream_id: StreamId(7),
        }
    );
}

#[test]
fn handshake_writes_the_preface() {
    let handshake = client::handshake();
    assert_eq!(&handshake.preface()[..], &b"PRI * HTTP/2.0\r\n\r\nSM\r\n\r\n"[..]);
    assert!(matches!(handshake.poll(Async::NotReady), Async::NotReady));
}

#[test]
fn handshake_binds_the_connection() {
    let mut builder = Builder::new();
    builder.max_frame_size(20_000).initial_stream_id(3);
    let mut bound = match builder.handshake().poll(Async::Ready(())) {
        Async::Ready(bound) => bound,
        Async::NotReady => panic!("not bound"),
    };
    assert_eq!(bound.max_recv_frame_size, Some(20_000));
    assert!(matches!(bound.initial, Frame::Settings(s) if s == builder.settings));
    assert_eq!(
        bound.config,
        Config {
            next_stream_id: StreamId(3),
            reset_stream_duration: Duration { secs: 30, nanos: 0 },
            reset_stream_max: 10,
            settings: builder.settings,
        }
    );
    assert_eq!(bound.send_request.pending, None);
    assert_eq!(bound.connection.protocol_mut().state(), State::Open);
    assert_eq!(bound.connection.protocol_mut().remote_settings(), None);
    bound.connection.set_target_window_size(MAX_WINDOW_SIZE);
    assert_eq!(
        bound.connection.protocol_mut().streams().send_pending_window_updates(),
        Some(WindowUpdate::new(StreamId(0), MAX_WINDOW_SIZE - 65_535))
    );
    assert_eq!(bound.connection.protocol_mut().streams().num_wired_streams(), 0);

    let bound = match client::handshake().poll(Async::Ready(())) {
        Async::Ready(bound) => bound,
        Async::NotReady => panic!("not bound"),
    };
    assert_eq!(bound.max_recv_frame_size, None);
}

#[test]
fn requests_wait_for_the_pending_stream() {
    let mut sender = SendRequest { pending: None };
    let stream = SentStream { key: StreamKey(1), is_pending_open: false };
    let response = ResponseFuture { stream: StreamKey(1) };
    assert_eq!(sender.send_request(Ok(stream)), Ok((response, StreamKey(1))));
    assert_eq!(sender.pending, None);
    let stream = SentStream { key: StreamKey(2), is_pending_open: true };
    let response = ResponseFuture { stream: StreamKey(2) };
    assert_eq!(sender.send_request(Ok(stream)), Ok((response, StreamKey(2))));
    assert_eq!(sender.pending, Some(StreamKey(2)));
    // A clone waits for nothing.
    assert_eq!(sender.clone().pending, None);

    let err = ConnectionError::Proto(Reason::Cancel);
    assert_eq!(sender.send_request(Err(err)), Err(err));
    assert_eq!(sender.poll_ready(Err(err)), Err(err));
    assert_eq!(sender.poll_ready(Ok(Async::NotReady)), Ok(Async::NotReady));
    assert_eq!(sender.pending, Some(StreamKey(2)));
    assert_eq!(sender.poll_ready(Ok(Async::Ready(()))), Ok(Async::Ready(())));
    assert_eq!(sender.pending, None);
}

#[test]
fn senders_count_the_streams() {
    let streams = Streams::new::<client::Peer>(StreamsConfig {
        max_remote_initiated: None,
        init_remote_window_sz: 1,
        max_local_initiated: None,
        init_local_window_sz: 1,
    });
    let sender = SendRequest { pending: None };
    assert_eq!(sender.num_active_streams(&streams), 0);
    assert_eq!(sender.num_wired_streams(&streams), 0);
}

#[test]
fn responses_have_their_body_on_the_stream() {
    let future = ResponseFuture { stream: StreamKey(5) };
    assert!(matches!(future.poll(Ok(Async::NotReady)), Ok(Async::NotReady)));
    let err = ConnectionError::Io(IoKind::UnexpectedEof);
    assert_eq!(future.poll(Err(err)).unwrap_err(), err);
    let mut headers = http::HeaderMap::new();
    headers.insert("a", "b".parse().unwrap());
    let head = Response { status: StatusCode::ok(), version: Version::Http2, headers, body: () };
    match future.poll(Ok(Async::Ready(head))) {
        Ok(Async::Ready(response)) => {
            assert_eq!(response.status.as_u16(), 200);
            assert_eq!(response.version, Version::Http2);
            assert_eq!(response.headers.get("a").unwrap(), "b");
            assert_eq!(response.body, StreamKey(5));
        }
        other => panic!("unexpected result: {:?}", other),
    }
}

fn request(uri: &str) -> Request {
    Request {
        method: Method::get(),
        uri: Uri::parse(uri).unwrap(),
        version: Version::Http2,
        headers: http::HeaderMap::new(),
    }
}

fn connect(builder: &Builder) -> client::Connection {
    match builder.handshake().poll(Async::Ready(())) {
        Async::Ready(bound) => bound.connection,
        Async::NotReady => panic!("not bound"),
    }
}

#[test]
fn stream_ids_increase_from_the_first_one() {
    let mut conn = connect(Builder::new().initial_stream_id(7));
    for id in [7, 9, 11] {
        let sent = conn.protocol_mut().send_request(request("https://a.b/c"), true);
        let (stream, headers) = sent.unwrap();
        assert_eq!(stream, SentStream { key: StreamKey(id), is_pending_open: false });
        assert_eq!(headers.stream_id(), StreamId(id));
        assert!(headers.is_end_stream());
        assert!(!headers.is_trailers());
        let (pseudo, _) = headers.into_parts();
        assert_eq!(pseudo.path.as_deref(), Some("/c"));
        // A request that cannot be sent takes no ID.
        assert_eq!(
            conn.protocol_mut().send_request(request("/c"), true).unwrap_err(),
            ConnectionError::User(User::MissingUriSchemeAndAuthority)
        );
    }
    assert_eq!(conn.protocol_mut().streams().num_active_streams(), 3);
}

#[test]
fn senders_go_by_the_connection() {
    let mut conn = connect(&Builder::new());
    let mut settings = Settings::default();
    settings.set_max_concurrent_streams(Some(1));
    conn.protocol_mut().streams().apply_remote_settings(&settings);
    let mut sender = SendRequest { pending: Some(StreamKey(9)) };
    assert_eq!(sender.poll_ready_on(&conn), Async::Ready(()));
    assert_eq!(sender.pending, None);
    let sent = sender.send_request_on(&mut conn, request("https://a.b/c"), true);
    let (response, stream, headers) = sent.unwrap();
    assert_eq!(response, ResponseFuture { stream: StreamKey(1) });
    assert_eq!(stream, StreamKey(1));
    assert_eq!(headers.stream_id(), StreamId(1));
    sender.pending = Some(StreamKey(9));
    assert_eq!(sender.poll_ready_on(&conn), Async::NotReady);
    assert_eq!(sender.pending, Some(StreamKey(9)));
    assert_eq!(
        sender.send_request_on(&mut conn, request("https://a.b/c"), true).unwrap_err(),
        ConnectionError::User(User::Rejected)
    );
}

#[test]
fn stream_ids_run_out() {
    let mut conn = connect(Builder::new().initial_stream_id(0x7fff_ffff));
    let (stream, _) = conn.protocol_mut().send_request(request("https://a.b/"), true).unwrap();
    assert_eq!(stream.key, StreamKey(0x7fff_ffff));
    assert_eq!(
        conn.protocol_mut().send_request(request("https://a.b/"), true).unwrap_err(),
        ConnectionError::User(User::OverflowedStreamId)
    );
}

#[test]
fn requests_over_the_limit_of_the_remote_are_rejected() {
    let mut conn = connect(&Builder::new());
    let mut settings = Settings::default();
    settings.set_max_concurrent_streams(Some(1));
    conn.protocol_mut().streams().apply_remote_settings(&settings);
    assert_eq!(conn.protocol_mut().poll_send_request_ready(), Async::Ready(()));
    assert!(conn.protocol_mut().send_request(request("https://a.b/"), false).is_ok());
    assert_eq!(conn.protocol_mut().poll_send_request_ready(), Async::NotReady);
    assert_eq!(
        conn.protocol_mut().send_request(request("https://a.b/"), false).unwrap_err(),
        ConnectionError::User(User::Rejected)
    );
}
