use bytes::Bytes;
use h2::client;
use h2::error::{ConnectionError, Reason, User};
use h2::frame::{Data, Head, Headers, Kind, Pseudo, Reset, Settings, StreamId};
use h2::header::{FieldName, FieldValue, StatusCode};
use h2::hpack::Header;
use h2::proto::streams::{Config, Streams};
use h2::proto::{Async, AsyncSink, DynPeer, Peer};
use h2::server;
use http::HeaderMap;

const PROTOCOL_ERROR: ConnectionError = ConnectionError::Proto(Reason::ProtocolError);
const UNEXPECTED: ConnectionError = ConnectionError::User(User::UnexpectedFrameType);

fn headers(id: u32, eos: bool) -> Headers {
    let status = StatusCode::from_u16(200).unwrap();
    let mut frame = Headers::new(StreamId(id), Pseudo::response(status), HeaderMap::new());
    if eos {
        frame.set_end_stream();
    }
    frame
}

fn trailers(id: u32) -> Headers {
    let field = Header::Field {
        name: FieldName::from_bytes(b"a").unwrap(),
        value: FieldValue::from_bytes(b"b").unwrap(),
    };
    Headers::load(Head::new(Kind::Headers, 0x5, StreamId(id)), Ok(vec![field])).unwrap()
}

fn data(id: u32, eos: bool) -> Data {
    let mut frame = Data::new(StreamId(id), Bytes::from_static(b"hello"));
    if eos {
        frame.set_end_stream();
    }
    frame
}

fn config(max_remote: Option<usize>, max_local: Option<usize>) -> Config {
    Config {
        max_remote_initiated: max_remote,
        init_remote_window_sz: 65_535,
        max_local_initiated: max_local,
        init_local_window_sz: 65_535,
    }
}

fn opened(r: Result<Option<Headers>, ConnectionError>) -> Result<bool, ConnectionError> {
    r.map(|frame| frame.is_some())
}

#[test]
fn peers_know_their_side() {
    assert!(!client::Peer::is_server());
    assert_eq!(client::Peer::dyn_peer(), DynPeer::Client);
    assert!(server::Peer::is_server());
    assert_eq!(server::Peer::dyn_peer(), DynPeer::Server);
}

#[test]
fn remote_opens_its_own_streams_only() {
    let mut streams = Streams::new::<client::Peer>(config(None, None));
    assert_eq!(opened(streams.recv_headers(headers(0, false))), Err(PROTOCOL_ERROR));
    assert_eq!(opened(streams.recv_headers(headers(1, false))), Err(PROTOCOL_ERROR));
    assert_eq!(opened(streams.recv_headers(headers(2, false))), Ok(true));
    // The headers are handed back as they are.
    let frame = streams.recv_headers(headers(4, true)).unwrap().unwrap();
    assert_eq!(frame.stream_id(), StreamId(4));
    assert!(frame.is_end_stream());

    // The remote of a server opens those of clients.
    let mut streams = Streams::new::<server::Peer>(config(None, None));
    assert_eq!(opened(streams.recv_headers(headers(0, false))), Err(PROTOCOL_ERROR));
    assert_eq!(opened(streams.recv_headers(headers(1, false))), Ok(true));
    assert_eq!(opened(streams.recv_headers(headers(2, false))), Err(PROTOCOL_ERROR));
    assert_eq!(streams.num_wired_streams(), 1);
}

#[test]
fn local_opens_its_own_streams_only() {
    let mut streams = Streams::new::<server::Peer>(config(None, None));
    assert_eq!(
        streams.send_headers(&headers(0, false)),
        Err(ConnectionError::User(User::InvalidStreamId))
    );
    assert_eq!(streams.send_headers(&headers(1, false)), Err(UNEXPECTED));
    assert_eq!(streams.send_headers(&headers(2, false)), Ok(()));
    assert_eq!(streams.num_active_streams(), 1);

    // A client opens its own.
    let mut streams = Streams::new::<client::Peer>(config(None, None));
    assert_eq!(streams.send_headers(&headers(1, false)), Ok(()));
    assert_eq!(streams.send_headers(&headers(2, false)), Err(UNEXPECTED));
    assert_eq!(streams.send_headers(&headers(3, false)), Ok(()));
    assert_eq!(streams.num_active_streams(), 2);
}

#[test]
fn trailers_cannot_open_a_stream() {
    let mut streams = Streams::new::<client::Peer>(config(None, None));
    assert!(streams.can_recv_headers(&trailers(2)));
    assert_eq!(opened(streams.recv_headers(trailers(2))), Err(PROTOCOL_ERROR));
    assert_eq!(opened(streams.recv_headers(headers(2, false))), Ok(true));
    assert!(streams.can_recv_headers(&trailers(2)));

    let mut streams = Streams::new::<server::Peer>(config(None, None));
    assert_eq!(streams.send_headers(&trailers(2)), Err(UNEXPECTED));
    assert_eq!(
        streams.send_headers(&trailers(0)),
        Err(ConnectionError::User(User::InvalidStreamId))
    );
    assert_eq!(streams.send_headers(&headers(2, false)), Ok(()));
}

#[test]
fn trailers_end_what_a_side_sends() {
    let mut streams = Streams::new::<client::Peer>(config(None, None));
    assert_eq!(streams.send_headers(&headers(1, false)), Ok(()));
    assert_eq!(opened(streams.recv_headers(headers(1, false))), Ok(true));
    assert_eq!(streams.recv_data(&data(1, false)), Ok(()));
    assert_eq!(opened(streams.recv_headers(trailers(1))), Ok(true));
    assert_eq!(streams.recv_data(&data(1, false)), Err(PROTOCOL_ERROR));
    assert_eq!(opened(streams.recv_headers(trailers(1))), Err(PROTOCOL_ERROR));
    assert_eq!(streams.send_data(&data(1, false)), Ok(()));
    assert_eq!(streams.send_headers(&trailers(1)), Ok(()));
    assert_eq!(streams.send_data(&data(1, false)), Err(UNEXPECTED));
    assert_eq!(streams.send_headers(&trailers(1)), Err(UNEXPECTED));
    assert_eq!(streams.num_active_streams(), 0);
    assert_eq!(streams.num_wired_streams(), 1);
}

#[test]
fn settings_of_the_remote_limit_what_is_opened() {
    let mut streams = Streams::new::<client::Peer>(config(None, None));
    assert_eq!(streams.send_headers(&headers(1, false)), Ok(()));
    let mut settings = Settings::default();
    settings.set_max_concurrent_streams(Some(2));
    settings.set_initial_window_size(Some(4));
    streams.apply_remote_settings(&settings);
    assert_eq!(streams.send_headers(&headers(3, false)), Ok(()));
    assert_eq!(
        streams.send_headers(&headers(5, false)),
        Err(ConnectionError::User(User::Rejected))
    );
    // The new stream starts with the new window.
    assert_eq!(streams.send_data(&data(1, false)), Ok(()));
    assert_eq!(
        streams.send_data(&data(3, false)),
        Err(ConnectionError::User(User::FlowControlViolation))
    );
    // What is not mentioned stays.
    streams.apply_remote_settings(&Settings::default());
    assert_eq!(
        streams.send_headers(&headers(5, false)),
        Err(ConnectionError::User(User::Rejected))
    );
}

#[test]
fn last_stream_of_the_remote_is_known() {
    let mut streams = Streams::new::<client::Peer>(config(Some(2), None));
    assert_eq!(streams.send_headers(&headers(1, false)), Ok(()));
    assert_eq!(opened(streams.recv_headers(headers(1, false))), Ok(true));
    assert_eq!(streams.last_processed_id(), StreamId(0));
    assert_eq!(opened(streams.recv_headers(headers(4, false))), Ok(true));
    assert_eq!(streams.last_processed_id(), StreamId(4));
    assert_eq!(opened(streams.recv_headers(headers(2, false))), Ok(true));
    assert_eq!(streams.last_processed_id(), StreamId(4));
    // One that is refused is not processed.
    assert_eq!(opened(streams.recv_headers(headers(6, false))), Ok(false));
    assert_eq!(streams.last_processed_id(), StreamId(4));
}

#[test]
fn streams_over_the_limit_are_refused() {
    let mut streams = Streams::new::<client::Peer>(config(Some(2), None));
    assert_eq!(opened(streams.recv_headers(headers(2, false))), Ok(true));
    assert_eq!(opened(streams.recv_headers(headers(4, false))), Ok(true));
    assert_eq!(streams.send_pending_refusal(), None);
    assert_eq!(opened(streams.recv_headers(headers(6, false))), Ok(false));
    assert_eq!(streams.num_active_streams(), 2);
    assert_eq!(streams.num_wired_streams(), 2);
    // No other stream can be opened before the remote is told.
    assert!(!streams.can_recv_headers(&headers(8, false)));

    let reset = Reset::new(StreamId(6), Reason::RefusedStream);
    assert_eq!(streams.send_pending_refusal(), Some(reset));
    // The transport does not take it: it stays.
    assert_eq!(streams.refusal_answered(reset, AsyncSink::NotReady), Async::NotReady);
    assert!(!streams.can_recv_headers(&headers(8, false)));
    assert_eq!(streams.send_pending_refusal(), Some(reset));
    assert_eq!(streams.refusal_answered(reset, AsyncSink::Ready), Async::Ready(()));
    assert_eq!(streams.send_pending_refusal(), None);
    assert!(streams.can_recv_headers(&headers(8, false)));

    // What is sent on it is a protocol error; when another one closes, there is room.
    assert_eq!(streams.recv_data(&data(6, false)), Err(PROTOCOL_ERROR));
    assert_eq!(streams.send_headers(&headers(2, true)), Ok(()));
    assert_eq!(streams.recv_data(&data(2, true)), Ok(()));
    assert_eq!(streams.num_active_streams(), 1);
    assert_eq!(streams.num_wired_streams(), 2);
    assert_eq!(opened(streams.recv_headers(headers(6, false))), Ok(true));
}

#[test]
fn local_streams_over_the_limit_are_rejected() {
    let mut streams = Streams::new::<server::Peer>(config(None, Some(1)));
    assert_eq!(streams.send_headers(&headers(2, false)), Ok(()));
    assert_eq!(
        streams.send_headers(&headers(4, false)),
        Err(ConnectionError::User(User::Rejected))
    );
    // The stream that is there is not.
    assert_eq!(streams.send_data(&data(2, true)), Ok(()));
    assert_eq!(opened(streams.recv_headers(headers(2, true))), Ok(true));
    assert_eq!(streams.num_active_streams(), 0);
    assert_eq!(streams.send_headers(&headers(4, false)), Ok(()));

    let mut streams = Streams::new::<server::Peer>(config(None, Some(0)));
    assert_eq!(
        streams.send_headers(&headers(2, false)),
        Err(ConnectionError::User(User::Rejected))
    );
}

#[test]
fn data_needs_an_open_stream() {
    let mut streams = Streams::new::<client::Peer>(config(None, None));
    assert_eq!(streams.recv_data(&data(0, false)), Err(PROTOCOL_ERROR));
    assert_eq!(streams.recv_data(&data(2, false)), Err(PROTOCOL_ERROR));
    assert_eq!(streams.send_data(&data(2, false)), Err(UNEXPECTED));
    assert_eq!(opened(streams.recv_headers(headers(2, false))), Ok(true));
    // Headers have been received, but not sent.
    assert_eq!(streams.send_data(&data(2, false)), Err(UNEXPECTED));
    assert_eq!(streams.recv_data(&data(2, false)), Ok(()));
    assert_eq!(streams.send_headers(&headers(2, false)), Ok(()));
    assert_eq!(streams.send_data(&data(2, false)), Ok(()));
    // The remote ends; the local side does not.
    assert_eq!(streams.recv_data(&data(2, true)), Ok(()));
    assert_eq!(streams.recv_data(&data(2, false)), Err(PROTOCOL_ERROR));
    assert_eq!(streams.send_data(&data(2, true)), Ok(()));
    assert_eq!(streams.num_active_streams(), 0);
    // All is over.
    assert_eq!(streams.send_data(&data(2, true)), Err(UNEXPECTED));
    assert_eq!(streams.send_headers(&headers(2, false)), Err(UNEXPECTED));
    assert_eq!(opened(streams.recv_headers(headers(2, false))), Err(PROTOCOL_ERROR));
    assert_eq!(streams.num_wired_streams(), 1);
}

#[test]
fn second_headers_are_an_error() {
    let mut streams = Streams::new::<client::Peer>(config(None, None));
    assert_eq!(opened(streams.recv_headers(headers(2, false))), Ok(true));
    assert_eq!(opened(streams.recv_headers(headers(2, false))), Err(PROTOCOL_ERROR));
    assert_eq!(streams.send_headers(&headers(2, false)), Ok(()));
    assert_eq!(streams.send_headers(&headers(2, false)), Err(UNEXPECTED));
    assert_eq!(streams.num_active_streams(), 1);
}

#[test]
fn many_streams_are_kept_apart() {
    let mut streams = Streams::new::<client::Peer>(config(None, None));
    for id in 1..=100u32 {
        assert_eq!(opened(streams.recv_headers(headers(2 * id, false))), Ok(true));
    }
    assert_eq!(streams.num_active_streams(), 100);
    for id in 1..=50u32 {
        assert_eq!(streams.recv_data(&data(4 * id, true)), Ok(()));
        assert_eq!(streams.send_headers(&headers(4 * id, true)), Ok(()));
    }
    assert_eq!(streams.num_active_streams(), 50);
    assert_eq!(streams.num_wired_streams(), 100);
    assert_eq!(streams.recv_data(&data(2, false)), Ok(()));
    assert_eq!(streams.recv_data(&data(4, false)), Err(PROTOCOL_ERROR));
}
