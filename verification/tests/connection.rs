use bytes::Bytes;
use h2::client;
use h2::error::{ConnectionError, IoKind, Reason, RecvError, User};
use h2::frame::headers::{HeadersFlag, StreamDependency};
use h2::frame::{
    Data, Frame, GoAway, Headers, Ping, Priority, Pseudo, PushPromise, Reset, Settings, StreamId,
    WindowUpdate,
};
use h2::header::StatusCode;
use h2::proto::connection::{
    CompleteEvent, CompleteStep, Connection, Control, PollStep, ReadyEvent, ReadyStep, RecvEvent,
    RecvStep, State,
};
use h2::proto::Async;
use h2::server;
use http::HeaderMap;

fn headers(id: u32) -> Headers {
    let status = StatusCode::from_u16(200).unwrap();
    Headers::new(StreamId(id), Pseudo::response(status), HeaderMap::new())
}

fn recv(conn: &mut Connection, frame: impl Into<Frame>) -> RecvStep {
    let frame = frame.into();
    assert!(conn.can_recv(&frame));
    conn.recv(RecvEvent::Frame(Some(frame)))
}

fn is_ready(step: &ReadyStep) -> bool {
    matches!(step, ReadyStep::Done(Async::Ready(())))
}

#[test]
fn new_connections_are_open() {
    let mut conn = Connection::new::<client::Peer>(Settings::default());
    assert_eq!(conn.state(), State::Open);
    assert_eq!(conn.state().error(), None);
    assert_eq!(conn.remote_settings(), None);
    assert!(is_ready(&conn.poll_ready(ReadyEvent::Start)));
    assert!(matches!(conn.poll(), PollStep::Receive));
    assert!(matches!(conn.poll_complete(CompleteEvent::Start), CompleteStep::SendPending));
    assert_eq!(conn.streams().num_wired_streams(), 0);
}

#[test]
fn pings_are_answered_before_the_next_frame() {
    let mut conn = Connection::new::<server::Peer>(Settings::default());
    assert!(matches!(
        recv(&mut conn, Ping::ping(Bytes::from_static(b"abcdefgh"))),
        RecvStep::Continue
    ));
    let frame = match conn.poll_ready(ReadyEvent::Start) {
        ReadyStep::Send(Control::Pong, frame) => frame,
        step => panic!("unexpected step: {:?}", step),
    };
    // The transport hands it back.
    assert!(matches!(
        conn.poll_ready(ReadyEvent::NotTaken(Control::Pong, frame)),
        ReadyStep::Done(Async::NotReady)
    ));
    match conn.poll_ready(ReadyEvent::Start) {
        ReadyStep::Send(Control::Pong, Frame::Ping(pong)) => {
            assert!(pong.is_ack());
            assert_eq!(&pong.into_payload()[..], b"abcdefgh");
        }
        step => panic!("unexpected step: {:?}", step),
    }
    assert!(is_ready(&conn.poll_ready(ReadyEvent::Taken(Control::Pong))));

    // Answers are not answered.
    recv(&mut conn, Ping::pong(Bytes::from_static(b"abcdefgh")));
    assert!(is_ready(&conn.poll_ready(ReadyEvent::Start)));
}

#[test]
fn settings_take_effect_once_acknowledged() {
    let mut conn = Connection::new::<client::Peer>(Settings::default());
    let mut settings = Settings::default();
    settings.set_initial_window_size(Some(7));
    assert!(matches!(recv(&mut conn, settings), RecvStep::Continue));
    assert_eq!(conn.remote_settings(), None);
    let frame = match conn.poll_ready(ReadyEvent::Start) {
        ReadyStep::Send(Control::SettingsAck, frame) => frame,
        step => panic!("unexpected step: {:?}", step),
    };
    assert!(matches!(frame, Frame::Settings(s) if s == Settings::ack()));
    let answer = conn.poll_ready(ReadyEvent::NotTaken(Control::SettingsAck, frame));
    assert!(matches!(answer, ReadyStep::Done(Async::NotReady)));
    assert_eq!(conn.remote_settings(), None);
    assert!(matches!(
        conn.poll_ready(ReadyEvent::Start),
        ReadyStep::Send(Control::SettingsAck, _)
    ));
    assert!(is_ready(&conn.poll_ready(ReadyEvent::Taken(Control::SettingsAck))));
    assert_eq!(conn.remote_settings(), Some(settings));

    // New streams start with the window that the remote asked for.
    let streams = conn.streams();
    assert_eq!(streams.send_headers(&headers(1)), Ok(()));
    assert_eq!(streams.send_data(&Data::new(StreamId(1), Bytes::from_static(b"1234567"))), Ok(()));
    assert_eq!(
        streams.send_data(&Data::new(StreamId(1), Bytes::from_static(b"8"))),
        Err(ConnectionError::User(User::FlowControlViolation))
    );

    // The acknowledgement of the local settings changes nothing.
    recv(&mut conn, Settings::ack());
    assert!(is_ready(&conn.poll_ready(ReadyEvent::Start)));
    assert_eq!(conn.remote_settings(), Some(settings));
}

#[test]
fn pongs_go_before_acknowledgements() {
    let mut conn = Connection::new::<client::Peer>(Settings::default());
    recv(&mut conn, Settings::default());
    // The connection has to be made ready before the next frame.
    assert!(matches!(
        conn.poll_ready(ReadyEvent::Start),
        ReadyStep::Send(Control::SettingsAck, _)
    ));
    assert!(is_ready(&conn.poll_ready(ReadyEvent::Taken(Control::SettingsAck))));
    recv(&mut conn, Ping::ping(Bytes::from_static(b"abcdefgh")));
    assert!(matches!(conn.poll_ready(ReadyEvent::Start), ReadyStep::Send(Control::Pong, _)));
}

#[test]
fn frames_are_dispatched() {
    let mut conn = Connection::new::<client::Peer>(Settings::default());
    match recv(&mut conn, headers(2)) {
        RecvStep::Deliver(Frame::Headers(frame)) => assert_eq!(frame.stream_id(), StreamId(2)),
        step => panic!("unexpected step: {:?}", step),
    }
    assert_eq!(conn.streams().num_active_streams(), 1);
    assert!(matches!(
        recv(&mut conn, headers(3)),
        RecvStep::Return(Err(ConnectionError::Proto(Reason::ProtocolError)))
    ));
    assert!(matches!(recv(&mut conn, WindowUpdate::new(StreamId(0), 1)), RecvStep::Continue));
    conn.streams().poll_window_update().unwrap();
    conn.streams().poll_window_update().unwrap();
    assert!(matches!(recv(&mut conn, WindowUpdate::new(StreamId(0), 1)), RecvStep::Notify));
    let dependency = StreamDependency { stream_id: StreamId(0), weight: 1, is_exclusive: false };
    let priority = Frame::Priority(Priority { stream_id: StreamId(2), dependency });
    assert!(matches!(recv(&mut conn, priority), RecvStep::Continue));
    // The streams go on after a GO_AWAY frame.
    let go_away = GoAway::new(StreamId(0), Reason::NoError);
    assert!(matches!(recv(&mut conn, go_away), RecvStep::Continue));
    assert_eq!(conn.state(), State::Open);
    assert!(matches!(recv(&mut conn, headers(4)), RecvStep::Deliver(_)));
    assert!(matches!(
        conn.recv(RecvEvent::Frame(None)),
        RecvStep::Return(Ok(Async::Ready(())))
    ));
}

#[test]
fn what_is_not_supported_is_found() {
    let conn = Connection::new::<client::Peer>(Settings::default());
    assert!(!conn.can_recv(&Reset::new(StreamId(2), Reason::Cancel).into()));
    let promise = PushPromise {
        stream_id: StreamId(1),
        promised_id: StreamId(2),
        flags: HeadersFlag::default(),
    };
    assert!(!conn.can_recv(&Frame::PushPromise(promise)));
    assert!(conn.can_recv(&headers(2).into()));
}

#[test]
fn transport_errors_are_told_apart() {
    let mut conn = Connection::new::<client::Peer>(Settings::default());
    assert!(matches!(conn.recv(RecvEvent::NotReady), RecvStep::Flush));
    let failed = RecvEvent::Failed(RecvError::Connection(Reason::FrameSizeError));
    assert!(matches!(
        conn.recv(failed),
        RecvStep::Return(Err(ConnectionError::Proto(Reason::FrameSizeError)))
    ));
    let failed = RecvError::Stream { id: StreamId(2), reason: Reason::StreamClosed };
    match conn.recv(RecvEvent::Failed(failed)) {
        RecvStep::ResetStream { id, reason } => {
            assert_eq!((id, reason), (StreamId(2), Reason::StreamClosed));
        }
        step => panic!("unexpected step: {:?}", step),
    }
    assert!(matches!(
        conn.recv(RecvEvent::Failed(RecvError::Io(IoKind::ConnectionReset))),
        RecvStep::Return(Err(ConnectionError::Io(IoKind::ConnectionReset)))
    ));
    // An I/O error is returned at once, and the connection stays as it is.
    let err = ConnectionError::Io(IoKind::BrokenPipe);
    assert_eq!(conn.recv_failed(err), Some(err));
    assert_eq!(conn.state(), State::Open);
}

#[test]
fn remote_is_told_of_protocol_errors() {
    let mut conn = Connection::new::<client::Peer>(Settings::default());
    let err = ConnectionError::Proto(Reason::ProtocolError);
    // The last stream of the remote is named.
    assert!(matches!(recv(&mut conn, headers(4)), RecvStep::Deliver(_)));
    assert_eq!(conn.recv_failed(err), None);
    let frame = GoAway::new(StreamId(4), Reason::ProtocolError);
    assert_eq!(conn.state(), State::GoAway(frame));
    assert!(matches!(conn.poll(), PollStep::Complete));

    // The transport does not take the frame at first.
    assert!(matches!(
        conn.poll_complete(CompleteEvent::Start),
        CompleteStep::Send(Frame::GoAway(f)) if f == frame
    ));
    assert!(matches!(
        conn.poll_complete(CompleteEvent::NotReady),
        CompleteStep::Done(Async::NotReady)
    ));
    assert!(matches!(conn.poll_complete(CompleteEvent::Start), CompleteStep::Send(_)));
    assert!(matches!(conn.poll_complete(CompleteEvent::Taken), CompleteStep::Flush));
    assert_eq!(conn.state(), State::Flush(Reason::ProtocolError));
    assert_eq!(conn.state().error(), None);
    assert!(matches!(
        conn.poll_complete(CompleteEvent::NotReady),
        CompleteStep::Done(Async::NotReady)
    ));
    assert!(matches!(conn.poll_complete(CompleteEvent::Start), CompleteStep::Flush));
    assert!(matches!(
        conn.poll_complete(CompleteEvent::Flushed),
        CompleteStep::Done(Async::Ready(()))
    ));
    assert_eq!(conn.state().error(), Some(Reason::ProtocolError));
    assert!(matches!(conn.poll(), PollStep::Fail(e) if e == err));
    // It stays that way.
    assert!(matches!(
        conn.poll_complete(CompleteEvent::Start),
        CompleteStep::Done(Async::Ready(()))
    ));
    assert!(matches!(conn.poll(), PollStep::Fail(e) if e == err));
}

#[test]
fn local_settings_set_up_the_streams() {
    let mut settings = Settings::default();
    settings.set_initial_window_size(Some(3));
    settings.set_max_concurrent_streams(Some(1));
    let mut conn = Connection::new::<client::Peer>(settings);
    assert!(matches!(recv(&mut conn, headers(2)), RecvStep::Deliver(_)));
    let frame = Data::new(StreamId(2), Bytes::from_static(b"123"));
    assert!(matches!(recv(&mut conn, frame), RecvStep::Deliver(_)));
    let frame = Data::new(StreamId(2), Bytes::from_static(b"4"));
    assert!(matches!(
        recv(&mut conn, frame),
        RecvStep::Return(Err(ConnectionError::Proto(Reason::FlowControlError)))
    ));
    assert!(matches!(recv(&mut conn, headers(4)), RecvStep::Continue));
    match conn.poll_ready(ReadyEvent::Start) {
        ReadyStep::Send(Control::Refusal, Frame::Reset(reset)) => {
            assert_eq!(reset, Reset::new(StreamId(4), Reason::RefusedStream));
        }
        step => panic!("unexpected step: {:?}", step),
    }
}

#[test]
fn errors_have_a_text() {
    assert_eq!(
        Reason::FlowControlError.error_text(),
        "protocol error: flow-control protocol violated"
    );
    assert_eq!(Reason::Cancel.description(), "stream no longer needed");
    assert_eq!(Reason::Other(99).error_text(), "protocol error: unknown reason");
}

#[test]
fn incoming_streams_are_handed_out_in_order() {
    let mut conn = Connection::new::<server::Peer>(Settings::default());
    assert_eq!(conn.next_incoming(), None);
    assert!(matches!(recv(&mut conn, headers(1)), RecvStep::Deliver(_)));
    assert!(matches!(recv(&mut conn, headers(3)), RecvStep::Deliver(_)));
    assert_eq!(conn.next_incoming(), Some(client::StreamKey(1)));
    assert_eq!(conn.next_incoming(), Some(client::StreamKey(3)));
    assert_eq!(conn.next_incoming(), None);
    // Streams that the local side opened are not among them.
    assert_eq!(conn.streams().send_headers(&headers(2)), Ok(()));
    assert!(matches!(recv(&mut conn, headers(2)), RecvStep::Deliver(_)));
    assert_eq!(conn.next_incoming(), None);
}

#[test]
fn readers_are_told_of_the_first_failure() {
    let mut conn = Connection::new::<client::Peer>(Settings::default());
    assert!(matches!(recv(&mut conn, headers(2)), RecvStep::Deliver(_)));
    let mut ended = headers(4);
    ended.set_end_stream();
    assert!(matches!(recv(&mut conn, ended), RecvStep::Deliver(_)));
    assert_eq!(conn.streams().poll_recv_end(StreamId(2)), Ok(Async::NotReady));
    let err = ConnectionError::Io(IoKind::ConnectionReset);
    assert_eq!(conn.recv_failed(err), Some(err));
    assert_eq!(conn.streams().poll_recv_end(StreamId(2)), Err(err));
    // A stream that has ended stays that way, and so does one that never was.
    assert_eq!(conn.streams().poll_recv_end(StreamId(4)), Ok(Async::Ready(())));
    assert_eq!(conn.streams().poll_recv_end(StreamId(6)), Ok(Async::Ready(())));

    // Another failure changes nothing for them, nor for a connection that ends already.
    assert_eq!(conn.recv_failed(ConnectionError::Proto(Reason::ProtocolError)), None);
    assert_eq!(conn.streams().poll_recv_end(StreamId(2)), Err(err));
    let state = State::GoAway(GoAway::new(StreamId(4), Reason::ProtocolError));
    assert_eq!(conn.state(), state);
    assert_eq!(conn.recv_failed(ConnectionError::Proto(Reason::Cancel)), None);
    assert_eq!(conn.recv_failed(ConnectionError::Io(IoKind::Other)), None);
    assert_eq!(conn.state(), state);
}
