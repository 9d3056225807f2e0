use bytes::{Bytes, BytesMut};
use h2::frame::{
    Data, Error, Frame, GoAway, Head, Kind, Ping, Reason, Reset, Settings, StreamId, WindowUpdate,
};
use h2::proto::delimited::{delimit, FrameTooBig};

fn encoded(f: impl Fn(&mut BytesMut)) -> Vec<u8> {
    let mut dst = BytesMut::with_capacity(64);
    dst.extend_from_slice(b"before");
    f(&mut dst);
    assert_eq!(&dst[..6], b"before");
    dst[6..].to_vec()
}

#[test]
fn head_is_nine_bytes() {
    let head = Head::new(Kind::Continuation, 0x4, StreamId(0x0102_0304));
    let bytes = encoded(|dst| head.encode(0x00ab_cdef, dst));
    assert_eq!(bytes, [0xab, 0xcd, 0xef, 9, 4, 1, 2, 3, 4]);
    assert_eq!(head.kind(), Kind::Continuation);
    assert_eq!(head.flag(), 0x4);
    assert_eq!(head.stream_id(), StreamId(0x0102_0304));
}

#[test]
fn kinds_have_their_numbers() {
    let kinds = [
        Kind::Data,
        Kind::Headers,
        Kind::Priority,
        Kind::Reset,
        Kind::Settings,
        Kind::PushPromise,
        Kind::Ping,
        Kind::GoAway,
        Kind::WindowUpdate,
        Kind::Continuation,
    ];
    for (i, kind) in kinds.iter().enumerate() {
        assert_eq!(kind.code() as usize, i);
    }
}

#[test]
fn reasons_have_their_codes() {
    let reasons = [
        Reason::NoError,
        Reason::ProtocolError,
        Reason::InternalError,
        Reason::FlowControlError,
        Reason::SettingsTimeout,
        Reason::StreamClosed,
        Reason::FrameSizeError,
        Reason::RefusedStream,
        Reason::Cancel,
        Reason::CompressionError,
        Reason::ConnectError,
        Reason::EnhanceYourCalm,
        Reason::InadequateSecurity,
        Reason::Http11Required,
    ];
    for (i, reason) in reasons.iter().enumerate() {
        assert_eq!(reason.code() as usize, i);
    }
    assert_eq!(Reason::Other(99).code(), 99);
}

#[test]
fn stream_ids_tell_who_initiates() {
    assert!(StreamId::zero().is_zero());
    assert!(!StreamId(0).is_client_initiated() && !StreamId(0).is_server_initiated());
    assert!(StreamId(1).is_client_initiated() && !StreamId(1).is_server_initiated());
    assert!(StreamId(2).is_server_initiated() && !StreamId(2).is_client_initiated());
}

#[test]
fn ping_is_encoded_and_loaded() {
    let ping = Ping::ping(Bytes::from_static(b"abcdefgh"));
    let bytes = encoded(|dst| ping.encode(dst));
    assert_eq!(bytes, b"\x00\x00\x08\x06\x00\x00\x00\x00\x00abcdefgh");
    let pong = Ping::pong(Bytes::from_static(b"abcdefgh"));
    let bytes = encoded(|dst| pong.encode(dst));
    assert_eq!(bytes, b"\x00\x00\x08\x06\x01\x00\x00\x00\x00abcdefgh");

    let head = Head::new(Kind::Ping, 0, StreamId(0));
    let loaded = Ping::load(head, Bytes::from_static(b"abcdefgh")).unwrap();
    assert!(!loaded.is_ack());
    assert_eq!(&loaded.into_payload()[..], b"abcdefgh");
    // Only the lowest bit of the flags counts.
    let head = Head::new(Kind::Ping, 0xff, StreamId(0));
    assert!(Ping::load(head, Bytes::from_static(b"abcdefgh")).unwrap().is_ack());
    let head = Head::new(Kind::Ping, 0xfe, StreamId(0));
    assert!(!Ping::load(head, Bytes::from_static(b"abcdefgh")).unwrap().is_ack());
}

#[test]
fn ping_on_a_stream_is_rejected() {
    let head = Head::new(Kind::Ping, 0, StreamId(1));
    assert_eq!(Ping::load(head, Bytes::from_static(b"abcdefgh")).unwrap_err(), Error::InvalidStreamId);
    // The stream is looked at first.
    assert_eq!(Ping::load(head, Bytes::from_static(b"abc")).unwrap_err(), Error::InvalidStreamId);
}

#[test]
fn ping_of_another_size_is_rejected() {
    let head = Head::new(Kind::Ping, 0, StreamId(0));
    assert_eq!(Ping::load(head, Bytes::from_static(b"abcdefg")).unwrap_err(), Error::BadFrameSize);
    assert_eq!(Ping::load(head, Bytes::from_static(b"abcdefghi")).unwrap_err(), Error::BadFrameSize);
    assert_eq!(Ping::load(head, Bytes::new()).unwrap_err(), Error::BadFrameSize);
}

#[test]
fn data_is_encoded() {
    let mut data = Data::new(StreamId(3), Bytes::from_static(b"hello"));
    assert!(!data.is_end_stream());
    assert_eq!(data.len(), 5);
    assert_eq!(encoded(|dst| data.encode(dst)), b"\x00\x00\x05\x00\x00\x00\x00\x00\x03hello");
    data.set_end_stream();
    assert!(data.is_end_stream());
    assert_eq!(encoded(|dst| data.encode(dst)), b"\x00\x00\x05\x00\x01\x00\x00\x00\x03hello");
    assert_eq!(data.stream_id(), StreamId(3));
}

#[test]
fn control_frames_are_encoded() {
    let reset = Reset::new(StreamId(5), Reason::RefusedStream);
    assert_eq!(encoded(|dst| reset.encode(dst)), [0, 0, 4, 3, 0, 0, 0, 0, 5, 0, 0, 0, 7]);
    let go_away = GoAway::new(StreamId(0x0100), Reason::FlowControlError);
    assert_eq!(
        encoded(|dst| go_away.encode(dst)),
        [0, 0, 8, 7, 0, 0, 0, 0, 0, 0, 0, 1, 0, 0, 0, 0, 3]
    );
    let update = WindowUpdate::new(StreamId(1), 0x7fff_ffff);
    assert_eq!(
        encoded(|dst| update.encode(dst)),
        [0, 0, 4, 8, 0, 0, 0, 0, 1, 0x7f, 0xff, 0xff, 0xff]
    );
}

#[test]
fn settings_are_encoded() {
    assert_eq!(encoded(|dst| Settings::ack().encode(dst)), [0, 0, 0, 4, 1, 0, 0, 0, 0]);
    let mut settings = Settings::default();
    assert_eq!(encoded(|dst| settings.encode(dst)), [0, 0, 0, 4, 0, 0, 0, 0, 0]);
    settings.set_enable_push(true);
    settings.set_initial_window_size(Some(65_535));
    settings.set_max_concurrent_streams(Some(7));
    settings.set_max_frame_size(Some(16_384));
    assert_eq!(settings.max_frame_size(), Some(16_384));
    assert_eq!(
        encoded(|dst| settings.encode(dst)),
        [
            0, 0, 24, 4, 0, 0, 0, 0, 0, // head
            0, 2, 0, 0, 0, 1, // push
            0, 3, 0, 0, 0, 7, // streams
            0, 4, 0, 0, 0xff, 0xff, // window
            0, 5, 0, 0, 0x40, 0, // frame size
        ]
    );
    settings.set_enable_push(false);
    assert_eq!(settings.enable_push, Some(0));
    settings.header_table_size = Some(4_096);
    settings.max_header_list_size = Some(0x0102_0304);
    let bytes = encoded(|dst| settings.encode(dst));
    assert_eq!(bytes.len(), 9 + 36);
    assert_eq!(&bytes[9..15], [0, 1, 0, 0, 0x10, 0]);
    assert_eq!(&bytes[39..], [0, 6, 1, 2, 3, 4]);
}

#[test]
fn frames_are_made_of_their_kinds() {
    assert!(matches!(Frame::from(Settings::ack()), Frame::Settings(s) if s.is_ack()));
    assert!(matches!(Frame::from(Reset::new(StreamId(1), Reason::Cancel)), Frame::Reset(_)));
    assert!(matches!(Frame::from(GoAway::new(StreamId(1), Reason::Cancel)), Frame::GoAway(_)));
    assert!(matches!(Frame::from(WindowUpdate::new(StreamId(1), 1)), Frame::WindowUpdate(_)));
}

#[test]
fn frames_are_delimited() {
    let ping = Ping::ping(Bytes::from_static(b"abcdefgh"));
    let mut bytes = encoded(|dst| ping.encode(dst));
    for n in 0..bytes.len() {
        assert_eq!(delimit(&bytes[..n], 16_384), Ok(None));
    }
    assert_eq!(delimit(&bytes, 16_384), Ok(Some(17)));
    bytes.extend_from_slice(b"rest");
    assert_eq!(delimit(&bytes, 16_384), Ok(Some(17)));
    // The limit is one for the payload.
    assert_eq!(delimit(&bytes, 8), Ok(Some(17)));
    assert_eq!(delimit(&bytes, 7), Err(FrameTooBig));
    // Three bytes are enough to tell that a frame is too big.
    assert_eq!(delimit(&[0, 0x40, 1], 16_384), Err(FrameTooBig));
    assert_eq!(delimit(&[0, 0x40, 0], 16_384), Ok(None));
    assert_eq!(delimit(&[0xff, 0xff], 0), Ok(None));
}
