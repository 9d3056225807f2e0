use bytes::Bytes;
use h2::frame::{
    Data, Frame, GoAway, Headers, HeadersFlag, Ping, Pseudo, PushPromise, Reason, Reset, Settings,
    StreamId, WindowUpdate,
};
use h2::header::StatusCode;
use h2::hpack::{Encode, EncodeState, Header};
use h2::proto::framed_write::{
    ready_step, FlushStep, ReadyStep, SendStep, CHAIN_THRESHOLD, DEFAULT_BUFFER_CAPACITY,
    MIN_BUFFER_CAPACITY,
};
use h2::proto::FramedWrite;
use http::HeaderMap;

fn headers() -> Headers {
    let status = StatusCode::from_u16(200).unwrap();
    Headers::new(StreamId(2), Pseudo::response(status), HeaderMap::new())
}

/// Writes at most `n` bytes to `out` at a time until all is flushed.
fn flush(write: &mut FramedWrite, out: &mut Vec<u8>, n: usize) {
    loop {
        match write.poll_complete() {
            FlushStep::Write => {
                let len = write.pending().len().min(n);
                out.extend_from_slice(&write.pending()[..len]);
                write.wrote(len);
            }
            FlushStep::EncodeContinuation => panic!("unexpected continuation"),
            FlushStep::Flush => {
                write.flushed();
                return;
            }
        }
    }
}

#[test]
fn capacities_are_documented() {
    assert_eq!(DEFAULT_BUFFER_CAPACITY, 4 * 1_024);
    assert_eq!(CHAIN_THRESHOLD, 256);
    assert_eq!(MIN_BUFFER_CAPACITY, 9 + 256);
}

#[test]
fn frames_are_written_in_order() {
    let mut write = FramedWrite::new();
    assert!(write.is_empty());
    assert!(write.has_capacity());
    let frames: Vec<Frame> = vec![
        Settings::ack().into(),
        Ping::pong(Bytes::from_static(b"abcdefgh")).into(),
        Data::new(StreamId(2), Bytes::from_static(b"hello")).into(),
        WindowUpdate::new(StreamId(0), 1).into(),
        Reset::new(StreamId(4), Reason::RefusedStream).into(),
        GoAway::new(StreamId(2), Reason::NoError).into(),
    ];
    for frame in frames {
        assert!(matches!(write.start_send(frame), SendStep::Done));
    }
    assert!(!write.is_empty());
    let mut expected = Vec::new();
    expected.extend_from_slice(&[0, 0, 0, 4, 1, 0, 0, 0, 0]);
    expected.extend_from_slice(b"\x00\x00\x08\x06\x01\x00\x00\x00\x00abcdefgh");
    expected.extend_from_slice(b"\x00\x00\x05\x00\x00\x00\x00\x00\x02hello");
    expected.extend_from_slice(&[0, 0, 4, 8, 0, 0, 0, 0, 0, 0, 0, 0, 1]);
    expected.extend_from_slice(&[0, 0, 4, 3, 0, 0, 0, 0, 4, 0, 0, 0, 7]);
    expected.extend_from_slice(&[0, 0, 8, 7, 0, 0, 0, 0, 0, 0, 0, 0, 2, 0, 0, 0, 0]);
    assert_eq!(write.pending(), &expected[..]);

    // However little is written at a time, every byte comes once.
    let mut out = Vec::new();
    flush(&mut write, &mut out, 7);
    assert_eq!(out, expected);
    assert!(write.is_empty());
    assert_eq!(write.poll_complete(), FlushStep::Flush);
}

#[test]
fn large_payloads_are_kept() {
    let mut write = FramedWrite::new();
    let data = Data::new(StreamId(2), Bytes::from(vec![7u8; 255]));
    assert!(matches!(write.start_send(data.into()), SendStep::Done));
    assert_eq!(write.pending().len(), 9 + 255);
    assert!(write.has_capacity_with(MIN_BUFFER_CAPACITY));
    assert!(!write.has_capacity_with(MIN_BUFFER_CAPACITY - 1));

    let mut write = FramedWrite::new();
    let data = Data::new(StreamId(2), Bytes::from(vec![7u8; 256]));
    assert!(matches!(write.start_send(data.into()), SendStep::Done));
    // Only the head is encoded, with the length of the payload.
    assert_eq!(write.pending(), [0, 1, 0, 0, 0, 0, 0, 0, 2]);
    assert!(!write.is_empty());
    assert!(!write.has_capacity_with(usize::MAX));
    assert!(!write.has_capacity());

    // What exceeds the frame size is left for another frame.
    let mut write = FramedWrite::new();
    let data = Data::new(StreamId(2), Bytes::from(vec![7u8; 20_000]));
    write.start_send(data.into());
    assert_eq!(write.pending(), [0, 0x40, 0, 0, 0, 0, 0, 0, 2]);
}

#[test]
fn large_payloads_are_written_in_full() {
    let payload: Vec<u8> = (0..40_000u32).map(|i| (i % 251) as u8).collect();
    for n in [1_000, 16_384, 100_000] {
        let mut write = FramedWrite::new();
        write.start_send(Settings::ack().into());
        let mut data = Data::new(StreamId(2), Bytes::from(payload.clone()));
        data.set_end_stream();
        write.start_send(data.into());
        let mut expected = vec![0, 0, 0, 4, 1, 0, 0, 0, 0];
        expected.extend_from_slice(&[0, 0x40, 0, 0, 0, 0, 0, 0, 2]);
        expected.extend_from_slice(&payload[..16_384]);
        expected.extend_from_slice(&[0, 0x40, 0, 0, 0, 0, 0, 0, 2]);
        expected.extend_from_slice(&payload[16_384..32_768]);
        // Only the last frame ends the stream.
        expected.extend_from_slice(&[0, 0x1c, 0x40, 0, 1, 0, 0, 0, 2]);
        expected.extend_from_slice(&payload[32_768..]);
        let mut out = Vec::new();
        flush(&mut write, &mut out, n);
        assert_eq!(out, expected);
        assert!(write.is_empty());
        assert!(write.has_capacity());
    }
    // A payload of exactly one frame takes one frame.
    let mut write = FramedWrite::new();
    let mut data = Data::new(StreamId(2), Bytes::from(vec![7u8; 16_384]));
    data.set_end_stream();
    write.start_send(data.into());
    let mut out = Vec::new();
    flush(&mut write, &mut out, 50_000);
    assert_eq!(out[..9], [0, 0x40, 0, 0, 1, 0, 0, 0, 2]);
    assert_eq!(out.len(), 9 + 16_384);
}

#[test]
fn there_is_capacity_up_to_what_the_buffer_was_made_with() {
    let mut write = FramedWrite::new();
    while write.pending().len() + MIN_BUFFER_CAPACITY <= DEFAULT_BUFFER_CAPACITY {
        assert!(write.has_capacity());
        write.start_send(Ping::ping(Bytes::from_static(b"abcdefgh")).into());
    }
    let mut out = Vec::new();
    flush(&mut write, &mut out, 100);
    assert!(write.has_capacity());
}

#[test]
fn what_can_be_sent_is_known() {
    let write = FramedWrite::new();
    let promise = PushPromise {
        stream_id: StreamId(1),
        promised_id: StreamId(2),
        flags: HeadersFlag::default(),
    };
    assert!(!write.can_send(&Frame::PushPromise(promise)));
    assert!(write.can_send(&headers().into()));
    assert!(write.can_send(&Settings::ack().into()));
    assert!(write.can_send(&Ping::ping(Bytes::from(vec![0u8; 300])).into()));
    assert!(!write.can_send(&Ping::ping(Bytes::from(vec![0u8; 0x100_0000])).into()));
    let data = Data::new(StreamId(2), Bytes::from(vec![7u8; 300]));
    assert!(write.can_send(&data.into()));
}

#[test]
fn headers_are_framed() {
    let mut write = FramedWrite::new();
    write.start_send(Settings::ack().into());
    let mut block = match write.start_send(headers().into()) {
        SendStep::EncodeHeaders(block) => block,
        step => panic!("unexpected step: {:?}", step),
    };
    assert_eq!(block.pos, 9);
    while block.headers.next().is_some() {}
    write.finish_headers(block, Encode::Full, &[0x88]);
    assert_eq!(&write.pending()[9..], [0, 0, 1, 1, 4, 0, 0, 0, 2, 0x88]);
    // Nothing follows.
    write.announce_continuation(9);
    assert_eq!(&write.pending()[9..], [0, 0, 1, 1, 4, 0, 0, 0, 2, 0x88]);
    assert!(write.has_capacity());
}

#[test]
fn continuations_are_kept() {
    let mut write = FramedWrite::new();
    let mut block = match write.start_send(headers().into()) {
        SendStep::EncodeHeaders(block) => block,
        step => panic!("unexpected step: {:?}", step),
    };
    let header = block.headers.next().unwrap();
    write.finish_headers(block, Encode::Partial(EncodeState { header }), b"");
    assert_eq!(write.pending(), [0, 0, 0, 1, 4, 0, 0, 0, 2]);
    // A frame that another one continues does not say that the headers end.
    write.announce_continuation(0);
    assert_eq!(write.pending(), [0, 0, 0, 1, 0, 0, 0, 0, 2]);
    assert!(!write.has_capacity());
    // What comes before it is written first.
    assert!(write.continue_headers().is_none());
    assert_eq!(write.poll_complete(), FlushStep::Write);
    write.wrote(9);
    // The rest of the headers has yet to be written.
    assert!(!write.is_empty());
    assert_eq!(write.poll_complete(), FlushStep::EncodeContinuation);
    let rest = write.continue_headers().unwrap();
    assert_eq!(rest.stream_id, StreamId(2));
    assert!(matches!(&rest.hpack.header, Header::Status(status) if status.as_u16() == 200));
    let partial = Encode::Partial(rest.hpack);
    write.finish_continuation(rest.stream_id, rest.headers, partial, &[1, 2]);
    assert_eq!(write.pending(), [0, 0, 2, 9, 0, 0, 0, 0, 2, 1, 2]);
    write.wrote(11);
    let rest = write.continue_headers().unwrap();
    write.finish_continuation(rest.stream_id, rest.headers, Encode::Full, &[0x88]);
    assert_eq!(write.pending(), [0, 0, 1, 9, 4, 0, 0, 0, 2, 0x88]);
    let mut out = Vec::new();
    flush(&mut write, &mut out, 100);
    assert_eq!(out.len(), 10);
    assert!(write.is_empty());
}

#[test]
fn without_capacity_there_is_one_flush() {
    assert_eq!(ready_step(true, false), ReadyStep::Ready);
    assert_eq!(ready_step(true, true), ReadyStep::Ready);
    assert_eq!(ready_step(false, false), ReadyStep::Flush);
    assert_eq!(ready_step(false, true), ReadyStep::NotReady);

    let mut write = FramedWrite::new();
    assert_eq!(write.poll_ready(false), ReadyStep::Ready);
    let mut taken = 0;
    while write.poll_ready(false) == ReadyStep::Ready {
        assert!(write.has_capacity());
        write.start_send(Data::new(StreamId(2), Bytes::from(vec![0u8; 255])).into());
        taken += 1;
    }
    assert!(taken >= (4_096 - 265) / 264);
    assert_eq!(write.poll_ready(false), ReadyStep::Flush);
    assert_eq!(write.poll_ready(true), ReadyStep::NotReady);
    let mut out = Vec::new();
    flush(&mut write, &mut out, 1_000);
    assert_eq!(out.len(), taken * 264);
    assert_eq!(write.poll_ready(true), ReadyStep::Ready);
}

#[test]
fn peer_sets_the_frame_size() {
    let mut write = FramedWrite::new();
    let mut settings = Settings::default();
    write.apply_remote_settings(&settings);
    settings.set_max_frame_size(Some(20_000));
    write.apply_remote_settings(&settings);
    // These cannot be meant.
    for max in [0, 16_383, 0x100_0000] {
        settings.set_max_frame_size(Some(max));
        write.apply_remote_settings(&settings);
    }
    write.start_send(Data::new(StreamId(2), Bytes::from(vec![7u8; 30_000])).into());
    let mut out = Vec::new();
    flush(&mut write, &mut out, 50_000);
    assert_eq!(out.len(), 9 + 20_000 + 9 + 10_000);
    assert_eq!(out[..9], [0, 0x4e, 0x20, 0, 0, 0, 0, 0, 2]);
    assert_eq!(out[20_009..20_018], [0, 0x27, 0x10, 0, 0, 0, 0, 0, 2]);
}
