use bytes::Bytes;
use h2::error::ConnectionError;
use h2::frame::{Data, Frame, Ping, StreamId};
use h2::proto::ping_pong::{
    CompleteStep, PollEvent, PollStep, PongEvent, PongStep, ReadyStep, SendStep,
};
use h2::proto::{Async, AsyncSink, PingPong};
use std::cell::RefCell;
use std::collections::VecDeque;
use std::rc::Rc;

/// A stubbed transport for tests.
#[derive(Clone, Default)]
struct Transport(Rc<RefCell<Inner>>);

#[derive(Default)]
struct Inner {
    from_socket: VecDeque<Frame>,
    to_socket: VecDeque<Frame>,
    read_blocked: bool,
    start_send_blocked: bool,
    closing: bool,
}

impl Transport {
    fn poll(&mut self) -> Async<Option<Frame>> {
        let mut trans = self.0.borrow_mut();
        if trans.read_blocked || (!trans.closing && trans.from_socket.is_empty()) {
            Async::NotReady
        } else {
            Async::Ready(trans.from_socket.pop_front())
        }
    }

    fn start_send(&mut self, item: Frame) -> Option<Frame> {
        let mut trans = self.0.borrow_mut();
        if trans.closing || trans.start_send_blocked {
            Some(item)
        } else {
            trans.to_socket.push_back(item);
            None
        }
    }

    fn poll_complete(&mut self) -> Async<()> {
        let trans = self.0.borrow();
        if !trans.to_socket.is_empty() {
            Async::NotReady
        } else {
            Async::Ready(())
        }
    }
}

/// Does with the transport what it is told to.
struct Driver {
    state: PingPong,
    trans: Transport,
}

impl Driver {
    fn new(trans: Transport) -> Driver {
        Driver { state: PingPong::new(), trans }
    }

    fn send_pongs(&mut self) -> Async<()> {
        let mut event = PongEvent::Start;
        loop {
            match self.state.send_pongs(event) {
                PongStep::Send(pong) => {
                    event = match self.trans.start_send(pong) {
                        Some(pong) => PongEvent::NotTaken(pong),
                        None => PongEvent::Taken,
                    }
                }
                PongStep::Flush => return self.trans.poll_complete(),
                PongStep::Done(result) => return result,
            }
        }
    }

    fn poll(&mut self) -> Result<Async<Option<Frame>>, ConnectionError> {
        let mut event = PollEvent::Start;
        loop {
            match self.state.poll(event) {
                PollStep::Poll => event = PollEvent::Polled(self.trans.poll()),
                PollStep::Return(result) => return Ok(result),
                PollStep::SendPongsAndReturn(result) => {
                    self.send_pongs();
                    return Ok(result);
                }
            }
        }
    }

    fn start_send(&mut self, item: Frame) -> AsyncSink {
        let pongs = self.send_pongs();
        match self.state.start_send(pongs) {
            SendStep::HandBack => AsyncSink::NotReady,
            SendStep::PassOn => match self.trans.start_send(item) {
                Some(_) => AsyncSink::NotReady,
                None => AsyncSink::Ready,
            },
        }
    }

    fn poll_complete(&mut self) -> Async<()> {
        let flushed = self.trans.poll_complete();
        match self.state.poll_complete(flushed) {
            CompleteStep::Return(result) => result,
            CompleteStep::SendPongs => self.send_pongs(),
        }
    }
}

fn is_not_ready(polled: &Async<Option<Frame>>) -> bool {
    matches!(polled, Async::NotReady)
}

#[test]
fn responds_to_ping_with_pong() {
    let trans = Transport::default();
    let mut ping_pong = Driver::new(trans.clone());

    {
        let mut trans = trans.0.borrow_mut();
        let ping = Ping::ping(Bytes::from_static(b"buoyant_"));
        trans.from_socket.push_back(ping.into());
    }

    match ping_pong.poll() {
        Ok(Async::NotReady) => {} // cool
        rsp => panic!("unexpected poll result: {:?}", rsp),
    }

    {
        let mut trans = trans.0.borrow_mut();
        assert_eq!(trans.to_socket.len(), 1);
        match trans.to_socket.pop_front().unwrap() {
            Frame::Ping(pong) => {
                assert!(pong.is_ack());
                assert_eq!(&pong.into_payload()[..], b"buoyant_");
            }
            f => panic!("unexpected frame: {:?}", f),
        }
    }
}

#[test]
fn responds_to_ping_even_when_blocked() {
    let trans = Transport::default();
    let mut ping_pong = Driver::new(trans.clone());

    // Configure the transport so that writes can't proceed.
    {
        let mut trans = trans.0.borrow_mut();
        trans.start_send_blocked = true;
    }

    // The transport receives a ping but can't send it immediately.
    {
        let mut trans = trans.0.borrow_mut();
        let ping = Ping::ping(Bytes::from_static(b"buoyant?"));
        trans.from_socket.push_back(ping.into());
    }
    assert!(is_not_ready(&ping_pong.poll().unwrap()));

    // The transport receives another ping but can't send it immediately.
    {
        let mut trans = trans.0.borrow_mut();
        let ping = Ping::ping(Bytes::from_static(b"buoyant!"));
        trans.from_socket.push_back(ping.into());
    }
    assert!(is_not_ready(&ping_pong.poll().unwrap()));

    // At this point, ping_pong is holding two pongs that it cannot send.
    {
        let mut trans = trans.0.borrow_mut();
        assert!(trans.to_socket.is_empty());

        trans.start_send_blocked = false;
    }

    // Now that start_send_blocked is disabled, the next poll will successfully send
    // the pongs on the transport.
    assert!(is_not_ready(&ping_pong.poll().unwrap()));
    {
        let mut trans = trans.0.borrow_mut();
        assert_eq!(trans.to_socket.len(), 2);
        match trans.to_socket.pop_front().unwrap() {
            Frame::Ping(pong) => {
                assert!(pong.is_ack());
                assert_eq!(&pong.into_payload()[..], b"buoyant?");
            }
            f => panic!("unexpected frame: {:?}", f),
        }
        match trans.to_socket.pop_front().unwrap() {
            Frame::Ping(pong) => {
                assert!(pong.is_ack());
                assert_eq!(&pong.into_payload()[..], b"buoyant!");
            }
            f => panic!("unexpected frame: {:?}", f),
        }
    }
}

#[test]
fn pong_passes_through() {
    let trans = Transport::default();
    let mut ping_pong = Driver::new(trans.clone());

    {
        let mut trans = trans.0.borrow_mut();
        let pong = Ping::pong(Bytes::from_static(b"buoyant!"));
        trans.from_socket.push_back(pong.into());
    }

    match ping_pong.poll().unwrap() {
        Async::Ready(Some(Frame::Ping(pong))) => {
            assert!(pong.is_ack());
            assert_eq!(&pong.into_payload()[..], b"buoyant!");
        }
        f => panic!("unexpected frame: {:?}", f),
    }

    {
        let trans = trans.0.borrow();
        assert_eq!(trans.to_socket.len(), 0);
    }
}

fn data(payload: &'static [u8]) -> Frame {
    Data::new(StreamId(2), Bytes::from_static(payload)).into()
}

#[test]
fn other_frames_pass_through() {
    let trans = Transport::default();
    let mut ping_pong = Driver::new(trans.clone());
    trans.0.borrow_mut().from_socket.push_back(data(b"hello"));
    match ping_pong.poll().unwrap() {
        Async::Ready(Some(Frame::Data(frame))) => assert_eq!(&frame.payload()[..], b"hello"),
        f => panic!("unexpected frame: {:?}", f),
    }
    assert!(trans.0.borrow().to_socket.is_empty());
}

#[test]
fn end_of_transport_sends_pongs_and_stays() {
    let trans = Transport::default();
    let mut ping_pong = Driver::new(trans.clone());
    trans.0.borrow_mut().from_socket.push_back(Ping::ping(Bytes::from_static(b"12345678")).into());
    assert!(is_not_ready(&ping_pong.poll().unwrap()));
    assert_eq!(trans.0.borrow().to_socket.len(), 1);
    trans.0.borrow_mut().closing = true;
    assert!(matches!(ping_pong.poll().unwrap(), Async::Ready(None)));
    assert!(ping_pong.state.is_closed());
    // The transport is not polled any more.
    trans.0.borrow_mut().from_socket.push_back(data(b"late"));
    assert!(matches!(ping_pong.poll().unwrap(), Async::Ready(None)));
    assert_eq!(trans.0.borrow().from_socket.len(), 1);
}

#[test]
fn pongs_go_before_other_frames() {
    let trans = Transport::default();
    let mut ping_pong = Driver::new(trans.clone());
    trans.0.borrow_mut().start_send_blocked = true;
    trans.0.borrow_mut().from_socket.push_back(Ping::ping(Bytes::from_static(b"12345678")).into());
    assert!(is_not_ready(&ping_pong.poll().unwrap()));
    assert_eq!(ping_pong.state.poll_ready(), ReadyStep::NotReady);

    // As long as the pong cannot be sent, nothing else is.
    assert_eq!(ping_pong.start_send(data(b"hello")), AsyncSink::NotReady);
    trans.0.borrow_mut().start_send_blocked = false;
    // The pong is sent now, but the transport is not flushed.
    assert_eq!(ping_pong.start_send(data(b"hello")), AsyncSink::NotReady);
    assert_eq!(trans.0.borrow().to_socket.len(), 1);
    assert_eq!(ping_pong.state.poll_ready(), ReadyStep::AskTransport);
    assert_eq!(ping_pong.start_send(data(b"hello")), AsyncSink::Ready);
    let sent = trans.0.borrow_mut().to_socket.pop_front().unwrap();
    assert!(matches!(sent, Frame::Ping(_)));
    let sent = trans.0.borrow_mut().to_socket.pop_front().unwrap();
    assert!(matches!(sent, Frame::Data(_)));
}

#[test]
fn poll_complete_flushes_then_sends_pongs() {
    let trans = Transport::default();
    let mut ping_pong = Driver::new(trans.clone());
    assert_eq!(ping_pong.poll_complete(), Async::Ready(()));
    trans.0.borrow_mut().start_send_blocked = true;
    trans.0.borrow_mut().from_socket.push_back(Ping::ping(Bytes::from_static(b"12345678")).into());
    assert!(is_not_ready(&ping_pong.poll().unwrap()));
    assert_eq!(ping_pong.poll_complete(), Async::NotReady);
    assert!(trans.0.borrow().to_socket.is_empty());
    trans.0.borrow_mut().start_send_blocked = false;
    // The pong is taken, and is on its way.
    assert_eq!(ping_pong.poll_complete(), Async::NotReady);
    assert_eq!(trans.0.borrow().to_socket.len(), 1);
    trans.0.borrow_mut().to_socket.clear();
    assert_eq!(ping_pong.poll_complete(), Async::Ready(()));
}

#[test]
fn reads_while_blocked_keep_the_order() {
    let trans = Transport::default();
    let mut ping_pong = Driver::new(trans.clone());
    trans.0.borrow_mut().start_send_blocked = true;
    for payload in [&b"aaaaaaaa"[..], b"bbbbbbbb", b"cccccccc"] {
        let ping = Ping::ping(Bytes::from(payload));
        trans.0.borrow_mut().from_socket.push_back(ping.into());
    }
    trans.0.borrow_mut().from_socket.push_back(Ping::pong(Bytes::from_static(b"dddddddd")).into());
    // The three requests are elided, the answer is passed on.
    assert!(matches!(ping_pong.poll().unwrap(), Async::Ready(Some(Frame::Ping(_)))));
    trans.0.borrow_mut().read_blocked = true;
    assert!(is_not_ready(&ping_pong.poll().unwrap()));
    trans.0.borrow_mut().start_send_blocked = false;
    assert!(is_not_ready(&ping_pong.poll().unwrap()));
    let mut payloads = Vec::new();
    while let Some(frame) = trans.0.borrow_mut().to_socket.pop_front() {
        match frame {
            Frame::Ping(pong) => {
                assert!(pong.is_ack());
                payloads.push(pong.into_payload().to_vec());
            }
            f => panic!("unexpected frame: {:?}", f),
        }
    }
    assert_eq!(payloads, vec![b"aaaaaaaa".to_vec(), b"bbbbbbbb".to_vec(), b"cccccccc".to_vec()]);
}

#[test]
fn nothing_passes_while_a_pong_waits() {
    let mut state = PingPong::new();
    assert_eq!(state.start_send(Async::Ready(())), SendStep::PassOn);
    assert_eq!(state.start_send(Async::NotReady), SendStep::HandBack);
    assert!(state.recv_ping(Ping::ping(Bytes::from_static(b"12345678"))).is_none());
    assert_eq!(state.start_send(Async::Ready(())), SendStep::HandBack);
}

#[test]
fn an_ended_transport_is_not_polled() {
    let mut state = PingPong::new();
    assert!(matches!(state.poll(PollEvent::Start), PollStep::Poll));
    assert!(matches!(
        state.poll(PollEvent::Polled(Async::Ready(None))),
        PollStep::SendPongsAndReturn(Async::Ready(None))
    ));
    assert!(matches!(state.poll(PollEvent::Start), PollStep::Return(Async::Ready(None))));
    let ping = Frame::from(Ping::ping(Bytes::from_static(b"12345678")));
    assert!(matches!(
        state.poll(PollEvent::Polled(Async::Ready(Some(ping)))),
        PollStep::Return(Async::Ready(None))
    ));
    assert!(matches!(state.send_pongs(PongEvent::Start), PongStep::Done(Async::Ready(()))));
}
