//! Answers to pings.

use super::Async;
use crate::frame::ping::PingModel;
use crate::frame::{Frame, Ping};
use std::collections::VecDeque;
use vstd::prelude::*;

verus! {

/// Acknowledges ping requests from the remote.
///
/// A PING frame without the ACK flag is answered by a PING frame with the ACK flag and an identical
/// payload. Answers are given higher priority than any other frame.
///
/// It stands between a transport and whoever reads from and writes to it. It says what is to be
/// done with the transport, and is told how that went.
#[derive(Debug)]
pub struct PingPong {
    is_closed: bool,
    sending_pongs: VecDeque<Frame>,
}

/// The state of the acknowledgements, as values.
#[verifier::ext_equal]
pub struct PingPongModel {
    /// True once the transport has ended.
    pub is_closed: bool,
    /// The answers that have yet to be sent.
    pub pongs: Seq<PingModel>,
}

/// What happened while a frame is polled for.
#[derive(Debug)]
pub enum PollEvent {
    /// Nothing yet.
    Start,
    /// The transport was polled, with this result.
    Polled(Async<Option<Frame>>),
}

/// What to do next while a frame is polled for.
#[derive(Debug)]
pub enum PollStep {
    /// Poll the transport.
    Poll,
    /// Return this.
    Return(Async<Option<Frame>>),
    /// Send the pending pongs, then return this whatever came of it, unless the transport failed.
    SendPongsAndReturn(Async<Option<Frame>>),
}

/// What happened while the pending pongs are sent.
#[derive(Debug)]
pub enum PongEvent {
    /// Nothing yet.
    Start,
    /// The transport took the pong.
    Taken,
    /// The transport handed the pong back.
    NotTaken(Frame),
}

/// What to do next while the pending pongs are sent.
#[derive(Debug)]
pub enum PongStep {
    /// Hand the pong to the transport.
    Send(Frame),
    /// All the pongs are sent: the result is that of flushing the transport.
    Flush,
    /// The result.
    Done(Async<()>),
}

/// What to do with a frame that is to be sent.
#[derive(Clone, Copy, Debug, PartialEq, Eq, Structural)]
pub enum SendStep {
    /// Hand it back: it cannot be sent yet.
    HandBack,
    /// Hand it to the transport.
    PassOn,
}

/// What to do after the transport was flushed.
#[derive(Debug, PartialEq, Eq)]
pub enum CompleteStep {
    /// Return this.
    Return(Async<()>),
    /// Send the pending pongs, and return what came of it.
    SendPongs,
}

/// What to do to find out whether a frame can be sent.
#[derive(Clone, Copy, Debug, PartialEq, Eq, Structural)]
pub enum ReadyStep {
    /// None can be sent yet.
    NotReady,
    /// Ask the transport.
    AskTransport,
}

/// The ping in a frame.
pub open spec fn ping_in(frame: Frame) -> PingModel {
    frame->Ping_0@
}

impl View for PingPong {
    type V = PingPongModel;

    closed spec fn view(&self) -> PingPongModel {
        PingPongModel {
            is_closed: self.is_closed,
            pongs: self.sending_pongs@.map_values(|frame: Frame| ping_in(frame)),
        }
    }
}

impl PingPongModel {
    /// The state after a ping was received: a request is answered, an answer is not.
    pub open spec fn after_ping(self, ping: PingModel) -> PingPongModel {
        if ping.ack {
            self
        } else {
            PingPongModel { pongs: self.pongs.push(ping.answer()), ..self }
        }
    }

    /// The state after pings were received, one after the other.
    pub open spec fn after_pings(self, pings: Seq<PingModel>) -> PingPongModel
        decreases pings.len(),
    {
        if pings.len() == 0 {
            self
        } else {
            self.after_pings(pings.drop_last()).after_ping(pings.last())
        }
    }

    /// The state after the oldest answer was taken out to be sent.
    pub open spec fn handed_out(self) -> PingPongModel {
        PingPongModel { pongs: self.pongs.skip(1), ..self }
    }

    /// The state after an answer could not be sent: it is the next one again.
    pub open spec fn handed_back(self, pong: PingModel) -> PingPongModel {
        PingPongModel { pongs: seq![pong] + self.pongs, ..self }
    }
}

impl PingPong {
    /// The frames that are held are answers.
    pub closed spec fn wf(self) -> bool {
        forall|i: int|
            0 <= i < self.sending_pongs@.len() ==> #[trigger] self.sending_pongs@[i] is Ping
                && ping_in(self.sending_pongs@[i]).ack
    }

    pub fn new() -> (r: PingPong)
        ensures
            r.wf(),
            r@ == (PingPongModel { is_closed: false, pongs: Seq::empty() }),
    {
        let r = PingPong { is_closed: false, sending_pongs: VecDeque::new() };
        assert(r@.pongs =~= Seq::empty());
        r
    }

    /// True once the transport has ended: it is not polled for frames any more.
    pub fn is_closed(&self) -> (r: bool)
        ensures
            r == self@.is_closed,
    {
        self.is_closed
    }

    /// A ping is received. An answer is handed back: nothing is to be done here. To a request, an
    /// answer is saved.
    pub fn recv_ping(&mut self, ping: Ping) -> (r: Option<Ping>)
        requires
            old(self).wf(),
        ensures
            final(self).wf(),
            final(self)@ == old(self)@.after_ping(ping@),
            r == if ping@.ack {
                Some(ping)
            } else {
                None
            },
    {
        if ping.is_ack() {
            // If we received an ACK, pass it on (nothing to be done here).
            return Some(ping);
        }
        // Save a pong to be sent when there is nothing more to be returned
        // from the stream or when frames are sent to the sink..
        let ghost before = self.sending_pongs@;
        let pong = Ping::pong(ping.into_payload());
        let ghost answer = pong@;
        self.sending_pongs.push_back(Frame::from(pong));
        assert(answer == ping@.answer());
        assert(self@.pongs =~= before.map_values(|frame: Frame| ping_in(frame)).push(answer));
        None
    }

    /// Polls for a frame. Ping requests are elided. Once the transport has ended it is not polled
    /// any more.
    ///
    /// If a PING is received without the ACK flag, the frame is sent to the remote with
    /// its ACK flag set.
    pub fn poll(&mut self, event: PollEvent) -> (r: PollStep)
        requires
            old(self).wf(),
        ensures
            final(self).wf(),
            old(self)@.is_closed ==> r == PollStep::Return(Async::Ready(None)) && final(self)@
                == old(self)@,
            !old(self)@.is_closed ==> match event {
                PollEvent::Start => {
                    &&& final(self)@ == old(self)@
                    &&& r == PollStep::Poll
                },
                PollEvent::Polled(polled) => match polled {
                    Async::Ready(Some(Frame::Ping(ping))) => {
                        &&& final(self)@ == old(self)@.after_ping(ping@)
                        &&& r == if ping@.ack {
                            PollStep::Return(polled)
                        } else {
                            PollStep::Poll
                        }
                    },
                    Async::Ready(Some(_)) => {
                        &&& final(self)@ == old(self)@
                        &&& r == PollStep::Return(polled)
                    },
                    Async::Ready(None) => {
                        &&& final(self)@ == (PingPongModel { is_closed: true, ..old(self)@ })
                        &&& r == PollStep::SendPongsAndReturn(polled)
                    },
                    Async::NotReady => {
                        &&& final(self)@ == old(self)@
                        &&& r == PollStep::SendPongsAndReturn(polled)
                    },
                },
            },
    {
        if self.is_closed {
            return PollStep::Return(Async::Ready(None));
        }
        match event {
            PollEvent::Start => PollStep::Poll,
            PollEvent::Polled(Async::Ready(Some(Frame::Ping(ping)))) => {
                match self.recv_ping(ping) {
                    Some(ping) => PollStep::Return(Async::Ready(Some(Frame::from(ping)))),
                    // There's nothing to return yet. Poll the underlying stream again to
                    // determine how to proceed.
                    None => PollStep::Poll,
                }
            },
            // Everything other than ping gets passed through.
            PollEvent::Polled(Async::Ready(Some(frame))) => {
                PollStep::Return(Async::Ready(Some(frame)))
            },
            // If poll won't necessarily be called again, try to send pending pong
            // frames.
            PollEvent::Polled(Async::Ready(None)) => {
                self.is_closed = true;
                PollStep::SendPongsAndReturn(Async::Ready(None))
            },
            PollEvent::Polled(Async::NotReady) => PollStep::SendPongsAndReturn(Async::NotReady),
        }
    }

    /// Sends the pending pongs, oldest first, until there are none left or the transport takes no
    /// more. Other frames wait for the result, which is ready only when there are none left.
    pub fn send_pongs(&mut self, event: PongEvent) -> (r: PongStep)
        requires
            old(self).wf(),
            event matches PongEvent::NotTaken(pong) ==> pong is Ping && ping_in(pong).ack,
        ensures
            final(self).wf(),
            r is Flush || r == PongStep::Done(Async::Ready(())) ==> final(self)@.pongs.len() == 0,
            match event {
                PongEvent::NotTaken(pong) => {
                    &&& r == PongStep::Done(Async::NotReady)
                    &&& final(self)@ == old(self)@.handed_back(ping_in(pong))
                },
                _ => if old(self)@.pongs.len() > 0 {
                    &&& r matches PongStep::Send(pong) && pong is Ping && ping_in(pong) == old(
                        self
                    )@.pongs[0] && ping_in(pong).ack
                    &&& final(self)@ == old(self)@.handed_out()
                } else {
                    &&& r == if event is Start {
                        PongStep::Done(Async::Ready(()))
                    } else {
                        PongStep::Flush
                    }
                    &&& final(self)@ == old(self)@
                },
            },
    {
        let ghost before = self.sending_pongs@;
        match event {
            PongEvent::NotTaken(pong) => {
                // If the pong can't be sent, save it..
                self.sending_pongs.push_front(pong);
                assert(self@.pongs =~= seq![ping_in(pong)] + old(self)@.pongs);
                PongStep::Done(Async::NotReady)
            },
            PongEvent::Start => {
                match self.sending_pongs.pop_front() {
                    Some(pong) => {
                        assert(pong == before[0]);
                        assert(self@.pongs =~= old(self)@.pongs.skip(1));
                        PongStep::Send(pong)
                    },
                    None => PongStep::Done(Async::Ready(())),
                }
            },
            PongEvent::Taken => {
                match self.sending_pongs.pop_front() {
                    Some(pong) => {
                        assert(pong == before[0]);
                        assert(self@.pongs =~= old(self)@.pongs.skip(1));
                        PongStep::Send(pong)
                    },
                    None => PongStep::Flush,
                }
            },
        }
    }

    /// A frame is to be sent, and the pending pongs were sent first, with this result.
    ///
    /// Pings _SHOULD_ have priority over other messages, so pending pongs are sent before the
    /// frame, and no frame passes as long as one of them waits.
    pub fn start_send(&self, pongs: Async<()>) -> (r: SendStep)
        ensures
            r == if pongs is Ready && self@.pongs.len() == 0 {
                SendStep::PassOn
            } else {
                SendStep::HandBack
            },
    {
        match pongs {
            Async::Ready(()) => {
                if self.sending_pongs.len() == 0 {
                    SendStep::PassOn
                } else {
                    SendStep::HandBack
                }
            },
            Async::NotReady => SendStep::HandBack,
        }
    }

    /// The transport was flushed, with this result. Pending pongs are sent then. Even if the
    /// transport is not done flushing, it may be able to take pongs.
    pub fn poll_complete(&self, flushed: Async<()>) -> (r: CompleteStep)
        ensures
            r == if self@.pongs.len() == 0 {
                CompleteStep::Return(flushed)
            } else {
                CompleteStep::SendPongs
            },
    {
        if self.sending_pongs.len() == 0 {
            return CompleteStep::Return(flushed);
        }
        CompleteStep::SendPongs
    }

    /// Whether a frame can be sent: not as long as there are pending pongs, else it is up to the
    /// transport.
    pub fn poll_ready(&self) -> (r: ReadyStep)
        ensures
            r == if self@.pongs.len() == 0 {
                ReadyStep::AskTransport
            } else {
                ReadyStep::NotReady
            },
    {
        if self.sending_pongs.len() > 0 {
            return ReadyStep::NotReady;
        }
        ReadyStep::AskTransport
    }
}

/// Each ping without the ACK flag is answered by a ping with the ACK flag and the same payload, in
/// the order in which the pings came; those with the flag are not answered.
pub proof fn pings_are_answered_in_order(m: PingPongModel, pings: Seq<PingModel>)
    ensures
        m.after_pings(pings).is_closed == m.is_closed,
        m.after_pings(pings).pongs == m.pongs + pings.filter(|p: PingModel| !p.ack).map_values(
            |p: PingModel| p.answer(),
        ),
    decreases pings.len(),
{
    let requests = |p: PingModel| !p.ack;
    reveal(Seq::filter);
    if pings.len() > 0 {
        pings_are_answered_in_order(m, pings.drop_last());
        assert(pings.filter(requests) == if pings.last().ack {
            pings.drop_last().filter(requests)
        } else {
            pings.drop_last().filter(requests).push(pings.last())
        });
    }
    assert(m.after_pings(pings).pongs =~= m.pongs + pings.filter(requests).map_values(
        |p: PingModel| p.answer(),
    ));
}

/// What can happen to answers: a ping is received, the oldest answer is taken out to be sent, and
/// the transport takes the answer that was taken out or hands it back.
pub enum PongOp {
    Receive(PingModel),
    HandOut,
    Take,
    HandBack,
}

/// The answers: those that the transport has taken, the one that it was handed, and those that
/// wait.
#[verifier::ext_equal]
pub struct Exchange {
    pub sent: Seq<PingModel>,
    pub in_hand: Option<PingModel>,
    pub waiting: PingPongModel,
}

impl Exchange {
    /// All the answers, oldest first.
    pub open spec fn answers(self) -> Seq<PingModel> {
        let in_hand = match self.in_hand {
            Some(pong) => seq![pong],
            None => Seq::empty(),
        };
        self.sent + in_hand + self.waiting.pongs
    }

    /// The answers after one more thing has happened. What cannot happen changes nothing.
    pub open spec fn after(self, op: PongOp) -> Exchange {
        match op {
            PongOp::Receive(ping) => Exchange { waiting: self.waiting.after_ping(ping), ..self },
            PongOp::HandOut => if self.in_hand is None && self.waiting.pongs.len() > 0 {
                Exchange {
                    in_hand: Some(self.waiting.pongs[0]),
                    waiting: self.waiting.handed_out(),
                    ..self
                }
            } else {
                self
            },
            PongOp::Take => match self.in_hand {
                Some(pong) => Exchange { sent: self.sent.push(pong), in_hand: None, ..self },
                None => self,
            },
            PongOp::HandBack => match self.in_hand {
                Some(pong) => Exchange {
                    in_hand: None,
                    waiting: self.waiting.handed_back(pong),
                    ..self
                },
                None => self,
            },
        }
    }

    /// The answers after all of these have happened.
    pub open spec fn after_all(self, ops: Seq<PongOp>) -> Exchange
        decreases ops.len(),
    {
        if ops.len() == 0 {
            self
        } else {
            self.after_all(ops.drop_last()).after(ops.last())
        }
    }
}

/// The answers to the requests among what happened, in the order in which the requests came.
pub open spec fn owed(ops: Seq<PongOp>) -> Seq<PingModel>
    decreases ops.len(),
{
    if ops.len() == 0 {
        Seq::empty()
    } else {
        match ops.last() {
            PongOp::Receive(ping) => if ping.ack {
                owed(ops.drop_last())
            } else {
                owed(ops.drop_last()).push(ping.answer())
            },
            _ => owed(ops.drop_last()),
        }
    }
}

/// Whatever happens, and in whatever order: the answers that were sent, followed by those that have
/// yet to be sent, are the answers to the requests that came, in the order in which they came. None
/// is lost, sent twice or overtaken.
pub proof fn no_answer_is_lost(e: Exchange, ops: Seq<PongOp>)
    ensures
        e.after_all(ops).answers() == e.answers() + owed(ops),
    decreases ops.len(),
{
    if ops.len() > 0 {
        let before = e.after_all(ops.drop_last());
        no_answer_is_lost(e, ops.drop_last());
        match ops.last() {
            PongOp::Receive(ping) => {
                if !ping.ack {
                    assert(before.after(ops.last()).answers() =~= before.answers().push(
                        ping.answer(),
                    ));
                }
            },
            _ => {
                assert(before.after(ops.last()).answers() =~= before.answers());
            },
        }
    }
    assert(e.after_all(ops).answers() =~= e.answers() + owed(ops));
}

} // verus!
