//! What goes to the transport: answers to pings, and frames on their way.

use super::connection::{ConnectionModel, Control, ReadyEvent};
use super::framed_write::{
    ready_step, FlushStep, FramedWrite, FramedWriteModel, Next, ReadyStep as WriteReady,
    SendStep as WriteStep,
};
use super::ping_pong::{
    CompleteStep, PingPong, PollEvent, PollStep, PongEvent, PongStep, ReadyStep, SendStep,
};
use super::Async;
use crate::frame::header_laws::{gives_all, listed_headers_are_given};
use crate::frame::headers::{lists_headers, HeaderBlock, Iter, Pseudo};
use crate::frame::laws::{number, reads_as};
use crate::frame::ping::PingModel;
use crate::frame::{Continuation, Data, Frame, Ping, Settings, StreamId};
use crate::hpack::Encode;
use vstd::prelude::*;

verus! {

// ===== Pings =====

/// A ping that asks for an answer gets one, with its payload, behind those that wait; it is not
/// passed on. One that is an answer is passed on and changes nothing.
pub proof fn pings_get_answers(state: &mut PingPong, ping: Ping, r: Option<Ping>)
    requires
        call_ensures(PingPong::recv_ping, (state, ping), r),
    ensures
        final(state)@.is_closed == old(state)@.is_closed,
        ping@.ack ==> r == Some(ping) && final(state)@.pongs == old(state)@.pongs,
        !ping@.ack ==> r is None && final(state)@.pongs == old(state)@.pongs.push(
            PingModel { ack: true, payload: ping@.payload },
        ),
{
}

/// Frames pass as they come but pings that ask for an answer, after which the transport is polled
/// again. Where no frame comes, the answers are sent first. Once the transport has ended, nothing
/// comes any more, and it is not polled.
pub proof fn frames_pass_but_pings(state: &mut PingPong, event: PollEvent, r: PollStep)
    requires
        call_ensures(PingPong::poll, (state, event), r),
    ensures
        ({
            let before = old(state)@;
            let after = final(state)@;
            &&& before.is_closed ==> after == before && r is Return && r->Return_0 is Ready
                && r->Return_0->Ready_0 is None
            &&& !before.is_closed ==> match event {
                PollEvent::Start => r is Poll && after == before,
                PollEvent::Polled(Async::Ready(Some(frame))) => if frame is Ping
                    && !frame->Ping_0@.ack {
                    &&& r is Poll
                    &&& !after.is_closed
                    &&& after.pongs == before.pongs.push(
                        PingModel { ack: true, payload: frame->Ping_0@.payload },
                    )
                } else {
                    &&& r is Return && r->Return_0 is Ready && r->Return_0->Ready_0 == Some(frame)
                    &&& after == before
                },
                PollEvent::Polled(Async::Ready(None)) => {
                    &&& r is SendPongsAndReturn && r->SendPongsAndReturn_0 is Ready
                        && r->SendPongsAndReturn_0->Ready_0 is None
                    &&& after.is_closed && after.pongs == before.pongs
                },
                PollEvent::Polled(Async::NotReady) => {
                    &&& r is SendPongsAndReturn && r->SendPongsAndReturn_0 is NotReady
                    &&& after == before
                },
            }
        }),
{
}

/// Answers are sent one after the other, oldest first. One that the transport hands back is the
/// oldest again, and no more are sent then. When all are sent the transport is flushed, unless
/// there were none.
pub proof fn answers_are_sent_in_order(state: &mut PingPong, event: PongEvent, r: PongStep)
    requires
        call_ensures(PingPong::send_pongs, (state, event), r),
    ensures
        ({
            let before = old(state)@;
            let after = final(state)@;
            &&& after.is_closed == before.is_closed
            &&& event is NotTaken ==> {
                &&& r is Done && r->Done_0 is NotReady
                &&& after.pongs == seq![event->NotTaken_0->Ping_0@] + before.pongs
            }
            &&& !(event is NotTaken) && before.pongs.len() > 0 ==> {
                &&& r is Send && r->Send_0 is Ping && r->Send_0->Ping_0@ == before.pongs[0]
                &&& seq![before.pongs[0]] + after.pongs == before.pongs
            }
            &&& !(event is NotTaken) && before.pongs.len() == 0 ==> {
                &&& after.pongs.len() == 0
                &&& event is Start ==> r is Done && r->Done_0 is Ready
                &&& event is Taken ==> r is Flush
            }
        }),
{
    let before = old(state)@;
    if before.pongs.len() > 0 {
        assert(seq![before.pongs[0]] + before.pongs.skip(1) =~= before.pongs);
    }
}

/// No frame passes an answer that waits: not when it is sent, nor when the transport is asked
/// whether it takes one; and flushing sends the answers.
pub proof fn nothing_passes_answers(
    state: PingPong,
    pongs: Async<()>,
    send: SendStep,
    flushed: Async<()>,
    complete: CompleteStep,
    ready: ReadyStep,
    closed: bool,
    fresh: PingPong,
)
    requires
        call_ensures(PingPong::start_send, (&state, pongs), send),
        call_ensures(PingPong::poll_complete, (&state, flushed), complete),
        call_ensures(PingPong::poll_ready, (&state,), ready),
        call_ensures(PingPong::is_closed, (&state,), closed),
        call_ensures(PingPong::new, (), fresh),
    ensures
        send is PassOn <==> pongs is Ready && state@.pongs.len() == 0,
        ready is AskTransport <==> state@.pongs.len() == 0,
        complete is SendPongs <==> state@.pongs.len() > 0,
        complete is Return ==> (complete->Return_0 is Ready <==> flushed is Ready),
        closed == state@.is_closed,
        fresh@.pongs.len() == 0 && !fresh@.is_closed,
{
}

/// A connection is ready to receive exactly where no answer waits; and whatever it hands out to be
/// sent, it takes both that the transport took it and that it did not.
pub proof fn ready_is_nothing_to_send(m: ConnectionModel, frame: Frame)
    ensures
        m.is_ready() <==> m.ping_pong.pongs.len() == 0 && m.settings.pending is None
            && m.streams.refused is None,
        m.expects(ReadyEvent::Start),
        m.expects(ReadyEvent::Taken(Control::Pong)),
        m.expects(ReadyEvent::Taken(Control::Refusal)),
        m.settings.pending is Some ==> m.expects(ReadyEvent::Taken(Control::SettingsAck))
            && m.expects(ReadyEvent::NotTaken(Control::SettingsAck, frame)),
        frame is Ping && frame->Ping_0@.ack ==> m.expects(
            ReadyEvent::NotTaken(Control::Pong, frame),
        ),
        frame is Reset ==> m.expects(ReadyEvent::NotTaken(Control::Refusal, frame)),
{
}

// ===== Frames on their way =====

/// A writer starts empty, with room for what it was made with, and takes frames of up to 16 KiB
/// until the peer says otherwise. The peer may ask for larger ones, up to what a frame can hold;
/// what it cannot ask for is ignored.
pub proof fn peers_set_the_frame_size(
    fresh: FramedWrite,
    write: &mut FramedWrite,
    settings: &Settings,
)
    requires
        call_ensures(FramedWrite::new, (), fresh),
        call_ensures(FramedWrite::apply_remote_settings, (write, settings), ()),
    ensures
        fresh@.wf() && fresh@.buf.len() == 0 && fresh@.pos == 0 && fresh@.next is None,
        fresh@.max_frame_size == 16_384 && fresh@.capacity == 4_096,
        final(write)@ == (FramedWriteModel {
            max_frame_size: final(write)@.max_frame_size,
            ..old(write)@
        }),
        settings.max_frame_size is Some && 16_384 <= settings.max_frame_size->0 <= 16_777_215
            ==> final(write)@.max_frame_size == settings.max_frame_size->0,
        settings.max_frame_size is None || settings.max_frame_size->0 < 16_384
            || settings.max_frame_size->0 > 16_777_215 ==> final(write)@.max_frame_size
            == old(write)@.max_frame_size,
{
}

/// A frame can be taken where none is kept and 265 bytes are to spare. Where it cannot, a flush is
/// tried once.
pub proof fn frames_are_taken_where_there_is_room(
    write: FramedWrite,
    spare: usize,
    r: bool,
    asked: bool,
    flushed: bool,
    step: WriteReady,
    empty: bool,
)
    requires
        call_ensures(FramedWrite::has_capacity_with, (&write, spare), r),
        call_ensures(ready_step, (asked, flushed), step),
        call_ensures(FramedWrite::is_empty, (&write,), empty),
        write@.wf(),
    ensures
        r <==> write@.next is None && spare >= 265,
        step is Ready <==> asked,
        step is Flush <==> !asked && !flushed,
        step is NotReady <==> !asked && flushed,
        empty <==> write@.next is None && write@.pos == write@.buf.len(),
{
}

/// What can be sent: everything but announcements of streams and priorities, as far as the buffer
/// and the length of a frame can hold it.
pub proof fn frames_can_be_sent(write: FramedWrite, frame: Frame, r: bool)
    requires
        call_ensures(FramedWrite::can_send, (&write, &frame), r),
    ensures
        ({
            let room = isize::MAX - write@.buf.len();
            r == match frame {
                Frame::PushPromise(_) => false,
                Frame::Priority(_) => false,
                Frame::Headers(_) => room >= 9,
                Frame::Data(data) => if data@.payload.len() < 256 {
                    room >= 9 + data@.payload.len()
                } else {
                    room >= 9
                },
                Frame::Ping(ping) => ping@.payload.len() < 0x100_0000 && room >= 9
                    + ping@.payload.len(),
                Frame::Settings(_) => room >= 45,
                Frame::GoAway(_) => room >= 17,
                Frame::Reset(_) => room >= 13,
                Frame::WindowUpdate(_) => room >= 13,
            }
        }),
{
}

/// A frame that is sent goes behind all that is to be written, and nothing else changes. Data of
/// less than 256 bytes is a frame as it is; more is kept, and starts with the head of a frame that
/// is no larger than the peer takes, and ends the stream only if it is all of the data.
pub proof fn data_is_sent(write: &mut FramedWrite, data: Data, r: WriteStep)
    requires
        call_ensures(FramedWrite::start_send, (write, Frame::Data(data)), r),
        old(write)@.wf(),
        old(write)@.next is None,
    ensures
        ({
            let m = old(write)@;
            let after = final(write)@;
            let payload = data@.payload;
            let added = after.buf.skip(m.buf.len() as int);
            let flag: u8 = if data@.end_stream {
                1
            } else {
                0
            };
            &&& r is Done
            &&& after.buf.len() >= m.buf.len() && after.buf.take(m.buf.len() as int) == m.buf
            &&& payload.len() < 256 ==> {
                &&& reads_as(added, 0, flag, data@.stream_id.0 as int, payload)
                &&& after == (FramedWriteModel { buf: after.buf, ..m })
            }
            &&& payload.len() >= 256 ==> {
                &&& after.next matches Some(Next::Data { frame_len, sent, data: kept })
                &&& sent == 0 && kept@ == data@
                &&& frame_len == payload.len() || frame_len == m.max_frame_size
                &&& frame_len <= payload.len() && frame_len <= m.max_frame_size
                &&& reads_as(
                    added + payload.take(frame_len as int),
                    0,
                    if frame_len == payload.len() {
                        flag
                    } else {
                        0
                    },
                    data@.stream_id.0 as int,
                    payload.take(frame_len as int),
                )
                &&& after == (FramedWriteModel { buf: after.buf, next: after.next, ..m })
            }
        }),
{
    let m = old(write)@;
    let after = final(write)@;
    let payload = data@.payload;
    if payload.len() < 256 {
        let wire = data@.wire();
        assert(after.buf == m.buf + wire);
        put_behind(m.buf, wire);
        crate::frame::laws::frames_read(data@.head(), payload);
    } else {
        let len = if m.max_frame_size <= payload.len() {
            m.max_frame_size as int
        } else {
            payload.len() as int
        };
        let part = super::framed_write::part(data@, 0, len);
        let head = part.head().wire(len);
        assert(after.buf == m.buf + head);
        put_behind(m.buf, head);
        assert(part.payload =~= payload.take(len));
        crate::frame::laws::frames_read(part.head(), payload.take(len));
    }
}

/// What is put behind a buffer can be told from it.
proof fn put_behind(buf: Seq<u8>, added: Seq<u8>)
    ensures
        (buf + added).take(buf.len() as int) == buf,
        (buf + added).skip(buf.len() as int) == added,
{
    assert((buf + added).take(buf.len() as int) =~= buf);
    assert((buf + added).skip(buf.len() as int) =~= added);
}

/// Every other frame is written behind all that is to be written, as it stands on the wire; of a
/// HEADERS frame only the head, without a length, while its headers are handed out.
pub proof fn other_frames_are_sent(write: &mut FramedWrite, frame: Frame, r: WriteStep)
    requires
        call_ensures(FramedWrite::start_send, (write, frame), r),
        old(write)@.supports(frame),
        !(frame is Data),
    ensures
        ({
            let m = old(write)@;
            let after = final(write)@;
            let added = after.buf.skip(m.buf.len() as int);
            &&& after == (FramedWriteModel { buf: after.buf, ..m })
            &&& after.buf.len() >= m.buf.len() && after.buf.take(m.buf.len() as int) == m.buf
            &&& r is EncodeHeaders <==> frame is Headers
            &&& frame matches Frame::Headers(headers) ==> {
                &&& reads_as(
                    added,
                    1,
                    headers@.flags.0,
                    headers@.stream_id.0 as int,
                    Seq::empty(),
                )
                &&& r->EncodeHeaders_0.pos == m.buf.len()
                &&& r->EncodeHeaders_0.stream_id == headers@.stream_id
                &&& gives_all(r->EncodeHeaders_0.headers.remaining(), headers)
            }
            &&& !(frame is Headers) ==> added == frame.wire()
        }),
{
    let m = old(write)@;
    match frame {
        Frame::Headers(headers) => {
            let head = headers@.head().wire(0);
            put_behind(m.buf, head);
            assert(head + Seq::<u8>::empty() =~= head);
            crate::frame::laws::frames_read(headers@.head(), Seq::empty());
            let list = r->EncodeHeaders_0.headers.remaining();
            let pseudo = choose|pseudo: Pseudo|
                pseudo@ == headers@.pseudo && #[trigger] lists_headers(
                    list,
                    pseudo,
                    headers@.fields,
                );
            listed_headers_are_given(list, pseudo, headers);
        },
        _ => {
            put_behind(m.buf, frame.wire());
        },
    }
}

/// A header block goes behind the head of its frame, which then has its length; what was before the
/// frame, and the kind, the flags and the stream in the head, stay. Headers that did not fit are
/// kept.
pub proof fn header_blocks_are_finished(
    write: &mut FramedWrite,
    block: HeaderBlock,
    encoded: Encode,
    bytes: &[u8],
)
    requires
        call_ensures(FramedWrite::finish_headers, (write, block, encoded, bytes), ()),
        block.pos + 9 == old(write)@.buf.len(),
        bytes@.len() < 0x100_0000,
    ensures
        ({
            let m = old(write)@;
            let after = final(write)@;
            let pos = block.pos as int;
            &&& after.buf.len() == m.buf.len() + bytes@.len()
            &&& after.buf.take(pos) == m.buf.take(pos)
            &&& number(after.buf.subrange(pos, pos + 3)) == bytes@.len()
            &&& after.buf.subrange(pos + 3, pos + 9) == m.buf.subrange(pos + 3, pos + 9)
            &&& after.buf.skip(pos + 9) == bytes@
            &&& encoded is Full ==> after.next == m.next
            &&& encoded matches Encode::Partial(state) ==> after.next == Some(
                Next::Continuation(
                    Continuation {
                        stream_id: block.stream_id,
                        hpack: state,
                        headers: block.headers,
                    },
                ),
            )
            &&& after == (FramedWriteModel { buf: after.buf, next: after.next, ..m })
        }),
{
    let m = old(write)@;
    let after = final(write)@;
    let pos = block.pos as int;
    let all = m.buf + bytes@;
    let len = crate::buf::be24(bytes@.len() as int);
    assert(after.buf == all.take(pos) + len + all.skip(pos + 3));
    assert(after.buf.take(pos) =~= m.buf.take(pos));
    assert(after.buf.subrange(pos, pos + 3) =~= len);
    crate::frame::laws::three_bytes_read(bytes@.len() as int);
    assert(after.buf.subrange(pos + 3, pos + 9) =~= m.buf.subrange(pos + 3, pos + 9));
    assert(after.buf.skip(pos + 9) =~= bytes@);
}

/// The frame that a CONTINUATION frame follows loses the flag that says that its headers end, and
/// nothing else; where nothing follows it, it stays.
pub proof fn continued_frames_do_not_end(write: &mut FramedWrite, pos: usize)
    requires
        call_ensures(FramedWrite::announce_continuation, (write, pos), ()),
        pos + 9 <= old(write)@.buf.len(),
    ensures
        ({
            let m = old(write)@;
            let after = final(write)@;
            let continued = m.next matches Some(Next::Continuation(_));
            let before = m.buf[pos + 4];
            let flag = after.buf[pos + 4];
            &&& after == (FramedWriteModel { buf: after.buf, ..m })
            &&& after.buf.len() == m.buf.len()
            &&& forall|k: int|
                0 <= k < m.buf.len() && k != pos + 4 ==> #[trigger] after.buf[k] == m.buf[k]
            &&& !continued ==> flag == before
            &&& continued ==> flag & 0x4 == 0 && flag | 0x4 == before | 0x4
        }),
{
    let flag = old(write)@.buf[pos + 4];
    assert((flag & 0xfb) & 0x4 == 0 && (flag & 0xfb) | 0x4 == flag | 0x4) by (bit_vector);
}

/// Headers that are kept are handed out once all that comes before them is written, and not before.
pub proof fn kept_headers_are_continued(write: &mut FramedWrite, r: Option<Continuation>)
    requires
        call_ensures(FramedWrite::continue_headers, (write,), r),
        old(write)@.wf(),
    ensures
        ({
            let m = old(write)@;
            let after = final(write)@;
            &&& r is Some <==> m.pos == m.buf.len() && (m.next matches Some(Next::Continuation(_)))
            &&& r matches Some(rest) ==> {
                &&& m.next == Some(Next::Continuation(rest))
                &&& after.next is None && after.buf.len() == 0 && after.pos == 0
                &&& after.max_frame_size == m.max_frame_size && after.capacity == m.capacity
            }
            &&& r is None ==> after == m
        }),
{
}

/// A header block that continues another one is a frame of its own. It says that the headers end if
/// and only if they do; else the rest is kept.
pub proof fn continuations_are_frames(
    write: &mut FramedWrite,
    stream_id: StreamId,
    headers: Iter,
    encoded: Encode,
    bytes: &[u8],
)
    requires
        call_ensures(
            FramedWrite::finish_continuation,
            (write, stream_id, headers, encoded, bytes),
            (),
        ),
        old(write)@.next is None,
        bytes@.len() < 0x100_0000,
    ensures
        ({
            let m = old(write)@;
            let after = final(write)@;
            &&& after.buf.len() >= m.buf.len() && after.buf.take(m.buf.len() as int) == m.buf
            &&& reads_as(
                after.buf.skip(m.buf.len() as int),
                9,
                if encoded is Full {
                    4
                } else {
                    0
                },
                stream_id.0 as int,
                bytes@,
            )
            &&& encoded is Full ==> after.next is None
            &&& encoded matches Encode::Partial(hpack) ==> after.next == Some(
                Next::Continuation(Continuation { stream_id, hpack, headers }),
            )
            &&& after == (FramedWriteModel { buf: after.buf, next: after.next, ..m })
        }),
{
    let m = old(write)@;
    let after = final(write)@;
    let n = m.buf.len() as int;
    let head = crate::frame::Head {
        kind: crate::frame::Kind::Continuation,
        flag: if encoded is Full {
            4
        } else {
            0
        },
        stream_id,
    };
    let wire = head.wire(bytes@.len() as int);
    assert(after.buf == m.buf + wire + bytes@);
    assert(after.buf.take(n) =~= m.buf);
    assert(after.buf.skip(n) =~= wire + bytes@);
    crate::frame::laws::frames_read(head, bytes@);
}

/// There is something to write as long as the buffer has bytes that were not written, or data is
/// kept; then headers that are kept are to be encoded; only when there is neither is the transport
/// flushed.
pub proof fn flushing_comes_last(write: FramedWrite, r: FlushStep, bytes: &[u8])
    requires
        call_ensures(FramedWrite::poll_complete, (&write,), r),
        call_ensures(FramedWrite::pending, (&write,), bytes),
        write@.wf(),
    ensures
        ({
            let m = write@;
            let written = m.pos == m.buf.len();
            &&& r is Write <==> bytes@.len() > 0
            &&& r is Write <==> !written || (m.next matches Some(Next::Data { .. }))
            &&& r is EncodeContinuation <==> written && (m.next matches Some(
                Next::Continuation(_),
            ))
            &&& r is Flush <==> written && m.next is None
            &&& !written ==> bytes@ == m.buf.skip(m.pos)
            &&& written ==> (m.next matches Some(Next::Data { frame_len, sent, data }) ==> bytes@
                == data@.payload.skip(sent as int).take(frame_len as int))
        }),
{
    if let Some(Next::Data { frame_len, sent, data }) = write@.next {
        assert(data@.payload.skip(sent as int).take(frame_len as int)
            =~= data@.payload.subrange(sent as int, sent + frame_len));
    }
}

/// What the transport took of the buffer is written, and the rest stays. What it took of the data
/// of a frame is sent; when that was all of the frame, the next frame starts: it is as large as the
/// peer takes, or all that is left, and ends the stream only with the last of the data.
pub proof fn written_bytes_are_gone(write: &mut FramedWrite, n: usize)
    requires
        call_ensures(FramedWrite::wrote, (write, n), ()),
        old(write)@.wf(),
        n <= old(write)@.pending().len(),
    ensures
        ({
            let m = old(write)@;
            let after = final(write)@;
            &&& m.pos < m.buf.len() ==> after == (FramedWriteModel {
                pos: after.pos,
                ..m
            }) && after.pos == m.pos + n
            &&& m.pos == m.buf.len() ==> match m.next {
                Some(Next::Data { frame_len, sent, data }) => {
                    let payload = data@.payload;
                    let left = payload.len() - sent - n;
                    if n < frame_len {
                        &&& after.next matches Some(Next::Data { frame_len: l, sent: s, data: d })
                        &&& l + n == frame_len && s == sent + n && d == data
                        &&& after == (FramedWriteModel { next: after.next, ..m })
                    } else if left == 0 {
                        &&& after.next is None
                        &&& after == (FramedWriteModel { next: None, ..m })
                    } else {
                        &&& after.next matches Some(Next::Data { frame_len: l, sent: s, data: d })
                        &&& s == sent + n && d == data
                        &&& l == left || l == m.max_frame_size
                        &&& l <= left && l <= m.max_frame_size
                        &&& after.pos == 0
                        &&& reads_as(
                            after.buf + payload.skip(s as int).take(l as int),
                            0,
                            if data@.end_stream && l == left {
                                1
                            } else {
                                0
                            },
                            data@.stream_id.0 as int,
                            payload.skip(s as int).take(l as int),
                        )
                        &&& after == (FramedWriteModel {
                            buf: after.buf,
                            pos: 0,
                            next: after.next,
                            ..m
                        })
                    }
                },
                _ => after == m,
            }
        }),
{
    let m = old(write)@;
    let after = final(write)@;
    if let Some(Next::Data { frame_len, sent, data }) = m.next {
        let done = sent + n;
        let left = data@.payload.len() - done;
        if m.pos == m.buf.len() && n == frame_len && left > 0 {
            let len = if m.max_frame_size <= left {
                m.max_frame_size as int
            } else {
                left
            };
            let part = super::framed_write::part(data@, done, len);
            assert(part.payload =~= data@.payload.skip(done).take(len));
            crate::frame::laws::frames_read(part.head(), part.payload);
        }
    }
}

/// When the transport is flushed, the buffer is empty, and nothing else has changed.
pub proof fn flushed_writers_are_empty(write: &mut FramedWrite)
    requires
        call_ensures(FramedWrite::flushed, (write,), ()),
    ensures
        final(write)@.buf.len() == 0 && final(write)@.pos == 0,
        final(write)@ == (FramedWriteModel {
            buf: final(write)@.buf,
            pos: 0,
            ..old(write)@
        }),
{
}

/// Data is cut into frames as large as the peer takes: only the last one can be smaller.
pub proof fn data_is_cut_as_large_as_the_peer_takes(
    data: crate::frame::data::DataModel,
    from: int,
    max: int,
)
    requires
        0 < max,
        0 <= from < data.payload.len(),
    ensures
        ({
            let frames = super::framed_write::parts(data, from, max);
            forall|i: int|
                0 <= i < frames.len() - 1 ==> (#[trigger] frames[i]).payload.len() == max
        }),
    decreases data.payload.len() - from,
{
    let frames = super::framed_write::parts(data, from, max);
    let left = data.payload.len() - from;
    if left > max {
        data_is_cut_as_large_as_the_peer_takes(data, from + max, max);
        let rest = super::framed_write::parts(data, from + max, max);
        assert(frames == seq![super::framed_write::part(data, from, max)] + rest);
        assert forall|i: int| 0 <= i < frames.len() - 1 implies (#[trigger] frames[i]).payload.len()
            == max by {
            if i > 0 {
                assert(frames[i] == rest[i - 1]);
            }
        }
    } else {
        super::framed_write::data_is_written_in_full(data, from, max);
    }
}

} // verus!
