//! What each operation does to a connection, by what is pending before and after it.

use super::connection::{
    CompleteEvent, CompleteStep, Connection, ConnectionModel, Control, PollStep, ReadyEvent,
    ReadyStep, RecvEvent, RecvStep, State,
};
use super::ping_pong::PingPongModel;
use super::settings::Settings;
use super::state_laws::{after_headers, local_side, remote_side};
use super::stream_laws::{
    has_no_pseudo, is_own, new_streams_start, others_stay, rest_stays, starts,
};
use super::streams::{Config, StreamsModel};
use super::{Async, Peer};
use crate::client::{SentStream, StreamKey};
use crate::error::{ConnectionError, Reason, RecvError, User};
use crate::frame::ping::PingModel;
use crate::frame::{self, Frame, GoAway, Headers, StreamId};
use crate::header::header_fields;
use crate::message::{Request, Version};
use vstd::prelude::*;

verus! {

/// A connection starts open, with nothing to send and no streams. What the local settings say of
/// the windows of streams and of their number holds for what the remote side sends and opens; the
/// rest has the sizes that HTTP/2 starts with. The first stream of a client is 1, that of a server
/// 2.
pub proof fn connections_start_open<P: Peer>(local: frame::Settings, r: Connection)
    requires
        call_ensures(Connection::new::<P>, (local,), r),
    ensures
        r.wf(),
        starts_open(
            P::spec_is_server(),
            local,
            if P::spec_is_server() {
                2
            } else {
                1
            },
            r@,
        ),
{
    new_streams_start(P::spec_is_server(), configured(local), 65_535, 65_535);
}

/// The same where the first stream has another ID.
pub proof fn connections_start_at_a_stream<P: Peer>(
    local: frame::Settings,
    next_stream_id: StreamId,
    r: Connection,
)
    requires
        call_ensures(Connection::with_stream_id::<P>, (local, next_stream_id), r),
    ensures
        r.wf(),
        starts_open(P::spec_is_server(), local, next_stream_id.0, r@),
{
    new_streams_start(P::spec_is_server(), configured(local), 65_535, 65_535);
}

/// What streams are set up with by the local settings.
pub open spec fn configured(local: frame::Settings) -> Config {
    Config {
        max_remote_initiated: match local.max_concurrent_streams {
            Some(max) => Some(max as usize),
            None => None,
        },
        init_remote_window_sz: match local.initial_window_size {
            Some(size) => size,
            None => 65_535,
        },
        max_local_initiated: None,
        init_local_window_sz: 65_535,
    }
}

/// True of a connection as it starts.
pub open spec fn starts_open(
    is_server: bool,
    local: frame::Settings,
    first: u32,
    m: ConnectionModel,
) -> bool {
    &&& m.state == State::Open
    &&& !m.ping_pong.is_closed && m.ping_pong.pongs.len() == 0
    &&& m.settings.pending is None && m.settings.remote is None
    &&& starts(is_server, configured(local), 65_535, 65_535, m.streams)
    &&& m.next_stream_id.0 == first
}

/// A request can be sent on a new stream as long as fewer are open than the remote side allows.
pub proof fn requests_can_be_sent_below_the_limit(conn: Connection, r: Async<()>)
    requires
        call_ensures(Connection::poll_send_request_ready, (&conn,), r),
    ensures
        r is NotReady <==> (conn@.streams.max_local_initiated matches Some(max)
            && conn@.streams.num_local_initiated >= max),
{
}

/// True if the HEADERS frame carries the request: its method, its fields, and the parts of its URI;
/// the path is `/` where the URI has none. The scheme is `http` where the URI is relative.
pub open spec fn carries(frame: Headers, request: Request, end_of_stream: bool) -> bool {
    let pseudo = frame@.pseudo;
    let uri = request.uri@;
    &&& pseudo.method == Some(request.method@)
    &&& pseudo.status is None
    &&& pseudo.authority == uri.authority
    &&& uri.path_and_query matches Some(path) ==> pseudo.path == Some(path)
    &&& uri.path_and_query is None ==> pseudo.path == Some("/"@)
    &&& uri.scheme matches Some(scheme) ==> pseudo.scheme == Some(scheme)
    &&& uri.scheme is None && uri.authority is None ==> pseudo.scheme == Some("http"@)
    &&& uri.scheme is None && uri.authority is Some ==> pseudo.scheme is None
    &&& frame@.fields == header_fields(request.headers)
    &&& frame@.flags.0 == if end_of_stream {
        5u8
    } else {
        4
    }
    &&& frame@.stream_dep is None
}

/// A request is sent on the next stream of the local side, and the one after it is two further. It
/// is not sent where there is no stream ID left, where its URI is relative though it is an HTTP/2
/// request, or where the stream cannot be opened or has headers already; then nothing changes.
pub proof fn requests_open_streams(
    conn: &mut Connection,
    request: Request,
    end_of_stream: bool,
    r: Result<(SentStream, Headers), ConnectionError>,
)
    requires
        call_ensures(Connection::send_request, (conn, request, end_of_stream), r),
        old(conn).wf(),
        old(conn)@.streams.wf(),
    ensures
        ({
            let m = old(conn)@;
            let after = final(conn)@;
            let id = m.next_stream_id;
            let known = m.streams.streams.contains_key(id.0);
            let has_headers = known && !(local_side(m.streams.streams[id.0]) is Headers);
            let foreign = !known && !is_own(m.streams, id);
            let full = m.streams.max_local_initiated matches Some(max)
                && m.streams.num_local_initiated >= max;
            let stream = after.streams.streams[id.0];
            let failure = if id.0 >= 0x8000_0000 {
                Some(User::OverflowedStreamId)
            } else if request.uri@.scheme is None && request.uri@.authority is None
                && request.version == Version::Http2 {
                Some(User::MissingUriSchemeAndAuthority)
            } else if id.0 == 0 {
                Some(User::InvalidStreamId)
            } else if has_headers || foreign {
                Some(User::UnexpectedFrameType)
            } else if !known && full {
                Some(User::Rejected)
            } else {
                None
            };
            match failure {
                Some(user) => {
                    &&& r == Err::<(SentStream, Headers), ConnectionError>(
                        ConnectionError::User(user),
                    )
                    &&& after == m
                },
                None => {
                    &&& r is Ok
                    &&& r->Ok_0.0.key == StreamKey(id.0) && !r->Ok_0.0.is_pending_open
                    &&& r->Ok_0.1@.stream_id == id
                    &&& carries(r->Ok_0.1, request, end_of_stream)
                    &&& after.next_stream_id.0 == id.0 + 2
                    &&& after.streams.streams.contains_key(id.0)
                    &&& local_side(stream) == after_headers(
                        m.streams.init_local_window_sz,
                        end_of_stream,
                    )
                    &&& !known ==> {
                        &&& remote_side(stream) is Headers
                        &&& after.streams.num_local_initiated == m.streams.num_local_initiated + 1
                        &&& after.streams.num_remote_initiated == m.streams.num_remote_initiated
                    }
                    &&& others_stay(m.streams, after.streams, id.0)
                    &&& rest_stays(m.streams, after.streams)
                    &&& after == (ConnectionModel {
                        streams: after.streams,
                        next_stream_id: after.next_stream_id,
                        ..m
                    })
                },
            }
        }),
{
    let m = old(conn)@;
    let id = m.next_stream_id;
    if !m.streams.streams.contains_key(id.0) {
        super::streams::opening_keeps_wf(m.streams, id);
    }
    assert(4u8 | 1 == 5) by (bit_vector);
    assert(5u8 & 1 == 1 && 4u8 & 1 == 0) by (bit_vector);
}

/// The streams of the remote side are handed out in the order in which they came, each once.
pub proof fn incoming_streams_come_in_order(conn: &mut Connection, r: Option<StreamKey>)
    requires
        call_ensures(Connection::next_incoming, (conn,), r),
    ensures
        ({
            let before = old(conn)@.streams.incoming;
            let after = final(conn)@.streams.incoming;
            &&& r is Some <==> before.len() > 0
            &&& r matches Some(key) ==> seq![StreamId(key.0)] + after == before
            &&& r is None ==> after == before
            &&& final(conn)@ == (ConnectionModel {
                streams: StreamsModel { incoming: after, ..old(conn)@.streams },
                ..old(conn)@
            })
        }),
{
    let before = old(conn)@.streams.incoming;
    if before.len() > 0 {
        assert(seq![before[0]] + before.skip(1) =~= before);
    }
}

/// The connection after the transport took a frame: where that acknowledged settings, they are the
/// settings of the remote side from now on, and what they say of streams that the local side opens
/// holds.
pub open spec fn took(m: ConnectionModel, after: ConnectionModel, control: Control) -> bool {
    if control is SettingsAck {
        let settings = m.settings.pending->0;
        &&& after.settings.remote == m.settings.pending
        &&& after.settings.pending is None
        &&& settings.max_concurrent_streams matches Some(max)
            ==> after.streams.max_local_initiated == Some(max as usize)
        &&& settings.max_concurrent_streams is None ==> after.streams.max_local_initiated
            == m.streams.max_local_initiated
        &&& settings.initial_window_size matches Some(size)
            ==> after.streams.init_local_window_sz == size
        &&& settings.initial_window_size is None ==> after.streams.init_local_window_sz
            == m.streams.init_local_window_sz
        &&& after == (ConnectionModel {
            settings: after.settings,
            streams: StreamsModel {
                max_local_initiated: after.streams.max_local_initiated,
                init_local_window_sz: after.streams.init_local_window_sz,
                ..m.streams
            },
            ..m
        })
    } else {
        after == m
    }
}

/// True if this is what a connection does next that is `m`: it sends the oldest answer to a ping,
/// else the acknowledgement of settings, else the refusal of a stream; if there is none of these,
/// it is ready.
pub open spec fn sends_next(m: ConnectionModel, step: ReadyStep, after: ConnectionModel) -> bool {
    let pongs = m.ping_pong.pongs;
    if pongs.len() > 0 {
        &&& step matches ReadyStep::Send(Control::Pong, Frame::Ping(pong)) && pong@ == pongs[0]
        &&& seq![pongs[0]] + after.ping_pong.pongs == pongs
        &&& after == (ConnectionModel {
            ping_pong: PingPongModel { pongs: after.ping_pong.pongs, ..m.ping_pong },
            ..m
        })
    } else if m.settings.pending is Some {
        &&& step matches ReadyStep::Send(Control::SettingsAck, Frame::Settings(ack)) && ack.ack
            && ack.header_table_size is None && ack.enable_push is None
            && ack.max_concurrent_streams is None && ack.initial_window_size is None
            && ack.max_frame_size is None && ack.max_header_list_size is None
        &&& after == m
    } else if m.streams.refused is Some {
        &&& step matches ReadyStep::Send(Control::Refusal, Frame::Reset(reset)) && Some(
            reset.stream_id,
        ) == m.streams.refused && reset.reason == Reason::RefusedStream
        &&& after == (ConnectionModel {
            streams: StreamsModel { refused: None, ..m.streams },
            ..m
        })
    } else {
        &&& step matches ReadyStep::Done(answer) && answer is Ready
        &&& after == m
    }
}

/// Before a frame is received, everything is sent that answers those before it: pongs, then the
/// acknowledgement of settings, then refusals. What the transport hands back is sent again, before
/// anything else of its kind.
pub proof fn answers_are_sent_first(conn: &mut Connection, event: ReadyEvent, r: ReadyStep)
    requires
        call_ensures(Connection::poll_ready, (conn, event), r),
        old(conn).wf(),
        old(conn)@.expects(event),
    ensures
        ({
            let m = old(conn)@;
            let after = final(conn)@;
            match event {
                ReadyEvent::Start => sends_next(m, r, after),
                ReadyEvent::Taken(control) => exists|sent: ConnectionModel| #[trigger]
                    took(m, sent, control) && sends_next(sent, r, after),
                ReadyEvent::NotTaken(control, frame) => {
                    &&& r matches ReadyStep::Done(answer) && answer is NotReady
                    &&& control is Pong ==> frame is Ping && after.ping_pong.pongs == seq![
                        frame->Ping_0@,
                    ] + m.ping_pong.pongs && after == (ConnectionModel {
                        ping_pong: PingPongModel {
                            pongs: after.ping_pong.pongs,
                            ..m.ping_pong
                        },
                        ..m
                    })
                    &&& control is SettingsAck ==> after == m
                    &&& control is Refusal ==> frame is Reset && after == (ConnectionModel {
                        streams: StreamsModel {
                            refused: Some(frame->Reset_0.stream_id),
                            ..m.streams
                        },
                        ..m
                    })
                },
            }
        }),
{
    let m = old(conn)@;
    let after = final(conn)@;
    match event {
        ReadyEvent::Start => {
            if m.ping_pong.pongs.len() > 0 {
                assert(seq![m.ping_pong.pongs[0]] + m.ping_pong.pongs.skip(1)
                    =~= m.ping_pong.pongs);
            }
        },
        ReadyEvent::Taken(control) => {
            let sent = m.control_sent(control);
            assert(took(m, sent, control));
            if sent.ping_pong.pongs.len() > 0 {
                assert(seq![sent.ping_pong.pongs[0]] + sent.ping_pong.pongs.skip(1)
                    =~= sent.ping_pong.pongs);
            }
            assert(sends_next(sent, r, after));
        },
        _ => {},
    }
}

/// An open connection receives; one that has failed is completed until the remote side is told, and
/// then reports why it failed.
pub proof fn connections_advance(conn: Connection, r: PollStep, state: State, error: Option<Reason>)
    requires
        call_ensures(Connection::poll, (&conn,), r),
        call_ensures(Connection::state, (&conn,), state),
        call_ensures(State::error, (&state,), error),
    ensures
        state == conn@.state,
        match state {
            State::Open => r is Receive && error is None,
            State::GoAway(_) => r is Complete && error is None,
            State::Flush(_) => r is Complete && error is None,
            State::Error(reason) => r == PollStep::Fail(ConnectionError::Proto(reason)) && error
                == Some(reason),
        },
{
}

/// Every frame can be received but resets and announcements of streams; headers that would open a
/// stream while one waits to be refused; data that no window can hold; and window updates beyond
/// what a window can count.
pub proof fn frames_can_be_received(conn: Connection, frame: Frame, r: bool)
    requires
        call_ensures(Connection::can_recv, (&conn, &frame), r),
    ensures
        ({
            let m = conn@.streams;
            r == match frame {
                Frame::Reset(_) => false,
                Frame::PushPromise(_) => false,
                Frame::Headers(headers) => m.refused is None || headers@.stream_id.0 == 0
                    || has_no_pseudo(headers) || m.streams.contains_key(headers@.stream_id.0),
                Frame::Data(data) => data@.payload.len() < 0x8000_0000,
                Frame::WindowUpdate(update) => {
                    let id = update.stream_id.0;
                    let side = local_side(m.streams[id]);
                    let flow = m.send_flow_control;
                    if id == 0 {
                        flow.window_size + flow.next_window_update + update.size_increment
                            < 0x1_0000_0000
                    } else {
                        m.streams.contains_key(id) && side is Data ==> side->window
                            + side->expansion + update.size_increment < 0x1_0000_0000
                    }
                },
                _ => true,
            }
        }),
{
    if let Frame::WindowUpdate(update) = frame {
        super::state_laws::windows_belong_to_sides(
            conn@.streams.streams[update.stream_id.0],
            conn@.streams.send_flow_control,
        );
    }
}

/// A frame that is received is acted upon where it belongs, and nowhere else. Headers and data are
/// handed on, unless the streams refuse them or they are an error; settings wait to be
/// acknowledged; a ping waits to be answered; window updates expand windows, and wake the task that
/// waits for them. Acknowledgements, priorities and GO_AWAY frames change nothing.
pub proof fn frames_are_acted_upon(conn: &mut Connection, frame: Frame, r: RecvStep)
    requires
        call_ensures(Connection::recv, (conn, RecvEvent::Frame(Some(frame))), r),
        old(conn).wf(),
        old(conn)@.supports(frame),
    ensures
        ({
            let m = old(conn)@;
            let after = final(conn)@;
            match frame {
                Frame::Headers(headers) => {
                    let (answer, streams) = m.streams.recv_headers(
                        headers@.stream_id,
                        has_no_pseudo(headers),
                        headers@.flags.0 & 1 == 1,
                    );
                    &&& answer is Ok && answer->Ok_0 <==> r == RecvStep::Deliver(frame)
                    &&& answer is Ok && !answer->Ok_0 <==> r is Continue
                    &&& answer matches Err(err) ==> r == RecvStep::Return(Err(err))
                    &&& after == (ConnectionModel { streams, ..m })
                },
                Frame::Data(data) => {
                    let (answer, streams) = m.streams.recv_data(
                        data@.stream_id,
                        data@.payload.len() as u32,
                        data@.end_stream,
                    );
                    &&& answer is Ok <==> r == RecvStep::Deliver(frame)
                    &&& answer matches Err(err) ==> r == RecvStep::Return(Err(err))
                    &&& after == (ConnectionModel { streams, ..m })
                },
                Frame::WindowUpdate(update) => {
                    let (waits, streams) = m.streams.recv_window_update(update);
                    &&& r is Notify <==> waits
                    &&& r is Continue <==> !waits
                    &&& after == (ConnectionModel { streams, ..m })
                },
                Frame::Settings(settings) => {
                    &&& r is Continue
                    &&& settings.ack ==> after == m
                    &&& !settings.ack ==> after == (ConnectionModel {
                        settings: Settings { pending: Some(settings), remote: m.settings.remote },
                        ..m
                    })
                },
                Frame::Ping(ping) => {
                    &&& r is Continue
                    &&& ping@.ack ==> after == m
                    &&& !ping@.ack ==> after == (ConnectionModel {
                        ping_pong: PingPongModel {
                            pongs: m.ping_pong.pongs.push(
                                PingModel { ack: true, payload: ping@.payload },
                            ),
                            is_closed: m.ping_pong.is_closed,
                        },
                        ..m
                    })
                },
                Frame::GoAway(_) => r is Continue && after == m,
                Frame::Priority(_) => r is Continue && after == m,
                _ => true,
            }
        }),
{
    if let Frame::Headers(headers) = frame {
        assert(has_no_pseudo(headers) == headers@.is_trailers());
    }
}

/// The end of the transport ends the connection, and nothing to be read is a time to flush. A
/// failure is reported, or costs the stream that it happened on; and none of this changes anything.
pub proof fn failures_are_reported(conn: &mut Connection, event: RecvEvent, r: RecvStep)
    requires
        call_ensures(Connection::recv, (conn, event), r),
        !(event matches RecvEvent::Frame(Some(_))),
    ensures
        final(conn)@ == old(conn)@,
        match event {
            RecvEvent::Frame(_) => r matches RecvStep::Return(Ok(answer)) && answer is Ready,
            RecvEvent::NotReady => r is Flush,
            RecvEvent::Failed(RecvError::Connection(reason)) => r == RecvStep::Return(
                Err(ConnectionError::Proto(reason)),
            ),
            RecvEvent::Failed(RecvError::Stream { id, reason }) => r == (RecvStep::ResetStream {
                id,
                reason,
            }),
            RecvEvent::Failed(RecvError::Io(kind)) => r == RecvStep::Return(
                Err(ConnectionError::Io(kind)),
            ),
        },
{
}

/// An open connection that fails by a protocol error tells the remote side, with the reason and the
/// last stream of that side; any other error is reported at once. The streams keep the first
/// failure. A connection that is not open is left as it is.
pub proof fn failures_are_told(
    conn: &mut Connection,
    err: ConnectionError,
    r: Option<ConnectionError>,
)
    requires
        call_ensures(Connection::recv_failed, (conn, err), r),
    ensures
        ({
            let m = old(conn)@;
            let after = final(conn)@;
            let told = after.streams.failure;
            &&& !(m.state is Open) ==> r is None && after == m
            &&& m.state is Open ==> {
                &&& m.streams.failure is None ==> told == Some(err)
                &&& m.streams.failure is Some ==> told == m.streams.failure
                &&& after == (ConnectionModel {
                    state: after.state,
                    streams: StreamsModel { failure: told, ..m.streams },
                    ..m
                })
                &&& err matches ConnectionError::Proto(reason) ==> r is None && after.state
                    == State::GoAway(
                    GoAway { last_stream_id: m.streams.last_processed_id, reason },
                )
                &&& !(err is Proto) ==> r == Some(err) && after.state == State::Open
            }
        }),
{
}

/// A connection that has failed sends the GO_AWAY frame until the transport takes it, then flushes
/// until that is done, and has then told the remote side; each step is made only when the one
/// before it is done, and the reason stays. An open connection sends what is pending.
pub proof fn failures_are_completed(conn: &mut Connection, event: CompleteEvent, r: CompleteStep)
    requires
        call_ensures(Connection::poll_complete, (conn, event), r),
    ensures
        ({
            let before = old(conn)@.state;
            let after = final(conn)@.state;
            &&& final(conn)@ == (ConnectionModel { state: after, ..old(conn)@ })
            &&& event is NotReady ==> after == before && r is Done && r->Done_0 is NotReady
            &&& !(event is NotReady) ==> match before {
                State::Open => after == before && r is SendPending,
                State::GoAway(frame) => if event is Taken {
                    after == State::Flush(frame.reason) && r is Flush
                } else {
                    after == before && r == CompleteStep::Send(Frame::GoAway(frame))
                },
                State::Flush(reason) => if event is Flushed {
                    after == State::Error(reason) && r is Done && r->Done_0 is Ready
                } else {
                    after == before && r is Flush
                },
                State::Error(_) => after == before && r is Done && r->Done_0 is Ready,
            }
        }),
{
}

} // verus!
