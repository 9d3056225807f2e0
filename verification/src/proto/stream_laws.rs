//! What each operation does to the streams of a connection, by what can be sent on them before and
//! after it.

use super::state::{FlowControl, Stream};
use super::state_laws::{
    after_headers, local_side, remote_side, windows_belong_to_sides, Side,
};
use super::streams::{find, found_is_first, Config, Streams, StreamsModel};
use super::{Async, AsyncSink, Peer, WindowSize};
use crate::error::{ConnectionError, Reason, User};
use crate::frame::{Data, Headers, Reset, Settings, StreamId, WindowUpdate};
use vstd::prelude::*;

verus! {

/// The error of a remote side that breaks the protocol.
pub open spec fn protocol_error() -> ConnectionError {
    ConnectionError::Proto(Reason::ProtocolError)
}

/// True if the frame says that nothing follows it on its stream.
pub open spec fn ends_stream(frame: Headers) -> bool {
    frame@.flags.0 & 0x1 == 0x1
}

/// True if the frame has no pseudo header.
pub open spec fn has_no_pseudo(frame: Headers) -> bool {
    let pseudo = frame@.pseudo;
    &&& pseudo.method is None
    &&& pseudo.scheme is None
    &&& pseudo.authority is None
    &&& pseudo.path is None
    &&& pseudo.status is None
}

/// True if the ID is one of those that the local side uses: a server even ones, a client odd ones.
pub open spec fn is_own(m: StreamsModel, id: StreamId) -> bool {
    if m.is_server {
        id.0 % 2 == 0
    } else {
        id.0 % 2 == 1
    }
}

/// True if all streams but one are as before.
pub open spec fn others_stay(m: StreamsModel, after: StreamsModel, id: u32) -> bool {
    forall|other: u32|
        #![trigger after.streams[other]]
        #![trigger after.streams.contains_key(other)]
        #![trigger m.streams.contains_key(other)]
        other != id ==> m.streams.contains_key(other) == after.streams.contains_key(other) && (
        m.streams.contains_key(other) ==> after.streams[other] == m.streams[other])
}

/// A counter after a stream of its own has closed or not.
pub open spec fn counted(n: usize, of_this_side: bool, stream: Stream) -> int {
    if of_this_side && local_side(stream) is Nothing && remote_side(stream) is Nothing {
        n - 1
    } else {
        n as int
    }
}

/// True if only the state of this stream is another one, and the streams are counted as that asks.
pub open spec fn only_moves(m: StreamsModel, after: StreamsModel, id: StreamId) -> bool {
    let stream = after.streams[id.0];
    &&& m.streams.contains_key(id.0) && after.streams.contains_key(id.0)
    &&& others_stay(m, after, id.0)
    &&& after.num_local_initiated == counted(m.num_local_initiated, is_own(m, id), stream)
    &&& after.num_remote_initiated == counted(m.num_remote_initiated, !is_own(m, id), stream)
}

/// True if `after` is `m` but for the states of streams and their counters.
pub open spec fn rest_stays(m: StreamsModel, after: StreamsModel) -> bool {
    after == (StreamsModel {
        streams: after.streams,
        num_local_initiated: after.num_local_initiated,
        num_remote_initiated: after.num_remote_initiated,
        ..m
    })
}

/// Headers are received. On a stream that is there, they are the headers of the remote side, which
/// must not have sent any, or its trailers, which must follow data and end the stream. On one that
/// is not there, they open it, if it is one of the remote side, and there is room for it: else it
/// is refused. Whatever else they are, they are a protocol error and change nothing.
pub proof fn received_headers(
    streams: &mut Streams,
    frame: Headers,
    r: Result<Option<Headers>, ConnectionError>,
)
    requires
        call_ensures(Streams::recv_headers, (streams, frame), r),
        old(streams)@.wf(),
    ensures
        ({
            let m = old(streams)@;
            let after = final(streams)@;
            let id = frame@.stream_id;
            let before = m.streams[id.0];
            let stream = after.streams[id.0];
            let opens = !has_no_pseudo(frame) && id.0 != 0 && !is_own(m, id);
            if m.streams.contains_key(id.0) && has_no_pseudo(frame) && ends_stream(frame)
                && remote_side(before) is Data {
                &&& r == Ok::<Option<Headers>, ConnectionError>(Some(frame))
                &&& remote_side(stream) is Nothing
                &&& local_side(stream) == local_side(before)
                &&& only_moves(m, after, id) && rest_stays(m, after)
            } else if m.streams.contains_key(id.0) && !has_no_pseudo(frame) && remote_side(
                before,
            ) is Headers {
                &&& r == Ok::<Option<Headers>, ConnectionError>(Some(frame))
                &&& remote_side(stream) == after_headers(
                    m.init_remote_window_sz,
                    ends_stream(frame),
                )
                &&& local_side(stream) == local_side(before)
                &&& only_moves(m, after, id) && rest_stays(m, after)
            } else if m.streams.contains_key(id.0) || !opens {
                r == Err::<Option<Headers>, ConnectionError>(protocol_error()) && after == m
            } else if m.max_remote_initiated matches Some(max) && m.num_remote_initiated >= max {
                &&& r == Ok::<Option<Headers>, ConnectionError>(None)
                &&& after == (StreamsModel { refused: Some(id), ..m })
            } else {
                &&& r == Ok::<Option<Headers>, ConnectionError>(Some(frame))
                &&& after.streams.contains_key(id.0)
                &&& remote_side(stream) == after_headers(
                    m.init_remote_window_sz,
                    ends_stream(frame),
                )
                &&& local_side(stream) is Headers
                &&& others_stay(m, after, id.0)
                &&& after.num_remote_initiated == m.num_remote_initiated + 1
                &&& after.num_local_initiated == m.num_local_initiated
                &&& after.incoming == m.incoming.push(id)
                &&& after.last_processed_id == id || after.last_processed_id
                    == m.last_processed_id
                &&& after.last_processed_id.0 >= id.0 && after.last_processed_id.0
                    >= m.last_processed_id.0
                &&& rest_stays(
                    StreamsModel {
                        incoming: after.incoming,
                        last_processed_id: after.last_processed_id,
                        ..m
                    },
                    after,
                )
            }
        }),
{
    let m = old(streams)@;
    let id = frame@.stream_id;
    if !m.streams.contains_key(id.0) {
        super::streams::opening_keeps_wf(m, id);
    } else if !(m.streams[id.0] is Closed) {
        super::streams::with_stream_keeps_wf(m, id, Stream::Closed);
    }
}

/// Headers are sent. On a stream that is there, they are the headers of the local side, which must
/// not have sent any, or its trailers, which must follow data and end the stream. On one that is
/// not there, they open it, if it is one of the local side, and there is room for it: else it is
/// rejected. Whatever else they are, they are unexpected; and an error changes nothing.
pub proof fn sent_headers(
    streams: &mut Streams,
    frame: &Headers,
    r: Result<(), ConnectionError>,
)
    requires
        call_ensures(Streams::send_headers, (streams, frame), r),
        old(streams)@.wf(),
    ensures
        ({
            let m = old(streams)@;
            let after = final(streams)@;
            let id = frame@.stream_id;
            let before = m.streams[id.0];
            let stream = after.streams[id.0];
            let trailers = has_no_pseudo(*frame);
            let eos = ends_stream(*frame);
            if id.0 == 0 {
                r == Err::<(), ConnectionError>(ConnectionError::User(User::InvalidStreamId))
                    && after == m
            } else if m.streams.contains_key(id.0) && trailers && eos && local_side(
                before,
            ) is Data {
                &&& r is Ok
                &&& local_side(stream) is Nothing
                &&& remote_side(stream) == remote_side(before)
                &&& only_moves(m, after, id) && rest_stays(m, after)
            } else if m.streams.contains_key(id.0) && !trailers && local_side(before) is Headers {
                &&& r is Ok
                &&& local_side(stream) == after_headers(m.init_local_window_sz, eos)
                &&& remote_side(stream) == remote_side(before)
                &&& only_moves(m, after, id) && rest_stays(m, after)
            } else if m.streams.contains_key(id.0) || trailers || !is_own(m, id) {
                r == Err::<(), ConnectionError>(ConnectionError::User(User::UnexpectedFrameType))
                    && after == m
            } else if m.max_local_initiated matches Some(max) && m.num_local_initiated >= max {
                r == Err::<(), ConnectionError>(ConnectionError::User(User::Rejected)) && after
                    == m
            } else {
                &&& r is Ok
                &&& after.streams.contains_key(id.0)
                &&& local_side(stream) == after_headers(m.init_local_window_sz, eos)
                &&& remote_side(stream) is Headers
                &&& others_stay(m, after, id.0)
                &&& after.num_local_initiated == m.num_local_initiated + 1
                &&& after.num_remote_initiated == m.num_remote_initiated
                &&& rest_stays(m, after)
            }
        }),
{
    let m = old(streams)@;
    let id = frame@.stream_id;
    if !m.streams.contains_key(id.0) {
        super::streams::opening_keeps_wf(m, id);
    } else if !(m.streams[id.0] is Closed) {
        super::streams::with_stream_keeps_wf(m, id, Stream::Closed);
    }
}

/// What a side can send after it sent so much data.
pub open spec fn after_data(side: Side, sz: int, eos: bool) -> Side {
    if eos {
        Side::Nothing
    } else {
        Side::Data {
            window: (side->window - sz) as WindowSize,
            expansion: side->expansion,
        }
    }
}

/// Data is received exactly where the remote side can send data, and no more than fits into the
/// window of the stream and into that of the connection. Both shrink by as much, which waits to be
/// released; and with the end of the stream the remote side can send nothing more.
pub proof fn received_data(streams: &mut Streams, frame: &Data, r: Result<(), ConnectionError>)
    requires
        call_ensures(Streams::recv_data, (streams, frame), r),
        old(streams)@.wf(),
        frame@.payload.len() <= 0x7fff_ffff,
    ensures
        ({
            let m = old(streams)@;
            let after = final(streams)@;
            let id = frame@.stream_id;
            let len = frame@.payload.len() as int;
            let before = m.streams[id.0];
            let side = remote_side(before);
            let stream = after.streams[id.0];
            if !m.streams.contains_key(id.0) || !(side is Data) {
                r == Err::<(), ConnectionError>(protocol_error()) && after == m
            } else if len > side->window || len > m.recv_flow_control.window_size {
                &&& r == Err::<(), ConnectionError>(
                    ConnectionError::Proto(Reason::FlowControlError),
                )
                &&& after == m
            } else {
                &&& r is Ok
                &&& remote_side(stream) == after_data(side, len, frame@.end_stream)
                &&& local_side(stream) == local_side(before)
                &&& only_moves(m, after, id)
                &&& after.recv_flow_control.window_size + len == m.recv_flow_control.window_size
                &&& after.recv_flow_control.next_window_update
                    == m.recv_flow_control.next_window_update
                &&& after.in_flight_data == m.in_flight_data + len
                &&& rest_stays(
                    StreamsModel {
                        recv_flow_control: after.recv_flow_control,
                        in_flight_data: after.in_flight_data,
                        ..m
                    },
                    after,
                )
            }
        }),
{
    let m = old(streams)@;
    let id = frame@.stream_id;
    if m.streams.contains_key(id.0) && !(m.streams[id.0] is Closed) {
        super::streams::with_stream_keeps_wf(m, id, Stream::Closed);
    }
}

/// Data is sent exactly where the local side can send data, and no more than fits into the window
/// of the stream and into that of the connection. Both shrink by as much; and with the end of the
/// stream the local side can send nothing more.
pub proof fn sent_data(streams: &mut Streams, frame: &Data, r: Result<(), ConnectionError>)
    requires
        call_ensures(Streams::send_data, (streams, frame), r),
        old(streams)@.wf(),
        frame@.payload.len() <= 0x7fff_ffff,
    ensures
        ({
            let m = old(streams)@;
            let after = final(streams)@;
            let id = frame@.stream_id;
            let len = frame@.payload.len() as int;
            let before = m.streams[id.0];
            let side = local_side(before);
            let stream = after.streams[id.0];
            if !m.streams.contains_key(id.0) || !(side is Data) {
                r == Err::<(), ConnectionError>(ConnectionError::User(User::UnexpectedFrameType))
                    && after == m
            } else if len > side->window || len > m.send_flow_control.window_size {
                &&& r == Err::<(), ConnectionError>(
                    ConnectionError::User(User::FlowControlViolation),
                )
                &&& after == m
            } else {
                &&& r is Ok
                &&& local_side(stream) == after_data(side, len, frame@.end_stream)
                &&& remote_side(stream) == remote_side(before)
                &&& only_moves(m, after, id)
                &&& after.send_flow_control.window_size + len == m.send_flow_control.window_size
                &&& after.send_flow_control.next_window_update
                    == m.send_flow_control.next_window_update
                &&& rest_stays(
                    StreamsModel {
                        send_flow_control: after.send_flow_control,
                        reservations: after.reservations,
                        ..m
                    },
                    after,
                )
            }
        }),
{
    let m = old(streams)@;
    let id = frame@.stream_id;
    if m.streams.contains_key(id.0) && !(m.streams[id.0] is Closed) {
        super::streams::with_stream_keeps_wf(m, id, Stream::Closed);
    }
}

// ===== Reservations =====

/// True if no stream stands in the reservations twice.
pub open spec fn distinct(reservations: Seq<(u32, WindowSize)>) -> bool {
    forall|i: int, j: int|
        #![trigger reservations[i], reservations[j]]
        0 <= i < j < reservations.len() ==> reservations[i].0 != reservations[j].0
}

/// A stream that sends data has as much less reserved, and nothing where it sends at least what it
/// reserved. The reservations of other streams stay, and so does the order.
pub proof fn sent_data_is_no_longer_reserved(
    streams: &mut Streams,
    frame: &Data,
    r: Result<(), ConnectionError>,
)
    requires
        call_ensures(Streams::send_data, (streams, frame), r),
        frame@.payload.len() <= 0x7fff_ffff,
        distinct(old(streams)@.reservations),
        r is Ok,
    ensures
        ({
            let before = old(streams)@.reservations;
            let after = final(streams)@.reservations;
            let len = frame@.payload.len() as int;
            &&& after.len() == before.len()
            &&& forall|k: int|
                #![trigger after[k]]
                0 <= k < after.len() ==> {
                    &&& after[k].0 == before[k].0
                    &&& before[k].0 != frame@.stream_id.0 ==> after[k].1 == before[k].1
                    &&& before[k].0 == frame@.stream_id.0 && before[k].1 >= len ==> after[k].1
                        + len == before[k].1
                    &&& before[k].0 == frame@.stream_id.0 && before[k].1 < len ==> after[k].1 == 0
                }
            &&& distinct(after)
        }),
{
    let before = old(streams)@.reservations;
    found_is_first(before, frame@.stream_id.0);
    let n = find(before, frame@.stream_id.0);
    assert forall|k: int| 0 <= k < before.len() && k != n implies before[k].0
        != frame@.stream_id.0 by {
        if n < before.len() {
            assert(before[n].0 == frame@.stream_id.0);
        }
    }
}

/// The same of the streams as values: after a stream has sent data, its capacity is at most what it
/// has still reserved.
pub proof fn capacity_shrinks_with_what_is_sent(
    m: StreamsModel,
    id: StreamId,
    sz: WindowSize,
    eos: bool,
    k: int,
)
    requires
        distinct(m.reservations),
        0 <= k < m.reservations.len(),
        m.reservations[k].0 == id.0,
        m.send_data(id, sz, eos).0 is Ok,
    ensures
        ({
            let after = m.send_data(id, sz, eos).1;
            let wanted = m.reservations[k].1;
            &&& 0 <= after.capacity(id)
            &&& after.capacity(id) <= wanted - sz || after.capacity(id) == 0
            &&& after.reservations[k].0 == id.0
            &&& sz <= wanted ==> after.reservations[k].1 == wanted - sz
            &&& sz >= wanted ==> after.reservations[k].1 == 0
            &&& forall|j: int|
                0 <= j < m.reservations.len() && j != k ==> #[trigger] after.reservations[j]
                    == m.reservations[j]
        }),
{
    let after = m.send_data(id, sz, eos).1;
    found_is_first(m.reservations, id.0);
    let n = find(m.reservations, id.0);
    assert(m.reservations[n].0 == id.0);
    assert(n == k) by {
        if n < k {
            assert(m.reservations[n].0 != m.reservations[k].0);
        }
    }
    assert forall|i: int, j: int|
        #![trigger after.reservations[i], after.reservations[j]]
        0 <= i < j < after.reservations.len() implies after.reservations[i].0
        != after.reservations[j].0 by {
        assert(m.reservations[i].0 != m.reservations[j].0);
    }
    capacity_is_what_is_left(after, k);
}

/// A stream that asks for capacity has that much reserved; if it has a turn it keeps it, else it is
/// the last. The reservations of other streams stay.
pub proof fn capacity_is_reserved(streams: &mut Streams, id: StreamId, sz: WindowSize)
    requires
        call_ensures(Streams::reserve_capacity, (streams, id, sz), ()),
        distinct(old(streams)@.reservations),
    ensures
        ({
            let m = old(streams)@;
            let before = m.reservations;
            let after = final(streams)@.reservations;
            &&& distinct(after)
            &&& final(streams)@ == (StreamsModel { reservations: after, ..m })
            &&& before.len() <= after.len() <= before.len() + 1
            &&& forall|k: int|
                #![trigger after[k]]
                0 <= k < before.len() ==> {
                    &&& after[k].0 == before[k].0
                    &&& before[k].0 == id.0 ==> after[k].1 == sz && after.len() == before.len()
                    &&& before[k].0 != id.0 ==> after[k].1 == before[k].1
                }
            &&& (forall|k: int| 0 <= k < before.len() ==> (#[trigger] before[k]).0 != id.0)
                ==> after.len() == before.len() + 1 && after[before.len() as int] == (id.0, sz)
        }),
{
    let before = old(streams)@.reservations;
    found_is_first(before, id.0);
    let n = find(before, id.0);
    assert forall|k: int| 0 <= k < before.len() && k != n implies before[k].0 != id.0 by {
        if n < before.len() {
            assert(before[n].0 == id.0);
        }
    }
}

/// How much data the local side of a stream can send, as far as its own window goes.
pub open spec fn send_window(m: StreamsModel, id: u32) -> int {
    if m.streams.contains_key(id) && local_side(m.streams[id]) is Data {
        local_side(m.streams[id])->window as int
    } else {
        0
    }
}

/// What the first `k` that reserved may send, together.
pub open spec fn granted_before(m: StreamsModel, k: int) -> int
    decreases k,
{
    if k <= 0 {
        0
    } else {
        granted_before(m, k - 1) + m.capacity(StreamId(m.reservations[k - 1].0))
    }
}

/// The smaller of two numbers.
pub open spec fn lesser(a: int, b: int) -> int {
    if a < b {
        a
    } else {
        b
    }
}

/// A stream may send what it reserved, as far as its window and what those that reserved before it
/// leave of the window of the connection go; one that reserved nothing has no capacity.
pub proof fn capacity_is_shared_in_order(streams: Streams, id: StreamId, r: WindowSize)
    requires
        call_ensures(Streams::capacity, (&streams, id), r),
        distinct(streams@.reservations),
    ensures
        ({
            let m = streams@;
            let window = m.send_flow_control.window_size as int;
            &&& forall|k: int|
                #![trigger m.reservations[k]]
                0 <= k < m.reservations.len() && m.reservations[k].0 == id.0 ==> r == lesser(
                    lesser(m.reservations[k].1 as int, send_window(m, id.0)),
                    window - granted_before(m, k),
                )
            &&& (forall|k: int|
                0 <= k < m.reservations.len() ==> (#[trigger] m.reservations[k]).0 != id.0)
                ==> r == 0
        }),
{
    let m = streams@;
    assert forall|k: int| #![trigger m.reservations[k]]
        0 <= k < m.reservations.len() && m.reservations[k].0 == id.0 implies r == lesser(
        lesser(m.reservations[k].1 as int, send_window(m, id.0)),
        m.send_flow_control.window_size - granted_before(m, k),
    ) by {
        capacity_is_what_is_left(m, k);
    }
    if forall|k: int| 0 <= k < m.reservations.len() ==> (#[trigger] m.reservations[k]).0 != id.0 {
        share_from(m, m.reservations.len() as int, id.0);
    }
}

/// The capacity of the stream that reserved as the `k`th.
proof fn capacity_is_what_is_left(m: StreamsModel, k: int)
    requires
        distinct(m.reservations),
        0 <= k < m.reservations.len(),
    ensures
        m.capacity(StreamId(m.reservations[k].0)) == lesser(
            lesser(m.reservations[k].1 as int, send_window(m, m.reservations[k].0)),
            m.send_flow_control.window_size - granted_before(m, k),
        ),
        0 <= m.capacity(StreamId(m.reservations[k].0)) <= m.reservations[k].1,
        granted_before(m, k) <= m.send_flow_control.window_size,
    decreases k,
{
    share_from(m, k, m.reservations[k].0);
    windows_belong_to_sides(
        m.streams[m.reservations[k].0],
        FlowControl { window_size: 0, next_window_update: 0 },
    );
}

/// Past those that reserved before, a stream has its share of what they leave.
proof fn share_from(m: StreamsModel, k: int, id: u32)
    requires
        distinct(m.reservations),
        0 <= k <= m.reservations.len(),
        forall|j: int| 0 <= j < k ==> (#[trigger] m.reservations[j]).0 != id,
    ensures
        m.capacity(StreamId(id)) == m.share(
            k,
            m.send_flow_control.window_size - granted_before(m, k),
            id,
        ),
        0 <= granted_before(m, k) <= m.send_flow_control.window_size,
    decreases k,
{
    if k > 0 {
        share_from(m, k - 1, id);
        share_from(m, k - 1, m.reservations[k - 1].0);
    }
}

// ===== Windows for sent data =====

/// A window for sent data is expanded by what the remote side allows in addition, which can be used
/// once it was handed out. A stream to which that is news goes behind those that wait to be told. A
/// window that is not there is left alone.
pub proof fn expanded_windows_wait(streams: &mut Streams, id: StreamId, sz: WindowSize)
    requires
        call_ensures(Streams::expand_window, (streams, id, sz), ()),
        old(streams)@.wf(),
        old(streams)@.expand_fits(id, sz),
    ensures
        window_expanded(old(streams)@, final(streams)@, id, sz),
{
    let m = old(streams)@;
    if m.streams.contains_key(id.0) {
        windows_belong_to_sides(m.streams[id.0], m.send_flow_control);
    }
}

/// True if `after` is `m` with a window for sent data that was expanded.
pub open spec fn window_expanded(
    m: StreamsModel,
    after: StreamsModel,
    id: StreamId,
    sz: WindowSize,
) -> bool {
    let side = local_side(m.streams[id.0]);
    let stream = after.streams[id.0];
    if id.0 == 0 {
        &&& after.send_flow_control.window_size == m.send_flow_control.window_size
        &&& after.send_flow_control.next_window_update == m.send_flow_control.next_window_update
            + sz
        &&& after == (StreamsModel { send_flow_control: after.send_flow_control, ..m })
    } else if m.streams.contains_key(id.0) && side is Data {
        &&& after.streams.contains_key(id.0)
        &&& local_side(stream) is Data
        &&& local_side(stream)->window == side->window
        &&& local_side(stream)->expansion == side->expansion + sz
        &&& remote_side(stream) == remote_side(m.streams[id.0])
        &&& others_stay(m, after, id.0)
        &&& after.pending_recv_window_updates == if side->expansion == 0 && sz > 0 {
            m.pending_recv_window_updates.push(id)
        } else {
            m.pending_recv_window_updates
        }
        &&& after == (StreamsModel {
            streams: after.streams,
            pending_recv_window_updates: after.pending_recv_window_updates,
            ..m
        })
    } else {
        after == m
    }
}

/// A window update that is received expands the window that it names, and a task that waits for
/// one is notified, once.
pub proof fn received_updates_expand_windows(streams: &mut Streams, frame: WindowUpdate, r: bool)
    requires
        call_ensures(Streams::recv_window_update, (streams, frame), r),
        old(streams)@.wf(),
        old(streams)@.expand_fits(frame.stream_id, frame.size_increment),
    ensures
        r == old(streams)@.blocked,
        !final(streams)@.blocked,
        window_expanded(
            old(streams)@,
            StreamsModel { blocked: old(streams)@.blocked, ..final(streams)@ },
            frame.stream_id,
            frame.size_increment,
        ),
{
    let m = old(streams)@;
    if m.streams.contains_key(frame.stream_id.0) {
        windows_belong_to_sides(m.streams[frame.stream_id.0], m.send_flow_control);
    }
}

/// A window can be expanded as long as it can be counted, and one that is not there by anything.
pub proof fn expansions_are_countable(streams: Streams, id: StreamId, sz: WindowSize, r: bool)
    requires
        call_ensures(Streams::can_expand_window, (&streams, id, sz), r),
    ensures
        ({
            let m = streams@;
            let side = local_side(m.streams[id.0]);
            r == if id.0 == 0 {
                m.send_flow_control.window_size + m.send_flow_control.next_window_update + sz
                    <= 0xffff_ffff
            } else if m.streams.contains_key(id.0) && side is Data {
                side->window + side->expansion + sz <= 0xffff_ffff
            } else {
                true
            }
        }),
        r == streams@.expand_fits(id, sz),
{
    if streams@.streams.contains_key(id.0) {
        windows_belong_to_sides(streams@.streams[id.0], streams@.send_flow_control);
    }
}

/// What a stream was allowed to send in addition and has not been told of.
pub open spec fn news(m: StreamsModel, id: StreamId) -> int {
    if id.0 != 0 && m.streams.contains_key(id.0) && local_side(m.streams[id.0]) is Data {
        local_side(m.streams[id.0])->expansion as int
    } else {
        0
    }
}

/// Expansions of windows for sent data are handed out, that of the connection first, then those of
/// the streams in the order in which they wait; each of them all at once, and from then on it can
/// be used. Where there is none, the task waits, and no stream has any news.
pub proof fn expansions_are_handed_out_in_order(
    streams: &mut Streams,
    r: Result<Async<WindowUpdate>, ConnectionError>,
)
    requires
        call_ensures(Streams::poll_window_update, (streams,), r),
        old(streams)@.wf(),
    ensures
        ({
            let m = old(streams)@;
            let after = final(streams)@;
            let queue = m.pending_recv_window_updates;
            let connection = m.send_flow_control;
            &&& r is Ok
            &&& connection.next_window_update > 0 ==> {
                &&& r->Ok_0 == Async::Ready(
                    WindowUpdate {
                        stream_id: StreamId(0),
                        size_increment: connection.next_window_update,
                    },
                )
                &&& after.send_flow_control.window_size == connection.window_size
                    + connection.next_window_update
                &&& after.send_flow_control.next_window_update == 0
                &&& after == (StreamsModel { send_flow_control: after.send_flow_control, ..m })
            }
            &&& connection.next_window_update == 0 && r->Ok_0 is Ready ==> {
                let frame = r->Ok_0->Ready_0;
                first_with_news(m, after, frame.stream_id, frame.size_increment)
            }
            &&& r->Ok_0 is NotReady ==> {
                &&& connection.next_window_update == 0
                &&& forall|id: StreamId| #[trigger] news(m, id) == 0
                &&& after == (StreamsModel {
                    blocked: true,
                    pending_recv_window_updates: Seq::empty(),
                    ..m
                })
            }
        }),
{
    let m = old(streams)@;
    if m.send_flow_control.next_window_update == 0 {
        polled_in_order(m);
        if r->Ok_0 is NotReady {
            assert forall|id: StreamId| #[trigger] news(m, id) == 0 by {
                if news(m, id) != 0 {
                    windows_belong_to_sides(m.streams[id.0], m.send_flow_control);
                    assert(m.stream_update(id.0) is Some);
                    assert(m.pending_recv_window_updates.contains(id));
                    let queue = m.pending_recv_window_updates;
                    let k = choose|k: int| 0 <= k < queue.len() && queue[k] == id;
                    assert(news(m, queue[k]) == 0);
                }
            }
        }
    }
}

/// True if `after` is `m` after the first stream in the queue with news was told of them.
pub open spec fn first_with_news(
    m: StreamsModel,
    after: StreamsModel,
    id: StreamId,
    incr: WindowSize,
) -> bool {
    let queue = m.pending_recv_window_updates;
    let side = local_side(m.streams[id.0]);
    let stream = after.streams[id.0];
    exists|k: int| #[trigger]
        is_first_with_news(m, k) && {
            &&& queue[k] == id
            &&& incr == news(m, id)
            &&& after.streams.contains_key(id.0)
            &&& local_side(stream) is Data
            &&& local_side(stream)->window == side->window + side->expansion
            &&& local_side(stream)->expansion == 0
            &&& remote_side(stream) == remote_side(m.streams[id.0])
            &&& others_stay(m, after, id.0)
            &&& after == (StreamsModel {
                streams: after.streams,
                pending_recv_window_updates: queue.skip(k + 1),
                ..m
            })
        }
}

/// True if the `k`th in the queue has news, and none before it has.
pub open spec fn is_first_with_news(m: StreamsModel, k: int) -> bool {
    let queue = m.pending_recv_window_updates;
    &&& 0 <= k < queue.len()
    &&& news(m, queue[k]) > 0
    &&& forall|j: int| 0 <= j < k ==> news(m, #[trigger] queue[j]) == 0
}

/// The queue is gone through from the front.
proof fn polled_in_order(m: StreamsModel)
    requires
        m.send_flow_control.next_window_update == 0,
        !m.streams.contains_key(0),
        forall|id: u32| #[trigger] m.streams.contains_key(id) ==> m.streams[id].windows_fit(),
    ensures
        ({
            let (answer, after) = m.poll_window_update();
            let queue = m.pending_recv_window_updates;
            match answer {
                Async::Ready(frame) => first_with_news(
                    m,
                    after,
                    frame.stream_id,
                    frame.size_increment,
                ),
                Async::NotReady => {
                    &&& forall|k: int| 0 <= k < queue.len() ==> news(m, #[trigger] queue[k]) == 0
                    &&& after == (StreamsModel {
                        blocked: true,
                        pending_recv_window_updates: Seq::empty(),
                        ..m
                    })
                },
            }
        }),
    decreases m.pending_recv_window_updates.len(),
{
    let queue = m.pending_recv_window_updates;
    let (answer, after) = m.poll_window_update();
    if queue.len() == 0 {
        assert(queue =~= Seq::empty());
    } else {
        let id = queue[0];
        let rest = StreamsModel { pending_recv_window_updates: queue.skip(1), ..m };
        if m.streams.contains_key(id.0) {
            windows_belong_to_sides(m.streams[id.0], m.send_flow_control);
        }
        if m.stream_update(id.0) is Some {
            assert(is_first_with_news(m, 0));
            let flow = m.streams[id.0].send_flow()->0.applied();
            windows_belong_to_sides(m.streams[id.0], flow);
            windows_belong_to_sides(m.streams[id.0].with_send_flow(flow), flow);
        } else {
            polled_in_order(rest);
            assert(news(m, id) == 0);
            match answer {
                Async::Ready(frame) => {
                    let k = choose|k: int| #[trigger]
                        is_first_with_news(rest, k) && queue.skip(1)[k] == frame.stream_id
                            && after.pending_recv_window_updates == queue.skip(1).skip(k + 1);
                    assert forall|j: int| 0 <= j < k + 1 implies news(m, #[trigger] queue[j])
                        == 0 by {
                        if j > 0 {
                            assert(queue.skip(1)[j - 1] == queue[j]);
                            assert(news(rest, queue.skip(1)[j - 1]) == 0);
                        }
                    }
                    assert(queue.skip(1)[k] == queue[k + 1]);
                    assert(news(rest, queue.skip(1)[k]) > 0);
                    assert(is_first_with_news(m, k + 1));
                    assert(queue.skip(1).skip(k + 1) =~= queue.skip(k + 2));
                },
                Async::NotReady => {
                    assert forall|k: int| 0 <= k < queue.len() implies news(
                        m,
                        #[trigger] queue[k],
                    ) == 0 by {
                        if k > 0 {
                            assert(queue.skip(1)[k - 1] == queue[k]);
                            assert(news(rest, queue.skip(1)[k - 1]) == 0);
                        }
                    }
                },
            }
        }
    }
}

// ===== Windows for received data =====

/// True if so much that was released is worth a window update, where so much may still be received:
/// it is at least half of that, rounded down.
pub open spec fn worth_an_update(window: int, expansion: int) -> bool {
    expansion > 0 && 2 * expansion + 1 >= window
}

/// What can be advertised of the window for received data of a stream, if it is worth it.
pub open spec fn due(m: StreamsModel, id: StreamId) -> Option<WindowSize> {
    let side = remote_side(m.streams[id.0]);
    if id.0 != 0 && m.streams.contains_key(id.0) && side is Data && worth_an_update(
        side->window as int,
        side->expansion as int,
    ) {
        Some(side->expansion)
    } else {
        None
    }
}

/// What can be advertised of the window for received data of the connection, if it is worth it.
pub open spec fn connection_due(m: StreamsModel) -> Option<WindowSize> {
    let flow = m.recv_flow_control;
    if worth_an_update(flow.window_size as int, flow.next_window_update as int) {
        Some(flow.next_window_update)
    } else {
        None
    }
}

/// What is due is what is sent.
proof fn due_is_sent(m: StreamsModel, id: StreamId)
    requires
        !m.streams.contains_key(0),
    ensures
        id.0 != 0 ==> m.recv_update(id) == due(m, id),
        m.recv_flow_control.advertised() == connection_due(m),
{
    if m.streams.contains_key(id.0) {
        windows_belong_to_sides(m.streams[id.0], m.recv_flow_control);
    }
}

/// Received data is released, no more than was received. Its window and that of the connection are
/// expanded by as much. If that makes a window update due on the stream, the stream is queued,
/// behind those that are queued already, which stay; and the answer is whether an update is due.
pub proof fn released_data_is_queued(
    streams: &mut Streams,
    id: StreamId,
    sz: WindowSize,
    r: Result<bool, ConnectionError>,
)
    requires
        call_ensures(Streams::release_capacity, (streams, id, sz), r),
        old(streams)@.wf(),
    ensures
        ({
            let m = old(streams)@;
            let after = final(streams)@;
            let before = m.recv_flow_control;
            let queue = m.pending_send_window_updates;
            let side = remote_side(m.streams[id.0]);
            let stream = after.streams[id.0];
            let has_window = id.0 != 0 && m.streams.contains_key(id.0) && side is Data;
            if sz > m.in_flight_data || (has_window && side->window + side->expansion + sz
                > 0xffff_ffff) {
                &&& r == Err::<bool, ConnectionError>(
                    ConnectionError::User(User::ReleaseCapacityTooBig),
                )
                &&& after == m
            } else {
                &&& r == Ok::<bool, ConnectionError>(
                    connection_due(after) is Some || due(after, id) is Some,
                )
                &&& after.in_flight_data + sz == m.in_flight_data
                &&& after.recv_flow_control.window_size == before.window_size
                &&& after.recv_flow_control.next_window_update == before.next_window_update + sz
                &&& has_window ==> {
                    &&& after.streams.contains_key(id.0)
                    &&& remote_side(stream) is Data
                    &&& remote_side(stream)->window == side->window
                    &&& remote_side(stream)->expansion == side->expansion + sz
                    &&& local_side(stream) == local_side(m.streams[id.0])
                    &&& others_stay(m, after, id.0)
                }
                &&& !has_window ==> after.streams == m.streams
                &&& after.pending_send_window_updates == if due(after, id) is Some {
                    queue.push(id)
                } else {
                    queue
                }
                &&& after == (StreamsModel {
                    streams: after.streams,
                    in_flight_data: after.in_flight_data,
                    recv_flow_control: after.recv_flow_control,
                    pending_send_window_updates: after.pending_send_window_updates,
                    ..m
                })
            }
        }),
{
    let m = old(streams)@;
    let after = final(streams)@;
    if m.streams.contains_key(id.0) {
        let flow = m.streams[id.0].recv_flow()->0.expanded(sz);
        windows_belong_to_sides(m.streams[id.0], flow);
        windows_belong_to_sides(m.streams[id.0].with_recv_flow(flow), flow);
    }
    due_is_sent(m, id);
    due_is_sent(after, id);
}

/// A stream on which a window update is due after data was released on it is queued, whatever is
/// queued already, and all that were queued stay queued, in front of it and in their order.
pub proof fn released_streams_are_queued(m: StreamsModel, id: StreamId, sz: WindowSize)
    requires
        m.wf(),
        !id.is_zero(),
        m.release_capacity(id, sz).0 is Ok,
    ensures
        ({
            let after = m.release_capacity(id, sz).1;
            let queue = m.pending_send_window_updates;
            &&& after.recv_update(id) is Some ==> after.pending_send_window_updates.contains(id)
            &&& after.pending_send_window_updates.take(queue.len() as int) == queue
            &&& forall|other: StreamId| #[trigger]
                queue.contains(other) ==> after.pending_send_window_updates.contains(other)
            &&& forall|other: StreamId|
                other != id && !other.is_zero() ==> #[trigger] after.recv_update(other)
                    == m.recv_update(other)
        }),
{
    let after = m.release_capacity(id, sz).1;
    let queue = m.pending_send_window_updates;
    assert(queue.push(id)[queue.len() as int] == id);
    assert(after.pending_send_window_updates.take(queue.len() as int) =~= queue);
    assert forall|other: StreamId| #[trigger] queue.contains(other) implies
        after.pending_send_window_updates.contains(other) by {
        let k = choose|k: int| 0 <= k < queue.len() && queue[k] == other;
        assert(after.pending_send_window_updates[k] == other);
    }
}

/// The window updates that are sent when the transport takes them all, at most `n`.
pub open spec fn sent_updates(m: StreamsModel, n: nat) -> Seq<WindowUpdate>
    decreases n,
{
    if n == 0 {
        Seq::empty()
    } else {
        match m.next_window_update() {
            (Some(frame), taken) => seq![frame] + sent_updates(
                taken.window_update_answered(frame.stream_id, AsyncSink::Ready),
                (n - 1) as nat,
            ),
            (None, _) => Seq::empty(),
        }
    }
}

/// Sending the window updates that are pending until there is none gives every stream that is
/// queued the update that is due on it, and the connection its own; and there are no more than
/// those.
pub proof fn all_updates_are_sent(m: StreamsModel, id: StreamId, n: nat)
    requires
        m.wf(),
        n > m.pending_send_window_updates.len(),
    ensures
        ({
            let sent = sent_updates(m, n);
            &&& connection_due(m) matches Some(incr) ==> sent.contains(
                WindowUpdate { stream_id: StreamId(0), size_increment: incr },
            )
            &&& m.pending_send_window_updates.contains(id) && due(m, id) is Some ==> sent.contains(
                WindowUpdate { stream_id: id, size_increment: due(m, id)->0 },
            )
            &&& sent.contains(WindowUpdate { stream_id: id, size_increment: 0 }) ==> false
        }),
{
    updates_are_sent(m, id, n);
}

/// The same, by the length of the queue.
proof fn updates_are_sent(m: StreamsModel, id: StreamId, n: nat)
    requires
        !m.streams.contains_key(0),
        n >= m.pending_send_window_updates.len() + if connection_due(m) is Some {
            1int
        } else {
            0
        },
    ensures
        ({
            let sent = sent_updates(m, n);
            &&& connection_due(m) matches Some(incr) ==> sent.contains(
                WindowUpdate { stream_id: StreamId(0), size_increment: incr },
            )
            &&& m.pending_send_window_updates.contains(id) && due(m, id) is Some ==> sent.contains(
                WindowUpdate { stream_id: id, size_increment: due(m, id)->0 },
            )
            &&& forall|k: int| 0 <= k < sent.len() ==> (#[trigger] sent[k]).size_increment > 0
        }),
    decreases n,
{
    due_is_sent(m, id);
    let queue = m.pending_send_window_updates;
    if n > 0 {
        let (next, taken) = m.next_window_update();
        next_is_first_due(m, id);
        if let Some(frame) = next {
            let after = taken.window_update_answered(frame.stream_id, AsyncSink::Ready);
            let rest = sent_updates(after, (n - 1) as nat);
            assert(sent_updates(m, n) == seq![frame] + rest);
            assert(sent_updates(m, n)[0] == frame);
            if !frame.stream_id.is_zero() {
                let flow = m.streams[frame.stream_id.0].recv_flow()->0.applied();
                windows_belong_to_sides(m.streams[frame.stream_id.0], flow);
                windows_belong_to_sides(
                    m.streams[frame.stream_id.0].with_recv_flow(flow),
                    flow,
                );
            }
            assert(connection_due(after) is None);
            updates_are_sent(after, id, (n - 1) as nat);
            if after.pending_send_window_updates.contains(id) && due(after, id) is Some {
                let update = WindowUpdate { stream_id: id, size_increment: due(after, id)->0 };
                let k = choose|k: int| 0 <= k < rest.len() && rest[k] == update;
                assert(sent_updates(m, n)[k + 1] == update);
            }
            assert forall|k: int| 0 <= k < sent_updates(m, n).len() implies (
            #[trigger] sent_updates(m, n)[k]).size_increment > 0 by {
                if k > 0 {
                    assert(rest[k - 1].size_increment > 0);
                }
            }
        }
    } else {
        assert(!queue.contains(id)) by {
            if queue.contains(id) {
                let k = choose|k: int| 0 <= k < queue.len() && queue[k] == id;
            }
        }
    }
}

/// The next window update is that of the connection, else that of a queued stream; the other queued
/// streams on which an update is due stay queued.
proof fn next_is_first_due(m: StreamsModel, id: StreamId)
    requires
        !m.streams.contains_key(0),
    ensures
        ({
            let (next, taken) = m.next_window_update();
            let queue = m.pending_send_window_updates;
            match next {
                Some(frame) => if connection_due(m) is Some {
                    &&& frame.stream_id == StreamId(0)
                    &&& frame.size_increment == connection_due(m)->0
                    &&& taken == m
                } else {
                    &&& !frame.stream_id.is_zero()
                    &&& due(m, frame.stream_id) == Some(frame.size_increment)
                    &&& taken.pending_send_window_updates.len() < queue.len()
                    &&& taken == (StreamsModel {
                        pending_send_window_updates: taken.pending_send_window_updates,
                        ..m
                    })
                    &&& queue.contains(id) && due(m, id) is Some && id != frame.stream_id
                        ==> taken.pending_send_window_updates.contains(id)
                },
                None => connection_due(m) is None && (queue.contains(id) ==> due(m, id) is None),
            }
        }),
    decreases m.pending_send_window_updates.len(),
{
    let queue = m.pending_send_window_updates;
    due_is_sent(m, id);
    if connection_due(m) is None {
        if queue.len() > 0 {
            let first = queue[0];
            due_is_sent(m, first);
            let rest = StreamsModel { pending_send_window_updates: queue.skip(1), ..m };
            assert(due(rest, id) == due(m, id));
            if queue.contains(id) && id != first {
                let k = choose|k: int| 0 <= k < queue.len() && queue[k] == id;
                assert(queue.skip(1)[k - 1] == id);
            }
            if m.recv_update(first) is None {
                next_is_first_due(rest, id);
                if let Some(frame) = m.next_window_update().0 {
                    assert(due(rest, frame.stream_id) == due(m, frame.stream_id));
                }
            }
        }
    }
}

/// A window update that is handed out is that of the connection, if one is due, else that of the
/// first queued stream on which one is due. None is handed out only where none is due.
pub proof fn updates_are_handed_out_in_order(streams: &mut Streams, r: Option<WindowUpdate>)
    requires
        call_ensures(Streams::send_pending_window_updates, (streams,), r),
        old(streams)@.wf(),
    ensures
        ({
            let m = old(streams)@;
            let after = final(streams)@;
            let queue = m.pending_send_window_updates;
            &&& r is Some && connection_due(m) is Some ==> {
                &&& r->0.stream_id == StreamId(0)
                &&& r->0.size_increment == connection_due(m)->0
                &&& after == m
            }
            &&& r is Some && connection_due(m) is None ==> exists|k: int| #[trigger]
                is_first_due(m, k) && r->0.stream_id == queue[k] && Some(r->0.size_increment)
                    == due(m, queue[k]) && after == (StreamsModel {
                    pending_send_window_updates: queue.skip(k + 1),
                    ..m
                })
            &&& r is None ==> {
                &&& connection_due(m) is None
                &&& forall|k: int| 0 <= k < queue.len() ==> due(m, #[trigger] queue[k]) is None
                &&& after == (StreamsModel { pending_send_window_updates: Seq::empty(), ..m })
            }
        }),
{
    let m = old(streams)@;
    due_is_sent(m, StreamId(0));
    if connection_due(m) is None {
        updates_in_order(m);
    }
}

/// True if an update is due on the `k`th in the queue, and on none before it.
pub open spec fn is_first_due(m: StreamsModel, k: int) -> bool {
    let queue = m.pending_send_window_updates;
    &&& 0 <= k < queue.len()
    &&& due(m, queue[k]) is Some
    &&& forall|j: int| 0 <= j < k ==> due(m, #[trigger] queue[j]) is None
}

/// What is first behind the front of the queue is first in the queue if nothing is due on the
/// front.
proof fn first_due_behind(m: StreamsModel, rest: StreamsModel, k: int)
    requires
        m.pending_send_window_updates.len() > 0,
        rest == (StreamsModel {
            pending_send_window_updates: m.pending_send_window_updates.skip(1),
            ..m
        }),
        due(m, m.pending_send_window_updates[0]) is None,
        is_first_due(rest, k),
    ensures
        is_first_due(m, k + 1),
        m.pending_send_window_updates[k + 1] == rest.pending_send_window_updates[k],
        rest.pending_send_window_updates.skip(k + 1) == m.pending_send_window_updates.skip(k + 2),
        due(m, m.pending_send_window_updates[k + 1]) == due(
            rest,
            rest.pending_send_window_updates[k],
        ),
{
    let queue = m.pending_send_window_updates;
    let tail = rest.pending_send_window_updates;
    assert forall|j: int| 0 <= j < k + 1 implies due(m, #[trigger] queue[j]) is None by {
        if j > 0 {
            assert(tail[j - 1] == queue[j]);
            assert(due(rest, tail[j - 1]) is None);
        }
    }
    assert(tail[k] == queue[k + 1]);
    assert(tail.skip(k + 1) =~= queue.skip(k + 2));
}

/// The queue is gone through from the front.
proof fn updates_in_order(m: StreamsModel)
    requires
        !m.streams.contains_key(0),
        connection_due(m) is None,
    ensures
        ({
            let (next, after) = m.next_window_update();
            let queue = m.pending_send_window_updates;
            match next {
                Some(frame) => exists|k: int| #[trigger]
                    is_first_due(m, k) && frame.stream_id == queue[k] && Some(
                        frame.size_increment,
                    ) == due(m, queue[k]) && after == (StreamsModel {
                        pending_send_window_updates: queue.skip(k + 1),
                        ..m
                    }),
                None => {
                    &&& forall|k: int|
                        0 <= k < queue.len() ==> due(m, #[trigger] queue[k]) is None
                    &&& after == (StreamsModel {
                        pending_send_window_updates: Seq::empty(),
                        ..m
                    })
                },
            }
        }),
    decreases m.pending_send_window_updates.len(),
{
    let queue = m.pending_send_window_updates;
    let (next, after) = m.next_window_update();
    due_is_sent(m, StreamId(0));
    if queue.len() == 0 {
        assert(queue =~= Seq::empty());
    } else {
        due_is_sent(m, queue[0]);
        let rest = StreamsModel { pending_send_window_updates: queue.skip(1), ..m };
        let tail = queue.skip(1);
        if m.recv_update(queue[0]) is Some {
            assert(is_first_due(m, 0));
        } else {
            updates_in_order(rest);
            if let Some(frame) = next {
                let k = choose|k: int| #[trigger]
                    is_first_due(rest, k) && frame.stream_id == tail[k] && Some(
                        frame.size_increment,
                    ) == due(rest, tail[k]) && after == (StreamsModel {
                        pending_send_window_updates: tail.skip(k + 1),
                        ..rest
                    });
                first_due_behind(m, rest, k);
            } else {
                assert forall|k: int| 0 <= k < queue.len() implies due(
                    m,
                    #[trigger] queue[k],
                ) is None by {
                    if k > 0 {
                        assert(tail[k - 1] == queue[k]);
                        assert(due(rest, tail[k - 1]) is None);
                    }
                }
            }
        }
    }
}

/// A window update that the transport took is usable: the window has grown by all that was to be
/// advertised. One that it did not take changes no window, and a stream is the first in the queue
/// again.
pub proof fn advertised_windows_grow(
    streams: &mut Streams,
    frame: WindowUpdate,
    answer: AsyncSink,
    r: Async<()>,
)
    requires
        call_ensures(Streams::window_update_answered, (streams, frame, answer), r),
        old(streams)@.wf(),
        old(streams)@.recv_update(frame.stream_id) == Some(frame.size_increment),
    ensures
        ({
            let m = old(streams)@;
            let after = final(streams)@;
            let id = frame.stream_id;
            let flow = m.recv_flow_control;
            let side = remote_side(m.streams[id.0]);
            let stream = after.streams[id.0];
            &&& r is Ready <==> answer is Ready
            &&& answer is Ready && id.0 == 0 ==> {
                &&& after.recv_flow_control.window_size == flow.window_size
                    + frame.size_increment
                &&& after.recv_flow_control.next_window_update == 0
                &&& after == (StreamsModel { recv_flow_control: after.recv_flow_control, ..m })
            }
            &&& answer is Ready && id.0 != 0 ==> {
                &&& after.streams.contains_key(id.0)
                &&& remote_side(stream) is Data
                &&& remote_side(stream)->window == side->window + frame.size_increment
                &&& remote_side(stream)->expansion == 0
                &&& local_side(stream) == local_side(m.streams[id.0])
                &&& others_stay(m, after, id.0)
                &&& after == (StreamsModel { streams: after.streams, ..m })
            }
            &&& answer is NotReady ==> {
                &&& after.pending_send_window_updates == if id.0 == 0 {
                    m.pending_send_window_updates
                } else {
                    seq![id] + m.pending_send_window_updates
                }
                &&& after == (StreamsModel {
                    pending_send_window_updates: after.pending_send_window_updates,
                    ..m
                })
            }
        }),
{
    let m = old(streams)@;
    let id = frame.stream_id;
    due_is_sent(m, id);
    if m.streams.contains_key(id.0) {
        let flow = m.streams[id.0].recv_flow()->0.applied();
        windows_belong_to_sides(m.streams[id.0], flow);
        windows_belong_to_sides(m.streams[id.0].with_recv_flow(flow), flow);
    }
}

/// The target of the connection's window is what the remote side may send in all, before anything
/// is released: what it may send now, what was received and not released, and what is yet to be
/// advertised. What may be sent now is not taken back.
pub proof fn target_window_is_met(streams: &mut Streams, size: WindowSize)
    requires
        call_ensures(Streams::set_target_window_size, (streams, size), ()),
        old(streams)@.wf(),
    ensures
        ({
            let m = old(streams)@;
            let after = final(streams)@;
            let flow = after.recv_flow_control;
            let now = m.recv_flow_control.window_size + m.in_flight_data;
            &&& flow.window_size == m.recv_flow_control.window_size
            &&& size >= now ==> now + flow.next_window_update == size
            &&& size < now ==> flow.next_window_update == 0
            &&& after == (StreamsModel { recv_flow_control: flow, ..m })
        }),
{
}

// ===== The rest =====

/// The settings of the remote side take effect as they are: they limit how many streams the local
/// side may have open, and say how large the windows of new streams are. What they do not mention
/// stays, and so does everything else.
pub proof fn remote_settings_take_effect(streams: &mut Streams, settings: &Settings)
    requires
        call_ensures(Streams::apply_remote_settings, (streams, settings), ()),
    ensures
        ({
            let m = old(streams)@;
            let after = final(streams)@;
            &&& settings.max_concurrent_streams matches Some(max) ==> after.max_local_initiated
                == Some(max as usize)
            &&& settings.max_concurrent_streams is None ==> after.max_local_initiated
                == m.max_local_initiated
            &&& settings.initial_window_size matches Some(size) ==> after.init_local_window_sz
                == size
            &&& settings.initial_window_size is None ==> after.init_local_window_sz
                == m.init_local_window_sz
            &&& after == (StreamsModel {
                max_local_initiated: after.max_local_initiated,
                init_local_window_sz: after.init_local_window_sz,
                ..m
            })
        }),
{
}

/// A stream that the local side opens after the remote side set the initial window, whatever size
/// it set, has a window for sent data of that size.
pub proof fn new_streams_have_the_window_of_the_remote(
    m: StreamsModel,
    max: Option<u32>,
    window: u32,
    id: StreamId,
)
    requires
        m.apply_remote_settings(max, Some(window)).send_headers(id, false, false).0 is Ok,
    ensures
        ({
            let after = m.apply_remote_settings(max, Some(window)).send_headers(
                id,
                false,
                false,
            ).1;
            &&& after.send_flow(id) matches Some(flow) && flow.window_size == window
                && flow.next_window_update == 0
            &&& after.stream_window(id.0) == window
        }),
{
}

/// Headers that are received with the end of the stream end the remote side, in every state in
/// which headers can be received, and close the stream exactly if the local side had ended it
/// before. Without it, the window for received data has the size that was set.
pub proof fn received_headers_end_or_open(m: StreamsModel, id: StreamId, eos: bool)
    requires
        m.wf(),
        m.recv_headers(id, false, eos).0 == Ok::<bool, ConnectionError>(true),
    ensures
        ({
            let after = m.recv_headers(id, false, eos).1;
            let stream = after.streams[id.0];
            let local_had_ended = m.streams.contains_key(id.0) && local_side(
                m.streams[id.0],
            ) is Nothing;
            &&& after.streams.contains_key(id.0)
            &&& eos ==> {
                &&& after.recv_flow(id) is None
                &&& remote_side(stream) is Nothing
                &&& after.poll_recv_end(id) == Ok::<Async<()>, ConnectionError>(Async::Ready(()))
                &&& forall|sz: WindowSize, end: bool|
                    #[trigger] after.recv_data(id, sz, end).0 == Err::<(), ConnectionError>(
                        protocol_error(),
                    )
                &&& stream is Closed <==> local_had_ended
            }
            &&& !eos ==> {
                &&& after.recv_flow(id) matches Some(flow) && flow.window_size
                    == m.init_remote_window_sz && flow.next_window_update == 0
                &&& !(stream is Closed)
            }
        }),
{
}

/// A new set of streams has none, and nothing is pending. The windows, and the limits on streams,
/// are those that it is set up with.
pub proof fn streams_start_as_configured<P: Peer>(config: Config, r: Streams)
    requires
        call_ensures(Streams::new::<P>, (config,), r),
    ensures
        starts(
            P::spec_is_server(),
            config,
            config.init_remote_window_sz,
            config.init_local_window_sz,
            r@,
        ),
{
}

/// The same where the windows of the connection have sizes of their own.
pub proof fn streams_start_with_windows<P: Peer>(
    config: Config,
    recv: WindowSize,
    send: WindowSize,
    r: Streams,
)
    requires
        call_ensures(Streams::with_windows::<P>, (config, recv, send), r),
    ensures
        starts(P::spec_is_server(), config, recv, send, r@),
{
}

/// Streams start so whatever they are set up with.
pub proof fn new_streams_start(
    is_server: bool,
    config: Config,
    recv: WindowSize,
    send: WindowSize,
)
    ensures
        starts(
            is_server,
            config,
            recv,
            send,
            StreamsModel::of_windows(is_server, config, recv, send),
        ),
{
    let m = StreamsModel::of_windows(is_server, config, recv, send);
    assert(m.active(true) =~= Set::empty());
    assert(m.active(false) =~= Set::empty());
}

/// True of streams as they start.
pub open spec fn starts(
    is_server: bool,
    config: Config,
    recv: WindowSize,
    send: WindowSize,
    m: StreamsModel,
) -> bool {
    &&& m.wf()
    &&& m.is_server == is_server
    &&& m.max_remote_initiated == config.max_remote_initiated
    &&& m.max_local_initiated == config.max_local_initiated
    &&& m.init_remote_window_sz == config.init_remote_window_sz
    &&& m.init_local_window_sz == config.init_local_window_sz
    &&& m.num_remote_initiated == 0 && m.num_local_initiated == 0
    &&& m.recv_flow_control.window_size == recv && m.recv_flow_control.next_window_update == 0
    &&& m.send_flow_control.window_size == send && m.send_flow_control.next_window_update == 0
    &&& m.pending_recv_window_updates.len() == 0 && m.pending_send_window_updates.len() == 0
    &&& !m.blocked && m.refused is None && m.failure is None
    &&& m.in_flight_data == 0 && m.last_processed_id.0 == 0
    &&& m.incoming.len() == 0 && m.reservations.len() == 0
    &&& forall|id: u32| !#[trigger] m.streams.contains_key(id)
}

/// Another stream can be opened by the local side as long as it has fewer open than it may have.
pub proof fn streams_can_be_opened_below_the_limit(streams: Streams, r: Async<()>)
    requires
        call_ensures(Streams::poll_send_request_ready, (&streams,), r),
    ensures
        r is NotReady <==> (streams@.max_local_initiated matches Some(max)
            && streams@.num_local_initiated >= max),
{
}

/// Headers cannot be taken only where they would open a stream while another one waits to be
/// refused.
pub proof fn only_refusals_hold_headers_up(streams: Streams, frame: Headers, r: bool)
    requires
        call_ensures(Streams::can_recv_headers, (&streams, &frame), r),
    ensures
        !r <==> streams@.refused is Some && frame@.stream_id.0 != 0 && !has_no_pseudo(frame)
            && !streams@.streams.contains_key(frame@.stream_id.0),
{
}

/// A stream that waits to be refused is reset for that reason. If the transport does not take the
/// reset, the stream waits again.
pub proof fn refusals_are_handed_out(
    streams: &mut Streams,
    r: Option<Reset>,
    later: &mut Streams,
    frame: Reset,
    answer: AsyncSink,
    answered: Async<()>,
)
    requires
        call_ensures(Streams::send_pending_refusal, (streams,), r),
        call_ensures(Streams::refusal_answered, (later, frame, answer), answered),
    ensures
        r is Some <==> old(streams)@.refused is Some,
        r matches Some(reset) ==> old(streams)@.refused == Some(reset.stream_id) && reset.reason
            == Reason::RefusedStream,
        final(streams)@ == (StreamsModel { refused: None, ..old(streams)@ }),
        answered is Ready <==> answer is Ready,
        answer is Ready ==> final(later)@ == old(later)@,
        answer is NotReady ==> final(later)@ == (StreamsModel {
            refused: Some(frame.stream_id),
            ..old(later)@
        }),
{
}

/// When the connection fails, only the first failure is kept, and nothing else changes.
pub proof fn first_failure_stays(streams: &mut Streams, err: ConnectionError, r: StreamId)
    requires
        call_ensures(Streams::recv_err, (streams, err), r),
    ensures
        r == old(streams)@.last_processed_id,
        old(streams)@.failure is None ==> final(streams)@.failure == Some(err),
        old(streams)@.failure is Some ==> final(streams)@.failure == old(streams)@.failure,
        final(streams)@ == (StreamsModel {
            failure: final(streams)@.failure,
            ..old(streams)@
        }),
{
}

/// A reader finds the end of the stream once the remote side cannot send anything on it, whatever
/// else has happened; else what made the connection fail, if it has; else it waits.
pub proof fn readers_find_the_end(
    streams: Streams,
    id: StreamId,
    r: Result<Async<()>, ConnectionError>,
)
    requires
        call_ensures(Streams::poll_recv_end, (&streams, id), r),
    ensures
        ({
            let m = streams@;
            let over = !m.streams.contains_key(id.0) || remote_side(m.streams[id.0]) is Nothing;
            &&& over <==> r is Ok && r->Ok_0 is Ready
            &&& !over && m.failure is None <==> r is Ok && r->Ok_0 is NotReady
            &&& r matches Err(err) ==> m.failure == Some(err)
        }),
{
}

/// The streams of the remote side are handed out in the order in which they came, each once.
pub proof fn incoming_streams_are_handed_out(
    streams: &mut Streams,
    r: Option<StreamId>,
)
    requires
        call_ensures(Streams::next_incoming, (streams,), r),
    ensures
        ({
            let before = old(streams)@.incoming;
            let after = final(streams)@.incoming;
            &&& r is Some <==> before.len() > 0
            &&& r matches Some(id) ==> seq![id] + after == before
            &&& r is None ==> after == before
            &&& final(streams)@ == (StreamsModel { incoming: after, ..old(streams)@ })
        }),
{
    let before = old(streams)@.incoming;
    if before.len() > 0 {
        assert(seq![before[0]] + before.skip(1) =~= before);
    }
}

/// Streams are active as long as a side can send something on them; closed ones are still held.
pub proof fn active_streams_can_be_sent_on(streams: Streams, active: usize, wired: usize)
    requires
        call_ensures(Streams::num_active_streams, (&streams,), active),
        call_ensures(Streams::num_wired_streams, (&streams,), wired),
    ensures
        ({
            let m = streams@;
            let open = m.streams.dom().filter(
                |id: u32|
                    !(local_side(m.streams[id]) is Nothing) || !(remote_side(
                        m.streams[id],
                    ) is Nothing),
            );
            &&& active == open.len()
            &&& wired == m.streams.dom().len()
        }),
{
    let m = streams@;
    let open = m.streams.dom().filter(
        |id: u32|
            !(local_side(m.streams[id]) is Nothing) || !(remote_side(m.streams[id]) is Nothing),
    );
    assert(open =~= m.streams.dom().filter(|id: u32| !(m.streams[id] is Closed)));
}

} // verus!
