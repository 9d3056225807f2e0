//! What holds of the streams of a connection as a whole.

use super::state::Stream;
use super::streams::{
    found_is_first, local_init, opening_keeps_wf, same_streams_keep_wf, with_stream_keeps_wf,
    Config, StreamsModel,
};
use super::{Async, AsyncSink, WindowSize};
use crate::error::{ConnectionError, Reason, User};
use crate::frame::{Reset, StreamId, WindowUpdate};
use vstd::prelude::*;

verus! {

/// There are never more active streams of the remote side than the limit allows. The local side
/// opens none beyond its limit either; one that is lowered later closes none.
pub proof fn limits_are_kept(m: StreamsModel, id: StreamId, trailers: bool, eos: bool)
    requires
        m.wf(),
    ensures
        m.max_remote_initiated matches Some(max) ==> m.active(false).len() <= max,
        ({
            let after = m.send_headers(id, trailers, eos).1;
            m.max_local_initiated matches Some(max) ==> after.active(true).len() <= max
                || after.active(true).len() <= m.active(true).len()
        }),
{
    let after = m.send_headers(id, trailers, eos).1;
    if m.streams.contains_key(id.0) {
        assert(after.active(true).subset_of(m.active(true)));
        vstd::set_lib::lemma_len_subset(after.active(true), m.active(true));
    } else if after != m {
        assert(after.active(true) =~= m.active(true).insert(id.0));
    }
}

/// The limit on streams in the settings of the remote side is the one that counts from then on.
pub proof fn remote_limit_is_enforced(
    m: StreamsModel,
    max: u32,
    window: Option<u32>,
    id: StreamId,
    eos: bool,
)
    requires
        m.wf(),
        !m.streams.contains_key(id.0),
        m.can_local_open(id),
    ensures
        ({
            let (answer, after) = m.apply_remote_settings(Some(max), window).send_headers(
                id,
                false,
                eos,
            );
            if m.active(true).len() >= max {
                answer == Err::<(), ConnectionError>(ConnectionError::User(User::Rejected))
            } else {
                &&& answer == Ok::<(), ConnectionError>(())
                &&& after.active(true) == m.active(true).insert(id.0)
            }
        }),
{
    let limited = m.apply_remote_settings(Some(max), window);
    assert(limited.active(true) =~= m.active(true));
    let (answer, after) = limited.send_headers(id, false, eos);
    if answer == Ok::<(), ConnectionError>(()) {
        assert(after.active(true) =~= m.active(true).insert(id.0));
    }
}

/// A stream that the remote side may initiate is refused if and only if there are as many active
/// ones as it may have. Refusing it opens nothing and leaves everything else as it is; what is not
/// refused is opened and counted, and waits to be handed out.
pub proof fn refused_when_full(m: StreamsModel, id: StreamId, eos: bool)
    requires
        m.wf(),
        !m.streams.contains_key(id.0),
        m.can_remote_open(id),
    ensures
        ({
            let (answer, after) = m.recv_headers(id, false, eos);
            if m.max_remote_initiated matches Some(max) && m.active(false).len() >= max {
                &&& answer == Ok::<bool, ConnectionError>(false)
                &&& after == StreamsModel { refused: Some(id), ..m }
            } else {
                &&& answer == Ok::<bool, ConnectionError>(true)
                &&& after.streams.contains_key(id.0)
                &&& after.active(false) == m.active(false).insert(id.0)
                &&& after.refused == m.refused
                &&& after.incoming == m.incoming.push(id)
            }
        }),
{
    let (answer, after) = m.recv_headers(id, false, eos);
    if answer == Ok::<bool, ConnectionError>(true) {
        assert(after.active(false) =~= m.active(false).insert(id.0));
    }
}

/// A stream that the local side may initiate is rejected if and only if there are as many active
/// ones as it may have. Rejecting it leaves everything as it is; what is not rejected is opened and
/// counted.
pub proof fn rejected_when_full(m: StreamsModel, id: StreamId, eos: bool)
    requires
        m.wf(),
        !m.streams.contains_key(id.0),
        m.can_local_open(id),
    ensures
        ({
            let (answer, after) = m.send_headers(id, false, eos);
            if m.max_local_initiated matches Some(max) && m.active(true).len() >= max {
                &&& answer == Err::<(), ConnectionError>(ConnectionError::User(User::Rejected))
                &&& after == m
            } else {
                &&& answer == Ok::<(), ConnectionError>(())
                &&& after.streams.contains_key(id.0)
                &&& after.active(true) == m.active(true).insert(id.0)
            }
        }),
{
    let (answer, after) = m.send_headers(id, false, eos);
    if answer == Ok::<(), ConnectionError>(()) {
        assert(after.active(true) =~= m.active(true).insert(id.0));
    }
}

/// The last stream that was processed is one that the remote side initiated, and none at first: the
/// streams of the local side do not count, whatever is received on them, nor do those that are
/// refused.
pub proof fn own_streams_are_not_processed(
    m: StreamsModel,
    id: StreamId,
    trailers: bool,
    eos: bool,
    is_server: bool,
    config: Config,
)
    ensures
        StreamsModel::of_config(is_server, config).last_processed_id == StreamId(0),
        m.send_headers(id, trailers, eos).1.last_processed_id == m.last_processed_id,
        ({
            let after = m.recv_headers(id, trailers, eos).1;
            if m.streams.contains_key(id.0) || !after.streams.contains_key(id.0) || local_init(
                m.is_server,
                id,
            ) {
                after.last_processed_id == m.last_processed_id
            } else {
                &&& after.last_processed_id.0 >= id.0
                &&& after.last_processed_id == id || after.last_processed_id
                    == m.last_processed_id
            }
        }),
{
}

/// What moves streams through their states: headers or data that is received or sent.
pub enum StreamOp {
    RecvHeaders { id: StreamId, trailers: bool, eos: bool },
    SendHeaders { id: StreamId, trailers: bool, eos: bool },
    RecvData { id: StreamId, sz: WindowSize, eos: bool },
    SendData { id: StreamId, sz: WindowSize, eos: bool },
}

impl StreamOp {
    /// The stream that it happens on.
    pub open spec fn stream_id(self) -> StreamId {
        match self {
            StreamOp::RecvHeaders { id, .. } => id,
            StreamOp::SendHeaders { id, .. } => id,
            StreamOp::RecvData { id, .. } => id,
            StreamOp::SendData { id, .. } => id,
        }
    }

    /// The streams after it.
    pub open spec fn after(self, m: StreamsModel) -> StreamsModel {
        match self {
            StreamOp::RecvHeaders { id, trailers, eos } => m.recv_headers(id, trailers, eos).1,
            StreamOp::SendHeaders { id, trailers, eos } => m.send_headers(id, trailers, eos).1,
            StreamOp::RecvData { id, sz, eos } => m.recv_data(id, sz, eos).1,
            StreamOp::SendData { id, sz, eos } => m.send_data(id, sz, eos).1,
        }
    }
}

/// The streams after all of these have happened.
pub open spec fn after_all(m: StreamsModel, ops: Seq<StreamOp>) -> StreamsModel
    decreases ops.len(),
{
    if ops.len() == 0 {
        m
    } else {
        ops.last().after(after_all(m, ops.drop_last()))
    }
}

/// 1 if so, else 0.
pub open spec fn one_if(b: bool) -> int {
    if b {
        1
    } else {
        0
    }
}

/// Whatever is received and sent, in whatever order, from the start of a connection: the counters
/// count the streams of each side that are open, and neither exceeds its limit.
pub proof fn streams_are_counted(is_server: bool, config: Config, ops: Seq<StreamOp>)
    ensures
        ({
            let m = after_all(StreamsModel::of_config(is_server, config), ops);
            &&& m.wf()
            &&& m.num_local_initiated == m.active(true).len()
            &&& m.num_remote_initiated == m.active(false).len()
            &&& config.max_local_initiated matches Some(max) ==> m.num_local_initiated <= max
            &&& config.max_remote_initiated matches Some(max) ==> m.num_remote_initiated <= max
            &&& m.max_local_initiated == config.max_local_initiated
            &&& m.max_remote_initiated == config.max_remote_initiated
        }),
    decreases ops.len(),
{
    if ops.len() == 0 {
        nothing_to_send_at_first(is_server, config);
    } else {
        streams_are_counted(is_server, config, ops.drop_last());
        let m = after_all(StreamsModel::of_config(is_server, config), ops.drop_last());
        one_stream_is_counted(m, ops.last());
    }
}

/// What happens on a stream changes only the counter of the side that initiated the stream, by one,
/// and only when the stream opens or closes. A stream that the local side opens by sending headers
/// is one of its own, and one that opens by receiving headers is one of the remote side.
pub proof fn one_stream_is_counted(m: StreamsModel, op: StreamOp)
    requires
        m.wf(),
    ensures
        ({
            let after = op.after(m);
            let id = op.stream_id();
            &&& after.wf()
            &&& after.num_local_initiated == m.num_local_initiated + one_if(
                after.active(true).contains(id.0),
            ) - one_if(m.active(true).contains(id.0))
            &&& after.num_remote_initiated == m.num_remote_initiated + one_if(
                after.active(false).contains(id.0),
            ) - one_if(m.active(false).contains(id.0))
            &&& after.max_local_initiated == m.max_local_initiated
            &&& after.max_remote_initiated == m.max_remote_initiated
            &&& after.num_local_initiated > m.num_local_initiated ==> !m.local_full()
            &&& !m.streams.contains_key(id.0) && after.streams.contains_key(id.0) ==> {
                ||| op is SendHeaders && local_init(m.is_server, id)
                ||| op is RecvHeaders && !local_init(m.is_server, id)
            }
        }),
{
    let id = op.stream_id();
    match op {
        StreamOp::RecvHeaders { id, trailers, eos } => {
            if m.streams.contains_key(id.0) {
                let s = m.streams[id.0];
                if trailers && s.trailers_received(eos) is Ok {
                    with_stream_keeps_wf(m, id, s.trailers_received(eos)->Ok_0);
                } else if !trailers && s.recv_opened(m.init_remote_window_sz, eos) is Ok {
                    with_stream_keeps_wf(
                        m,
                        id,
                        s.recv_opened(m.init_remote_window_sz, eos)->Ok_0,
                    );
                }
            } else if m.can_remote_open(id) && !trailers {
                opening_keeps_wf(m, id);
                if m.remote_full() {
                    same_streams_keep_wf(m, op.after(m));
                } else {
                    let opened = m.remote_opened(id);
                    assert(opened.streams[id.0] == Stream::Idle);
                    with_stream_keeps_wf(
                        opened,
                        id,
                        Stream::Idle.recv_opened(m.init_remote_window_sz, eos)->Ok_0,
                    );
                }
            }
        },
        StreamOp::SendHeaders { id, trailers, eos } => {
            if m.streams.contains_key(id.0) {
                let s = m.streams[id.0];
                if trailers && s.trailers_sent(eos) is Ok {
                    with_stream_keeps_wf(m, id, s.trailers_sent(eos)->Ok_0);
                } else if !trailers && s.send_opened(m.init_local_window_sz, eos) is Ok {
                    with_stream_keeps_wf(m, id, s.send_opened(m.init_local_window_sz, eos)->Ok_0);
                }
            } else if m.can_local_open(id) && !trailers && !m.local_full() {
                opening_keeps_wf(m, id);
                let opened = m.local_opened(id);
                assert(opened.streams[id.0] == Stream::Idle);
                with_stream_keeps_wf(
                    opened,
                    id,
                    Stream::Idle.send_opened(m.init_local_window_sz, eos)->Ok_0,
                );
            }
        },
        StreamOp::RecvData { id, sz, eos } => {
            if m.recv_data(id, sz, eos).0 is Ok {
                let next = op.after(m).streams[id.0];
                with_stream_keeps_wf(m, id, next);
                same_streams_keep_wf(m.with_stream(id, next), op.after(m));
            }
        },
        StreamOp::SendData { id, sz, eos } => {
            if m.send_data(id, sz, eos).0 is Ok {
                let next = op.after(m).streams[id.0];
                with_stream_keeps_wf(m, id, next);
                same_streams_keep_wf(m.with_stream(id, next), op.after(m));
            }
        },
    }
    counts_follow(m, op.after(m), id, true);
    counts_follow(m, op.after(m), id, false);
}

/// Where the other streams stay as they are, the number of active ones changes as the one does.
proof fn counts_follow(m: StreamsModel, after: StreamsModel, id: StreamId, local: bool)
    requires
        m.is_counted(),
        after.is_counted(),
        after.is_server == m.is_server,
        forall|other: u32| other != id.0 ==> #[trigger] same_stream(m, after, other),
    ensures
        after.active(local).len() == m.active(local).len() + one_if(
            after.active(local).contains(id.0),
        ) - one_if(m.active(local).contains(id.0)),
{
    let (a, b) = (m.active(local), after.active(local));
    assert forall|other: u32| a.remove(id.0).contains(other) == b.remove(id.0).contains(other) by {
        if other != id.0 {
            assert(same_stream(m, after, other));
        }
    }
    assert(a.remove(id.0) =~= b.remove(id.0));
    assert(!a.contains(id.0) ==> a.remove(id.0) =~= a);
    assert(!b.contains(id.0) ==> b.remove(id.0) =~= b);
    assert(a.finite() && b.finite());
}

/// A stream that is refused is answered with a reset of that stream, for that reason. The refusal
/// stays pending until the transport has taken it, and is then gone.
pub proof fn refusal_is_sent(m: StreamsModel, id: StreamId)
    requires
        m.refused == Some(id),
    ensures
        ({
            let (frame, taken) = m.send_pending_refusal();
            &&& frame == Some(Reset { stream_id: id, reason: Reason::RefusedStream })
            &&& taken.refusal_answered(id, AsyncSink::NotReady) == m
            &&& taken.refusal_answered(id, AsyncSink::Ready).send_pending_refusal().0 is None
        }),
{
}

/// An operation that fails leaves the streams and the windows as they are.
pub proof fn errors_change_nothing(
    m: StreamsModel,
    id: StreamId,
    trailers: bool,
    sz: WindowSize,
    eos: bool,
)
    ensures
        m.recv_headers(id, trailers, eos).0 is Err ==> m.recv_headers(id, trailers, eos).1 == m,
        m.send_headers(id, trailers, eos).0 is Err ==> m.send_headers(id, trailers, eos).1 == m,
        m.recv_data(id, sz, eos).0 is Err ==> m.recv_data(id, sz, eos).1 == m,
        m.send_data(id, sz, eos).0 is Err ==> m.send_data(id, sz, eos).1 == m,
        m.release_capacity(id, sz).0 is Err ==> m.release_capacity(id, sz).1 == m,
{
}

/// Data is received exactly where a stream is there, has headers and has not ended, and the data
/// fits into both its window and that of the connection. Both shrink by as much.
pub proof fn received_data_is_claimed(m: StreamsModel, id: StreamId, sz: WindowSize, eos: bool)
    requires
        m.wf(),
    ensures
        ({
            let (answer, after) = m.recv_data(id, sz, eos);
            &&& answer is Ok <==> !id.is_zero() && m.recv_flow(id) is Some && sz <= m.recv_flow(
                id,
            )->0.window_size && sz <= m.recv_flow_control.window_size
            &&& answer is Ok ==> {
                &&& after.recv_flow_control.window_size == m.recv_flow_control.window_size - sz
                &&& !eos ==> after.recv_flow(id) == Some(m.recv_flow(id)->0.claimed(sz))
                &&& eos ==> after.recv_flow(id) is None
                &&& after.send_flow_control == m.send_flow_control
                &&& after.send_flow(id) == m.send_flow(id)
            }
        }),
{
}

/// Data is sent exactly where a stream is there, has headers and has not ended, and the data fits
/// into both its window and that of the connection. Both shrink by as much.
pub proof fn sent_data_is_claimed(m: StreamsModel, id: StreamId, sz: WindowSize, eos: bool)
    requires
        m.wf(),
    ensures
        ({
            let (answer, after) = m.send_data(id, sz, eos);
            &&& answer is Ok <==> !id.is_zero() && m.send_flow(id) is Some && sz <= m.send_flow(
                id,
            )->0.window_size && sz <= m.send_flow_control.window_size
            &&& answer is Ok ==> {
                &&& after.send_flow_control.window_size == m.send_flow_control.window_size - sz
                &&& !eos ==> after.send_flow(id) == Some(m.send_flow(id)->0.claimed(sz))
                &&& eos ==> after.send_flow(id) is None
                &&& after.recv_flow_control == m.recv_flow_control
                &&& after.recv_flow(id) == m.recv_flow(id)
            }
        }),
{
}

/// What happens on one stream leaves the other streams as they are.
pub proof fn other_streams_stay(
    m: StreamsModel,
    id: StreamId,
    trailers: bool,
    sz: WindowSize,
    eos: bool,
    other: u32,
)
    requires
        other != id.0,
    ensures
        same_stream(m, m.recv_headers(id, trailers, eos).1, other),
        same_stream(m, m.send_headers(id, trailers, eos).1, other),
        same_stream(m, m.recv_data(id, sz, eos).1, other),
        same_stream(m, m.send_data(id, sz, eos).1, other),
        same_stream(m, m.expand_window(id, sz), other),
        same_stream(m, m.release_capacity(id, sz).1, other),
{
}

/// True if a stream is the same in both: there in the same state, or not there.
pub open spec fn same_stream(a: StreamsModel, b: StreamsModel, id: u32) -> bool {
    &&& a.streams.contains_key(id) == b.streams.contains_key(id)
    &&& a.streams.contains_key(id) ==> a.streams[id] == b.streams[id]
}

/// Where the local side was told that it can initiate a stream, it can; and where it was told that
/// it cannot, and no more are active than there may be, it can once one of its streams closes.
pub proof fn streams_can_be_opened_when_ready(
    m: StreamsModel,
    id: StreamId,
    eos: bool,
    closing: StreamId,
    sz: WindowSize,
)
    requires
        m.wf(),
        !m.streams.contains_key(id.0),
        m.can_local_open(id),
    ensures
        !m.local_full() <==> m.send_headers(id, false, eos).0 is Ok,
        ({
            let closed = m.recv_data(closing, sz, true).1;
            m.max_local_initiated == Some(m.num_local_initiated) && local_init(
                m.is_server,
                closing,
            ) && m.recv_data(closing, sz, true).0 is Ok && closed.streams[closing.0] is Closed
                ==> m.local_full() && !closed.local_full()
        }),
{
    if m.recv_data(closing, sz, true).0 is Ok && m.streams[closing.0] is HalfClosedLocal {
        assert(m.active(local_init(m.is_server, closing)).contains(closing.0));
    }
}

/// When the second side ends a stream, the stream closes, stays in the map and frees its place
/// among those that are counted; when the first side does, the place stays taken. Here it is the
/// remote side that ends the stream.
pub proof fn remote_end_frees_a_place(m: StreamsModel, id: StreamId, sz: WindowSize)
    requires
        m.wf(),
        m.recv_data(id, sz, true).0 is Ok,
    ensures
        ({
            let after = m.recv_data(id, sz, true).1;
            let local = local_init(m.is_server, id);
            &&& after.streams.contains_key(id.0)
            &&& after.active(!local) == m.active(!local)
            &&& if m.streams[id.0] is HalfClosedLocal {
                &&& after.streams[id.0] is Closed
                &&& after.active(local) == m.active(local).remove(id.0)
                &&& after.active(local).len() == m.active(local).len() - 1
            } else {
                &&& after.streams[id.0] is HalfClosedRemote
                &&& after.active(local) == m.active(local)
            }
        }),
{
    let after = m.recv_data(id, sz, true).1;
    let local = local_init(m.is_server, id);
    assert(m.active(local).contains(id.0));
    assert(after.active(!local) =~= m.active(!local));
    if m.streams[id.0] is HalfClosedLocal {
        assert(after.active(local) =~= m.active(local).remove(id.0));
    } else {
        assert(after.active(local) =~= m.active(local));
    }
}

/// The same where it is the local side that ends the stream.
pub proof fn local_end_frees_a_place(m: StreamsModel, id: StreamId, sz: WindowSize)
    requires
        m.wf(),
        m.send_data(id, sz, true).0 is Ok,
    ensures
        ({
            let after = m.send_data(id, sz, true).1;
            let local = local_init(m.is_server, id);
            &&& after.streams.contains_key(id.0)
            &&& after.active(!local) == m.active(!local)
            &&& if m.streams[id.0] is HalfClosedRemote {
                &&& after.streams[id.0] is Closed
                &&& after.active(local) == m.active(local).remove(id.0)
                &&& after.active(local).len() == m.active(local).len() - 1
            } else {
                &&& after.streams[id.0] is HalfClosedLocal
                &&& after.active(local) == m.active(local)
            }
        }),
{
    let after = m.send_data(id, sz, true).1;
    let local = local_init(m.is_server, id);
    assert(m.active(local).contains(id.0));
    assert(after.active(!local) =~= m.active(!local));
    if m.streams[id.0] is HalfClosedRemote {
        assert(after.active(local) =~= m.active(local).remove(id.0));
    } else {
        assert(after.active(local) =~= m.active(local));
    }
}

/// A stream that is closed takes no more frames: what the remote sends on it is a protocol error,
/// what the local side sends on it is unexpected, and window updates on it are ignored.
pub proof fn closed_streams_take_nothing(
    m: StreamsModel,
    id: StreamId,
    trailers: bool,
    sz: WindowSize,
    eos: bool,
)
    requires
        !id.is_zero(),
        m.streams.contains_key(id.0),
        m.streams[id.0] is Closed,
    ensures
        m.recv_headers(id, trailers, eos).0 == Err::<bool, ConnectionError>(
            ConnectionError::Proto(Reason::ProtocolError),
        ),
        m.recv_data(id, sz, eos).0 == Err::<(), ConnectionError>(
            ConnectionError::Proto(Reason::ProtocolError),
        ),
        m.send_headers(id, trailers, eos).0 == Err::<(), ConnectionError>(
            ConnectionError::User(User::UnexpectedFrameType),
        ),
        m.send_data(id, sz, eos).0 == Err::<(), ConnectionError>(
            ConnectionError::User(User::UnexpectedFrameType),
        ),
        m.expand_window(id, sz) == m,
{
}

/// Expanding a window for sent data twice is expanding it once by the sum.
pub proof fn expansions_are_coalesced(m: StreamsModel, id: StreamId, a: WindowSize, b: WindowSize)
    requires
        a + b <= u32::MAX,
        m.expand_fits(id, (a + b) as u32),
    ensures
        m.expand_fits(id, a),
        m.expand_window(id, a).expand_fits(id, b),
        m.expand_window(id, a).expand_window(id, b) == m.expand_window(id, (a + b) as u32),
{
    assert(m.expand_window(id, a).expand_window(id, b).streams =~= m.expand_window(
        id,
        (a + b) as u32,
    ).streams);
}

/// An expansion of the connection's window for sent data is handed out once, and may then be used.
pub proof fn expansion_is_handed_out(m: StreamsModel, sz: WindowSize)
    requires
        sz > 0,
        m.send_flow_control.next_window_update == 0,
        m.send_flow_control.window_size + sz <= u32::MAX,
    ensures
        ({
            let (update, after) = m.expand_window(StreamId(0), sz).poll_window_update();
            &&& update == Async::Ready(
                WindowUpdate { stream_id: StreamId(0), size_increment: sz },
            )
            &&& after.send_flow_control.window_size == m.send_flow_control.window_size + sz
            &&& after.send_flow_control.update() is None
            &&& after.streams == m.streams
        }),
{
}

/// An expansion of a stream's window for sent data is handed out once, and may then be used. Two
/// of them in a row are handed out as one.
pub proof fn stream_expansion_is_handed_out(
    m: StreamsModel,
    id: StreamId,
    a: WindowSize,
    b: WindowSize,
)
    requires
        m.wf(),
        !id.is_zero(),
        m.send_flow(id) is Some,
        m.poll_window_update().0 == Async::<WindowUpdate>::NotReady,
        0 < a + b <= u32::MAX,
        m.expand_fits(id, (a + b) as u32),
    ensures
        ({
            let waiting = m.poll_window_update().1;
            let expanded = waiting.expand_window(id, a).expand_window(id, b);
            let (update, after) = expanded.poll_window_update();
            &&& update == Async::Ready(
                WindowUpdate { stream_id: id, size_increment: (a + b) as u32 },
            )
            &&& after.stream_window(id.0) == m.stream_window(id.0) + a + b
            &&& after.poll_window_update().0 == Async::<WindowUpdate>::NotReady
        }),
{
    all_expansions_are_handed_out(m);
    let waiting = m.poll_window_update().1;
    assert(m.streams.contains_key(id.0));
    assert(m.stream_update(id.0) is None);
    expansions_are_coalesced(waiting, id, a, b);
    let expanded = waiting.expand_window(id, (a + b) as u32);
    assert(expanded.pending_recv_window_updates =~= seq![id]);
    let after = expanded.poll_window_update().1;
    assert(after.pending_recv_window_updates =~= Seq::empty());
}

/// A task that finds no window update has been handed out every expansion of a window for sent
/// data: none is lost.
pub proof fn all_expansions_are_handed_out(m: StreamsModel)
    requires
        m.wf(),
        m.poll_window_update().0 == Async::<WindowUpdate>::NotReady,
    ensures
        m.send_flow_control.update() is None,
        forall|id: u32| #[trigger] m.streams.contains_key(id) ==> m.stream_update(id) is None,
        m.poll_window_update().1 == (StreamsModel {
            blocked: true,
            pending_recv_window_updates: Seq::empty(),
            ..m
        }),
{
    nothing_waits(m);
}

/// Where no window update is found, the streams that wait have nothing to be told.
proof fn nothing_waits(m: StreamsModel)
    requires
        m.poll_window_update().0 == Async::<WindowUpdate>::NotReady,
    ensures
        m.send_flow_control.update() is None,
        forall|id: StreamId| #[trigger]
            m.pending_recv_window_updates.contains(id) ==> m.stream_update(id.0) is None,
        m.poll_window_update().1 == (StreamsModel {
            blocked: true,
            pending_recv_window_updates: Seq::empty(),
            ..m
        }),
    decreases m.pending_recv_window_updates.len(),
{
    let queue = m.pending_recv_window_updates;
    if queue.len() > 0 {
        let rest = StreamsModel { pending_recv_window_updates: queue.skip(1), ..m };
        nothing_waits(rest);
        assert forall|id: StreamId| #[trigger] queue.contains(id) implies m.stream_update(
            id.0,
        ) is None by {
            let k = choose|k: int| 0 <= k < queue.len() && queue[k] == id;
            if k > 0 {
                assert(queue.skip(1)[k - 1] == id);
                assert(rest.pending_recv_window_updates.contains(id));
                assert(rest.stream_update(id.0) is None);
            }
        }
    } else {
        assert(queue =~= Seq::empty());
    }
}

/// A task that found no window update is notified of the next one that is received, and no task is
/// notified twice.
pub proof fn blocked_task_is_notified(m: StreamsModel, frame: WindowUpdate, next: WindowUpdate)
    requires
        m.poll_window_update().0 == Async::<WindowUpdate>::NotReady,
    ensures
        ({
            let (notified, after) = m.poll_window_update().1.recv_window_update(frame);
            notified && !after.recv_window_update(next).0
        }),
{
    nothing_waits(m);
}

/// A window update that the transport does not take is the next one again; one that it takes is
/// not offered again, and the window grows by it.
pub proof fn window_updates_are_sent_once(m: StreamsModel)
    requires
        m.wf(),
        m.next_window_update().0 is Some,
    ensures
        ({
            let (next, taken) = m.next_window_update();
            let frame = next->0;
            let back = taken.window_update_answered(frame.stream_id, AsyncSink::NotReady);
            let sent = taken.window_update_answered(frame.stream_id, AsyncSink::Ready);
            &&& back.next_window_update() == (Some(frame), taken)
            &&& sent.recv_update(frame.stream_id) is None
            &&& sent.recv_flow(frame.stream_id) matches Some(flow) && flow.window_size
                == m.recv_flow(frame.stream_id)->0.window_size + frame.size_increment
        }),
    decreases m.pending_send_window_updates.len(),
{
    if m.recv_flow_control.advertised() is None {
        let id = m.pending_send_window_updates[0];
        let rest = StreamsModel {
            pending_send_window_updates: m.pending_send_window_updates.skip(1),
            ..m
        };
        assert(rest.active(true) =~= m.active(true));
        assert(rest.active(false) =~= m.active(false));
        assert(rest.updates_are_queued()) by {
            assert forall|other: u32| #[trigger]
                rest.streams.contains_key(other) && rest.stream_update(other) is Some implies rest
                .pending_recv_window_updates.contains(StreamId(other)) by {
                assert(m.streams.contains_key(other));
                assert(m.stream_update(other) is Some);
            }
        }
        if m.recv_update(id) is None {
            window_updates_are_sent_once(rest);
        } else {
            let back = rest.window_update_answered(id, AsyncSink::NotReady);
            assert(back.pending_send_window_updates.skip(1) =~= rest.pending_send_window_updates);
        }
    }
}

/// What the remote side may send on the connection is neither lost nor made up: data that is
/// received, released and advertised again leaves the sum as it is.
pub proof fn connection_window_is_conserved(
    m: StreamsModel,
    id: StreamId,
    sz: WindowSize,
    eos: bool,
)
    requires
        m.wf(),
    ensures
        m.recv_data(id, sz, eos).1.total_window() == m.total_window(),
        m.release_capacity(id, sz).1.total_window() == m.total_window(),
        m.window_update_answered(StreamId(0), AsyncSink::Ready).total_window()
            == m.total_window(),
{
}

/// Data that is released is advertised to the remote side, first for the connection and then for
/// the stream, as soon as it is worth a window update: at least half of what may still be sent.
/// What is less waits.
pub proof fn released_data_is_advertised(m: StreamsModel, id: StreamId, sz: WindowSize)
    requires
        m.wf(),
        !id.is_zero(),
        m.recv_flow(id) is Some,
        m.pending_send_window_updates.len() == 0,
        m.release_capacity(id, sz).0 is Ok,
    ensures
        ({
            let (answer, after) = m.release_capacity(id, sz);
            let connection = m.recv_flow_control.expanded(sz).advertised();
            let stream = m.recv_flow(id)->0.expanded(sz).advertised();
            let (first, taken) = after.next_window_update();
            let sent = taken.window_update_answered(StreamId(0), AsyncSink::Ready);
            &&& answer == Ok::<bool, ConnectionError>(connection is Some || stream is Some)
            &&& connection matches Some(incr) ==> {
                &&& first == Some(WindowUpdate { stream_id: StreamId(0), size_increment: incr })
                &&& sent.next_window_update().0 == match stream {
                    Some(incr) => Some(WindowUpdate { stream_id: id, size_increment: incr }),
                    None => None,
                }
            }
            &&& connection is None ==> first == match stream {
                Some(incr) => Some(WindowUpdate { stream_id: id, size_increment: incr }),
                None => None,
            }
        }),
{
    let after = m.release_capacity(id, sz).1;
    assert(m.streams.contains_key(id.0));
    let stream = m.recv_flow(id)->0.expanded(sz);
    assert(after.recv_flow(id) == Some(stream));
    if stream.advertised() is Some {
        assert(after.pending_send_window_updates =~= seq![id]);
    }
    let sent = after.window_update_answered(StreamId(0), AsyncSink::Ready);
    assert(sent.recv_flow(id) == Some(stream));
}

/// Trailers end what a side sends, on a stream where that has not ended yet; they say so
/// themselves, else they are malformed.
pub proof fn trailers_end_a_side(m: StreamsModel, id: StreamId)
    requires
        m.wf(),
        !id.is_zero(),
        m.streams.contains_key(id.0),
    ensures
        m.recv_headers(id, true, true).0 is Ok <==> m.recv_flow(id) is Some,
        m.recv_headers(id, true, true).1.recv_flow(id) is None,
        m.recv_headers(id, true, true).1.send_flow(id) == m.send_flow(id),
        m.send_headers(id, true, true).0 is Ok <==> m.send_flow(id) is Some,
        m.send_headers(id, true, true).1.send_flow(id) is None,
        m.send_headers(id, true, true).1.recv_flow(id) == m.recv_flow(id),
        m.recv_headers(id, true, false).0 is Err,
        m.send_headers(id, true, false).0 is Err,
{
}

/// A stream may send what its capacity says: no more than the windows allow, nor than it reserved.
pub proof fn capacity_can_be_sent(m: StreamsModel, id: StreamId, sz: WindowSize, eos: bool)
    requires
        m.wf(),
        0 < sz <= m.capacity(id),
    ensures
        m.send_data(id, sz, eos).0 is Ok,
{
    share_is_bounded(m, 0, m.send_flow_control.window_size as int, id.0);
}

/// What two streams may send fits into the window of the connection together.
pub proof fn capacities_fit_together(m: StreamsModel, a: StreamId, b: StreamId)
    requires
        a != b,
    ensures
        m.capacity(a) + m.capacity(b) <= m.send_flow_control.window_size,
{
    shares_fit_together(m, 0, m.send_flow_control.window_size as int, a.0, b.0);
}

/// A stream that ends what it sends, by data without content or by trailers, gives back what was
/// set aside for it: no other stream can send less than before.
pub proof fn ended_stream_gives_capacity_back(m: StreamsModel, id: StreamId, other: StreamId)
    requires
        m.wf(),
        m.send_flow(id) is Some,
        !id.is_zero(),
        other != id,
    ensures
        ({
            let by_data = m.send_data(id, 0, true).1;
            let by_trailers = m.send_headers(id, true, true).1;
            &&& by_data.capacity(id) == 0
            &&& by_data.capacity(other) >= m.capacity(other)
            &&& by_trailers.capacity(id) == 0
            &&& by_trailers.capacity(other) >= m.capacity(other)
        }),
{
    let by_data = m.send_data(id, 0, true).1;
    let by_trailers = m.send_headers(id, true, true).1;
    let window = m.send_flow_control.window_size as int;
    found_is_first(m.reservations, id.0);
    assert(by_data.reservations =~= m.reservations);
    share_is_bounded(by_data, 0, window, id.0);
    share_is_bounded(by_trailers, 0, window, id.0);
    shares_grow(m, by_data, 0, window, window, id.0, other.0);
    shares_grow(m, by_trailers, 0, window, window, id.0, other.0);
}

/// A share is within the window of the stream and within what is left.
proof fn share_is_bounded(m: StreamsModel, k: int, left: int, id: u32)
    requires
        0 <= k,
        0 <= left,
    ensures
        0 <= m.share(k, left, id) <= left,
        m.share(k, left, id) <= m.stream_window(id),
    decreases m.reservations.len() - k,
{
    if k < m.reservations.len() && m.reservations[k].0 != id {
        share_is_bounded(m, k + 1, left - m.granted(k, left), id);
    }
}

/// Two shares are within what is left, together.
proof fn shares_fit_together(m: StreamsModel, k: int, left: int, a: u32, b: u32)
    requires
        0 <= k,
        0 <= left,
        a != b,
    ensures
        m.share(k, left, a) + m.share(k, left, b) <= left,
    decreases m.reservations.len() - k,
{
    if k < m.reservations.len() {
        let rest = left - m.granted(k, left);
        if m.reservations[k].0 == a {
            share_is_bounded(m, k + 1, rest, b);
        } else if m.reservations[k].0 == b {
            share_is_bounded(m, k + 1, rest, a);
        } else {
            shares_fit_together(m, k + 1, rest, a, b);
        }
    }
}

/// Where one stream cannot send any more and there is no less left, the share of another is no
/// smaller.
proof fn shares_grow(
    m: StreamsModel,
    after: StreamsModel,
    k: int,
    left: int,
    more: int,
    ended: u32,
    other: u32,
)
    requires
        0 <= k,
        0 <= left <= more,
        after.reservations == m.reservations,
        after.stream_window(ended) == 0,
        forall|id: u32|
            id != ended ==> #[trigger] after.stream_window(id) == m.stream_window(id),
        other != ended,
    ensures
        after.share(k, more, other) >= m.share(k, left, other),
    decreases m.reservations.len() - k,
{
    if k < m.reservations.len() && m.reservations[k].0 != other {
        assert(m.reservations[k].0 != ended ==> after.stream_window(m.reservations[k].0)
            == m.stream_window(m.reservations[k].0));
        shares_grow(
            m,
            after,
            k + 1,
            left - m.granted(k, left),
            more - after.granted(k, more),
            ended,
            other,
        );
    }
}

/// A connection starts without streams, with the windows that it was set up with, and with nothing
/// to send.
pub proof fn nothing_to_send_at_first(is_server: bool, config: Config)
    ensures
        ({
            let m = StreamsModel::of_config(is_server, config);
            &&& m.wf()
            &&& m.next_window_update().0 is None
            &&& m.send_pending_refusal().0 is None
            &&& m.poll_window_update().0 == Async::<WindowUpdate>::NotReady
            &&& forall|id: StreamId, sz: WindowSize, eos: bool|
                #![trigger m.recv_data(id, sz, eos)]
                m.recv_data(id, sz, eos).0 is Err && m.send_data(id, sz, eos).0 is Err
        }),
{
    let m = StreamsModel::of_config(is_server, config);
    assert(m.active(true) =~= Set::empty());
    assert(m.active(false) =~= Set::empty());
}

} // verus!
