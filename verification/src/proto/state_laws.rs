//! What holds of one stream and of one window, whatever state they are in.

use super::state::{FlowControl, Peer, Stream};
use super::WindowSize;
use crate::error::{ConnectionError, Reason, User};
use vstd::prelude::*;

verus! {

/// What one side of a stream can still send: headers and then data, data as far as a window allows,
/// or nothing.
pub enum Side {
    Headers,
    Data { window: WindowSize, expansion: WindowSize },
    Nothing,
}

/// A side by what it has done.
pub open spec fn side_of(peer: Peer) -> Side {
    match peer {
        Peer::AwaitingHeaders => Side::Headers,
        Peer::Streaming(flow) => Side::Data {
            window: flow.window_size,
            expansion: flow.next_window_update,
        },
    }
}

/// What the local side of a stream can still send.
pub open spec fn local_side(stream: Stream) -> Side {
    match stream {
        Stream::Idle => Side::Headers,
        Stream::Open { local, .. } => side_of(local),
        Stream::HalfClosedRemote(local) => side_of(local),
        Stream::HalfClosedLocal(_) => Side::Nothing,
        Stream::Closed => Side::Nothing,
    }
}

/// What the remote side of a stream can still send.
pub open spec fn remote_side(stream: Stream) -> Side {
    match stream {
        Stream::Idle => Side::Headers,
        Stream::Open { remote, .. } => side_of(remote),
        Stream::HalfClosedLocal(remote) => side_of(remote),
        Stream::HalfClosedRemote(_) => Side::Nothing,
        Stream::Closed => Side::Nothing,
    }
}

/// What a side can still send after its headers: with the end of the stream nothing, else data in a
/// window of this size.
pub open spec fn after_headers(sz: WindowSize, eos: bool) -> Side {
    if eos {
        Side::Nothing
    } else {
        Side::Data { window: sz, expansion: 0 }
    }
}

/// Two streams on which both sides can still send the same are the same, but for whether anything
/// has been sent at all.
pub proof fn sides_tell_streams_apart(a: Stream, b: Stream)
    requires
        local_side(a) == local_side(b),
        remote_side(a) == remote_side(b),
    ensures
        a == b || local_side(a) is Headers && remote_side(a) is Headers,
{
}

/// Headers are received exactly where the remote side has sent none; they leave the local side as
/// it is. The remote side can then send data in a window of the given size, or nothing if they end
/// the stream. Anything else is a protocol error, and changes nothing.
pub proof fn received_headers_move_the_remote_side(
    stream: &mut Stream,
    sz: WindowSize,
    eos: bool,
    r: Result<(), ConnectionError>,
)
    requires
        call_ensures(Stream::recv_open, (stream, sz, eos), r),
    ensures
        r is Ok <==> remote_side(*old(stream)) is Headers,
        r is Ok ==> {
            &&& remote_side(*final(stream)) == after_headers(sz, eos)
            &&& local_side(*final(stream)) == local_side(*old(stream))
        },
        r matches Err(err) ==> err == ConnectionError::Proto(Reason::ProtocolError)
            && *final(stream) == *old(stream),
{
}

/// Headers are sent exactly where the local side has sent none; they leave the remote side as it
/// is. The local side can then send data in a window of the given size, or nothing if they end the
/// stream. Anything else is unexpected, and changes nothing.
pub proof fn sent_headers_move_the_local_side(
    stream: &mut Stream,
    sz: WindowSize,
    eos: bool,
    r: Result<(), ConnectionError>,
)
    requires
        call_ensures(Stream::send_open, (stream, sz, eos), r),
    ensures
        r is Ok <==> local_side(*old(stream)) is Headers,
        r is Ok ==> {
            &&& local_side(*final(stream)) == after_headers(sz, eos)
            &&& remote_side(*final(stream)) == remote_side(*old(stream))
        },
        r matches Err(err) ==> err == ConnectionError::User(User::UnexpectedFrameType)
            && *final(stream) == *old(stream),
{
}

/// The remote side can end a stream that is not idle and that it has not ended; the local side
/// stays as it is.
pub proof fn remote_side_ends_once(stream: &mut Stream, r: Result<(), ConnectionError>)
    requires
        call_ensures(Stream::recv_close, (stream,), r),
    ensures
        r is Ok <==> *old(stream) != Stream::Idle && !(remote_side(*old(stream)) is Nothing),
        r is Ok ==> {
            &&& remote_side(*final(stream)) is Nothing
            &&& local_side(*final(stream)) == local_side(*old(stream))
        },
        r matches Err(err) ==> err == ConnectionError::Proto(Reason::ProtocolError)
            && *final(stream) == *old(stream),
{
}

/// The local side can end a stream that is not idle and that it has not ended; the remote side
/// stays as it is.
pub proof fn local_side_ends_once(stream: &mut Stream, r: Result<(), ConnectionError>)
    requires
        call_ensures(Stream::send_close, (stream,), r),
    ensures
        r is Ok <==> *old(stream) != Stream::Idle && !(local_side(*old(stream)) is Nothing),
        r is Ok ==> {
            &&& local_side(*final(stream)) is Nothing
            &&& remote_side(*final(stream)) == remote_side(*old(stream))
        },
        r matches Err(err) ==> err == ConnectionError::Proto(Reason::ProtocolError)
            && *final(stream) == *old(stream),
{
}

/// Trailers that end the stream are received exactly where the remote side sends data; they end it.
pub proof fn received_trailers_end_the_remote_side(
    stream: &mut Stream,
    eos: bool,
    r: Result<(), ConnectionError>,
)
    requires
        call_ensures(Stream::recv_trailers, (stream, eos), r),
    ensures
        r is Ok <==> eos && remote_side(*old(stream)) is Data,
        r is Ok ==> {
            &&& remote_side(*final(stream)) is Nothing
            &&& local_side(*final(stream)) == local_side(*old(stream))
        },
        r matches Err(err) ==> err == ConnectionError::Proto(Reason::ProtocolError)
            && *final(stream) == *old(stream),
{
}

/// Trailers that end the stream are sent exactly where the local side sends data; they end it.
pub proof fn sent_trailers_end_the_local_side(
    stream: &mut Stream,
    eos: bool,
    r: Result<(), ConnectionError>,
)
    requires
        call_ensures(Stream::send_trailers, (stream, eos), r),
    ensures
        r is Ok <==> eos && local_side(*old(stream)) is Data,
        r is Ok ==> {
            &&& local_side(*final(stream)) is Nothing
            &&& remote_side(*final(stream)) == remote_side(*old(stream))
        },
        r matches Err(err) ==> err == ConnectionError::User(User::UnexpectedFrameType)
            && *final(stream) == *old(stream),
{
}

/// A stream is closed when neither side can send anything, and the remote side has ended it when
/// that side cannot.
pub proof fn closed_is_nothing_to_send(stream: Stream, closed: bool, ended: bool)
    requires
        call_ensures(Stream::is_closed, (&stream,), closed),
        call_ensures(Stream::is_recv_ended, (&stream,), ended),
    ensures
        closed <==> local_side(stream) is Nothing && remote_side(stream) is Nothing,
        ended <==> remote_side(stream) is Nothing,
        closed <==> stream is Closed,
{
}

/// The window for received data is that of the remote side, and the one for sent data that of the
/// local side. What happens to a window changes nothing else of the stream.
pub proof fn windows_belong_to_sides(stream: Stream, flow: FlowControl)
    ensures
        stream.recv_flow() is Some <==> remote_side(stream) is Data,
        stream.recv_flow() matches Some(f) ==> remote_side(stream) == (Side::Data {
            window: f.window_size,
            expansion: f.next_window_update,
        }),
        stream.send_flow() is Some <==> local_side(stream) is Data,
        stream.send_flow() matches Some(f) ==> local_side(stream) == (Side::Data {
            window: f.window_size,
            expansion: f.next_window_update,
        }),
        stream.recv_flow() is Some ==> {
            &&& stream.with_recv_flow(flow).recv_flow() == Some(flow)
            &&& local_side(stream.with_recv_flow(flow)) == local_side(stream)
        },
        stream.send_flow() is Some ==> {
            &&& stream.with_send_flow(flow).send_flow() == Some(flow)
            &&& remote_side(stream.with_send_flow(flow)) == remote_side(stream)
        },
{
}

/// What is claimed of a window is gone from it, and no more can be claimed than it has. Whether so
/// much can be claimed can be asked before.
pub proof fn claims_shrink_the_window(
    flow: &mut FlowControl,
    sz: WindowSize,
    err: ConnectionError,
    asked: Result<(), ConnectionError>,
    r: Result<(), ConnectionError>,
)
    requires
        call_ensures(FlowControl::ensure_window, (&*flow, sz, err), asked),
        call_ensures(FlowControl::claim_window, (flow, sz, err), r),
    ensures
        asked == r,
        r is Ok <==> sz <= old(flow).window_size,
        r is Ok ==> final(flow).window_size + sz == old(flow).window_size,
        r matches Err(e) ==> e == err && final(flow).window_size == old(flow).window_size,
        final(flow).next_window_update == old(flow).next_window_update,
{
}

/// What a window is expanded by cannot be claimed before it is advertised; when it is, all of it
/// can.
pub proof fn expansions_wait_to_be_advertised(
    flow: &mut FlowControl,
    sz: WindowSize,
    told: &mut FlowControl,
    r: Option<WindowSize>,
)
    requires
        call_ensures(FlowControl::expand_window, (flow, sz), ()),
        call_ensures(FlowControl::apply_window_update, (told, ), r),
        old(flow).window_size + old(flow).next_window_update + sz <= u32::MAX,
        *old(told) == *final(flow),
    ensures
        final(flow).window_size == old(flow).window_size,
        final(flow).next_window_update == old(flow).next_window_update + sz,
        final(told).window_size == old(flow).window_size + old(flow).next_window_update + sz,
        final(told).next_window_update == 0,
        match r {
            Some(incr) => incr > 0 && incr == old(flow).next_window_update + sz,
            None => old(flow).next_window_update + sz == 0,
        },
{
}

/// An expansion is worth a window update if it is at least half of what may be claimed, rounded
/// down: then all of it is advertised. Less than that waits.
pub proof fn small_expansions_wait(flow: FlowControl, r: Option<WindowSize>)
    requires
        call_ensures(FlowControl::peek_window_update, (&flow,), r),
    ensures
        r is Some <==> flow.next_window_update > 0 && 2 * flow.next_window_update + 1
            >= flow.window_size,
        r matches Some(incr) ==> incr == flow.next_window_update,
{
}

/// A window can be expanded as long as it can be counted.
pub proof fn windows_are_countable(flow: FlowControl, sz: WindowSize)
    ensures
        flow.expand_fits(sz) <==> flow.window_size + flow.next_window_update + sz <= 0xffff_ffff,
        flow.update_fits() <==> flow.window_size + flow.next_window_update <= 0xffff_ffff,
        call_requires(FlowControl::peek_window_update, (&flow,)),
        forall|r: FlowControl| #[trigger]
            call_ensures(FlowControl::new, (sz,), r) ==> r.window_size == sz
                && r.next_window_update == 0,
{
}

} // verus!
