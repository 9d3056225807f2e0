//! The set of streams of a connection.

use super::state::{FlowControl, Stream};
use super::{Async, AsyncSink, Peer, WindowSize, MAX_WINDOW_SIZE};
use crate::error::{ConnectionError, Reason, User};
use crate::frame::headers::END_STREAM;
use crate::frame::{Data, Headers, Reset, Settings, StreamId, WindowUpdate};
use ordermap::OrderMap;
use std::collections::VecDeque;
use vstd::prelude::*;

verus! {

#[verifier::external_type_specification]
#[verifier::external_body]
#[verifier::reject_recursive_types(K)]
#[verifier::reject_recursive_types(V)]
#[verifier::reject_recursive_types(S)]
pub struct ExOrderMap<K, V, S>(ordermap::OrderMap<K, V, S>);

/// The streams that a map holds, by their numbers.
pub uninterp spec fn stream_map(streams: OrderMap<u32, Stream>) -> Map<u32, Stream>;

/// `OrderMap::default`: a map without streams.
#[verifier::external_body]
fn new_map() -> (r: OrderMap<u32, Stream>)
    ensures
        (stream_map(r) == Map::<u32, Stream>::empty()),
{
    OrderMap::default()
}

/// `OrderMap::len`: the number of streams in the map.
#[verifier::external_body]
fn map_len(streams: &OrderMap<u32, Stream>) -> (r: usize)
    ensures
        r == stream_map(*streams).dom().len(),
{
    streams.len()
}

/// `OrderMap::get`: the stream with this number, if the map has it.
#[verifier::external_body]
fn map_get(streams: &OrderMap<u32, Stream>, id: u32) -> (r: Option<&Stream>)
    ensures
        match r {
            Some(stream) => stream_map(*streams).contains_key(id) && stream_map(*streams)[id]
                == *stream,
            None => !stream_map(*streams).contains_key(id),
        },
{
    streams.get(&id)
}

/// `OrderMap::get_mut`: the stream with this number, if the map has it. What it is made, it is in
/// the map; the other streams stay as they are.
#[verifier::external_body]
fn map_get_mut(streams: &mut OrderMap<u32, Stream>, id: u32) -> (r: Option<&mut Stream>)
    ensures
        match r {
            Some(stream) => {
                &&& stream_map(*old(streams)).contains_key(id)
                &&& stream_map(*old(streams))[id] == *stream
                &&& stream_map(*final(streams)) == stream_map(*old(streams)).insert(
                    id,
                    *final(stream),
                )
            },
            None => {
                &&& !stream_map(*old(streams)).contains_key(id)
                &&& stream_map(*final(streams)) == stream_map(*old(streams))
            },
        },
{
    streams.get_mut(&id)
}

/// `OrderMap::insert`: the map has this stream under this number, in place of the one that it had,
/// which is handed out.
#[verifier::external_body]
fn map_insert(streams: &mut OrderMap<u32, Stream>, id: u32, stream: Stream) -> (r: Option<Stream>)
    ensures
        stream_map(*final(streams)) == stream_map(*old(streams)).insert(id, stream),
        r == if stream_map(*old(streams)).contains_key(id) {
            Some(stream_map(*old(streams))[id])
        } else {
            None
        },
{
    streams.insert(id, stream)
}

/// The streams of a connection, and the windows that govern it.
#[derive(Debug)]
pub struct Streams {
    /// State related to managing the set of streams.
    inner: Inner,
    /// Streams
    streams: OrderMap<u32, Stream>,
}

/// Fields needed to manage state related to managing the set of streams. This
/// is mostly split out to make ownership happy.
#[derive(Debug)]
struct Inner {
    /// True when running in context of an H2 server
    is_server: bool,
    /// Maximum number of remote initiated streams
    max_remote_initiated: Option<usize>,
    /// Current number of remote initiated streams
    num_remote_initiated: usize,
    /// Initial window size of remote initiated streams
    init_remote_window_sz: WindowSize,
    /// Maximum number of locally initiated streams
    max_local_initiated: Option<usize>,
    /// Current number of locally initiated streams
    num_local_initiated: usize,
    /// Initial window size of locally initiated streams
    init_local_window_sz: WindowSize,
    /// Connection level flow control governing received data
    recv_flow_control: FlowControl,
    /// Connection level flow control governing sent data
    send_flow_control: FlowControl,
    /// Holds the list of streams on which the window for sent data may have grown.
    pending_recv_window_updates: VecDeque<StreamId>,
    /// Holds the list of streams on which local window updates may be sent.
    pending_send_window_updates: VecDeque<StreamId>,
    /// When `poll_window_update` is not ready, then the calling task is to be notified later.
    /// Access to `poll_window_update` must not be shared across tasks, as there is only a single
    /// task (and *not* i.e. a task per stream id).
    blocked: bool,
    /// Refused StreamId, this represents a frame that must be sent out.
    refused: Option<StreamId>,
    /// Received data that has not been released.
    in_flight_data: WindowSize,
    /// The last stream that the remote side initiated.
    last_processed_id: StreamId,
    /// The streams that the remote side initiated and that were not handed out, oldest first.
    incoming: VecDeque<StreamId>,
    /// What made the connection fail, if it has.
    failure: Option<ConnectionError>,
    /// The capacity that streams want to send data with, in the order in which they asked.
    reservations: Vec<(u32, WindowSize)>,
}

/// How a set of streams is set up.
#[derive(Clone, Copy, Debug, PartialEq, Eq, Structural)]
pub struct Config {
    /// Maximum number of remote initiated streams
    pub max_remote_initiated: Option<usize>,
    /// Initial window size of remote initiated streams
    pub init_remote_window_sz: WindowSize,
    /// Maximum number of locally initiated streams
    pub max_local_initiated: Option<usize>,
    /// Initial window size of locally initiated streams
    pub init_local_window_sz: WindowSize,
}

// ===== The streams as values =====

/// The streams of a connection, as values.
#[verifier::ext_equal]
pub struct StreamsModel {
    pub is_server: bool,
    pub max_remote_initiated: Option<usize>,
    pub num_remote_initiated: usize,
    pub init_remote_window_sz: WindowSize,
    pub max_local_initiated: Option<usize>,
    pub num_local_initiated: usize,
    pub init_local_window_sz: WindowSize,
    pub recv_flow_control: FlowControl,
    pub send_flow_control: FlowControl,
    pub pending_recv_window_updates: Seq<StreamId>,
    pub pending_send_window_updates: Seq<StreamId>,
    pub blocked: bool,
    pub refused: Option<StreamId>,
    pub in_flight_data: WindowSize,
    pub last_processed_id: StreamId,
    pub incoming: Seq<StreamId>,
    pub failure: Option<ConnectionError>,
    pub reservations: Seq<(u32, WindowSize)>,
    pub streams: Map<u32, Stream>,
}

impl View for Streams {
    type V = StreamsModel;

    closed spec fn view(&self) -> StreamsModel {
        StreamsModel {
            is_server: self.inner.is_server,
            max_remote_initiated: self.inner.max_remote_initiated,
            num_remote_initiated: self.inner.num_remote_initiated,
            init_remote_window_sz: self.inner.init_remote_window_sz,
            max_local_initiated: self.inner.max_local_initiated,
            num_local_initiated: self.inner.num_local_initiated,
            init_local_window_sz: self.inner.init_local_window_sz,
            recv_flow_control: self.inner.recv_flow_control,
            send_flow_control: self.inner.send_flow_control,
            pending_recv_window_updates: self.inner.pending_recv_window_updates@,
            pending_send_window_updates: self.inner.pending_send_window_updates@,
            blocked: self.inner.blocked,
            refused: self.inner.refused,
            in_flight_data: self.inner.in_flight_data,
            last_processed_id: self.inner.last_processed_id,
            incoming: self.inner.incoming@,
            failure: self.inner.failure,
            reservations: self.inner.reservations@,
            streams: stream_map(self.streams),
        }
    }
}

/// True if the local side initiates streams with this ID.
pub open spec fn local_init(is_server: bool, id: StreamId) -> bool {
    is_server == id.is_server_initiated()
}

impl StreamsModel {
    /// The streams that have not transitioned to a closed state: those that the local side
    /// initiated, or those that the remote one did.
    pub open spec fn active(self, local: bool) -> Set<u32> {
        self.streams.dom().filter(
            |id: u32|
                !(self.streams[id] is Closed) && local_init(self.is_server, StreamId(id)) == local,
        )
    }

    /// True if the counters count the active streams, of which the remote side has initiated no
    /// more than it may.
    pub open spec fn is_counted(self) -> bool {
        &&& self.streams.dom().finite()
        &&& !self.streams.contains_key(0)
        &&& self.num_remote_initiated == self.active(false).len()
        &&& self.num_local_initiated == self.active(true).len()
        &&& self.max_remote_initiated matches Some(max) ==> self.num_remote_initiated <= max
    }

    /// True if the windows can count what they were expanded by, and the connection's window for
    /// received data what has yet to be released.
    pub open spec fn windows_fit(self) -> bool {
        &&& forall|id: u32| #[trigger]
            self.streams.contains_key(id) ==> self.streams[id].windows_fit()
        &&& self.recv_flow_control.expand_fits(self.in_flight_data)
        &&& self.send_flow_control.update_fits()
    }

    /// True if every stream whose window for sent data was expanded waits to be told.
    pub open spec fn updates_are_queued(self) -> bool {
        forall|id: u32| #[trigger]
            self.streams.contains_key(id) && self.stream_update(id) is Some
                ==> self.pending_recv_window_updates.contains(StreamId(id))
    }

    /// What holds of every set of streams.
    pub open spec fn wf(self) -> bool {
        self.is_counted() && self.windows_fit() && self.updates_are_queued()
    }

    /// The expansion of a stream's window for sent data that has yet to be handed out.
    pub open spec fn stream_update(self, id: u32) -> Option<WindowSize> {
        if self.streams.contains_key(id) {
            match self.streams[id].send_flow() {
                Some(flow) => flow.update(),
                None => None,
            }
        } else {
            None
        }
    }

    /// No streams, and nothing pending; the windows of the connection are as large as those of its
    /// streams.
    pub open spec fn of_config(is_server: bool, config: Config) -> StreamsModel {
        StreamsModel::of_windows(
            is_server,
            config,
            config.init_remote_window_sz,
            config.init_local_window_sz,
        )
    }

    /// No streams, and nothing pending; the windows of the connection have these sizes.
    pub open spec fn of_windows(
        is_server: bool,
        config: Config,
        recv: WindowSize,
        send: WindowSize,
    ) -> StreamsModel {
        StreamsModel {
            is_server,
            max_remote_initiated: config.max_remote_initiated,
            num_remote_initiated: 0,
            init_remote_window_sz: config.init_remote_window_sz,
            max_local_initiated: config.max_local_initiated,
            num_local_initiated: 0,
            init_local_window_sz: config.init_local_window_sz,
            recv_flow_control: FlowControl::of_size(recv),
            send_flow_control: FlowControl::of_size(send),
            pending_recv_window_updates: Seq::empty(),
            pending_send_window_updates: Seq::empty(),
            blocked: false,
            refused: None,
            in_flight_data: 0,
            last_processed_id: StreamId(0),
            incoming: Seq::empty(),
            failure: None,
            reservations: Seq::empty(),
            streams: Map::empty(),
        }
    }

    /// True if the remote peer can initiate a stream with the given ID.
    pub open spec fn can_remote_open(self, id: StreamId) -> bool {
        !id.is_zero() && !local_init(self.is_server, id)
    }

    /// True if the local actor can initiate a stream with the given ID.
    pub open spec fn can_local_open(self, id: StreamId) -> bool {
        !id.is_zero() && local_init(self.is_server, id)
    }

    /// True if there are as many remote initiated streams as there may be.
    pub open spec fn remote_full(self) -> bool {
        self.max_remote_initiated matches Some(max) && max <= self.num_remote_initiated
    }

    /// True if there are as many locally initiated streams as there may be.
    pub open spec fn local_full(self) -> bool {
        self.max_local_initiated matches Some(max) && max <= self.num_local_initiated
    }

    /// The streams with one of them in another state. One that closes is no longer counted.
    pub open spec fn with_stream(self, id: StreamId, stream: Stream) -> StreamsModel {
        let local = local_init(self.is_server, id);
        StreamsModel {
            streams: self.streams.insert(id.0, stream),
            num_local_initiated: if stream is Closed && local {
                (self.num_local_initiated - 1) as usize
            } else {
                self.num_local_initiated
            },
            num_remote_initiated: if stream is Closed && !local {
                (self.num_remote_initiated - 1) as usize
            } else {
                self.num_remote_initiated
            },
            ..self
        }
    }

    /// The streams with one more, which the remote side initiated.
    pub open spec fn remote_opened(self, id: StreamId) -> StreamsModel {
        StreamsModel {
            num_remote_initiated: (self.num_remote_initiated + 1) as usize,
            last_processed_id: if id.0 > self.last_processed_id.0 {
                id
            } else {
                self.last_processed_id
            },
            incoming: self.incoming.push(id),
            streams: self.streams.insert(id.0, Stream::Idle),
            ..self
        }
    }

    /// The streams with one more, which the local side initiated.
    pub open spec fn local_opened(self, id: StreamId) -> StreamsModel {
        StreamsModel {
            num_local_initiated: (self.num_local_initiated + 1) as usize,
            streams: self.streams.insert(id.0, Stream::Idle),
            ..self
        }
    }
}

/// The smaller of two numbers.
pub open spec fn min(a: int, b: int) -> int {
    if a <= b {
        a
    } else {
        b
    }
}

/// Where the reservation of a stream stands; behind all of them if it has none.
pub open spec fn find(reservations: Seq<(u32, WindowSize)>, id: u32) -> int
    decreases reservations.len(),
{
    if reservations.len() == 0 {
        0
    } else {
        let k = find(reservations.drop_last(), id);
        if k < reservations.len() - 1 || reservations.last().0 == id {
            k
        } else {
            reservations.len() as int
        }
    }
}

/// The reservations after a stream sent so much data.
pub open spec fn used(reservations: Seq<(u32, WindowSize)>, id: u32, sz: WindowSize) -> Seq<
    (u32, WindowSize),
> {
    let k = find(reservations, id);
    if k < reservations.len() {
        let wanted = reservations[k].1;
        reservations.update(
            k,
            (
                id,
                if wanted >= sz {
                    (wanted - sz) as u32
                } else {
                    0
                },
            ),
        )
    } else {
        reservations
    }
}

/// What an operation answers, and the streams after it.
pub type Step<T> = (Result<T, ConnectionError>, StreamsModel);

impl StreamsModel {
    /// Headers are received on a stream that is there.
    pub open spec fn recv_open(self, id: StreamId, eos: bool) -> Step<bool> {
        match self.streams[id.0].recv_opened(self.init_remote_window_sz, eos) {
            Ok(stream) => (Ok(true), self.with_stream(id, stream)),
            Err(err) => (Err(err), self),
        }
    }

    /// Trailers are received on a stream that is there.
    pub open spec fn recv_trailers(self, id: StreamId, eos: bool) -> Step<bool> {
        match self.streams[id.0].trailers_received(eos) {
            Ok(stream) => (Ok(true), self.with_stream(id, stream)),
            Err(err) => (Err(err), self),
        }
    }

    /// Headers are received. The answer is whether they are to be acted upon: a stream that would
    /// be one too many is refused.
    pub open spec fn recv_headers(self, id: StreamId, trailers: bool, eos: bool) -> Step<bool> {
        if id.is_zero() {
            (Err(ConnectionError::Proto(Reason::ProtocolError)), self)
        } else if self.streams.contains_key(id.0) {
            if trailers {
                self.recv_trailers(id, eos)
            } else {
                self.recv_open(id, eos)
            }
        } else if trailers || !self.can_remote_open(id) {
            (Err(ConnectionError::Proto(Reason::ProtocolError)), self)
        } else if self.remote_full() {
            (Ok(false), StreamsModel { refused: Some(id), ..self })
        } else {
            self.remote_opened(id).recv_open(id, eos)
        }
    }

    /// True if headers can be received at all: a refusal must have been sent before another stream
    /// can be opened.
    pub open spec fn supports_recv_headers(self, id: StreamId, trailers: bool) -> bool {
        id.is_zero() || self.streams.contains_key(id.0) || trailers || self.refused is None
    }

    /// So much data is received.
    pub open spec fn recv_data(self, id: StreamId, sz: WindowSize, eos: bool) -> Step<()> {
        if !self.streams.contains_key(id.0) {
            (Err(ConnectionError::Proto(Reason::ProtocolError)), self)
        } else {
            let stream = self.streams[id.0];
            match stream.recv_flow() {
                None => (Err(ConnectionError::Proto(Reason::ProtocolError)), self),
                Some(flow) => if sz > self.recv_flow_control.window_size || sz > flow.window_size {
                    (Err(ConnectionError::Proto(Reason::FlowControlError)), self)
                } else {
                    let claimed = stream.with_recv_flow(flow.claimed(sz));
                    let next = if eos {
                        claimed.recv_closed()->Ok_0
                    } else {
                        claimed
                    };
                    (
                        Ok(()),
                        StreamsModel {
                            recv_flow_control: self.recv_flow_control.claimed(sz),
                            in_flight_data: (self.in_flight_data + sz) as u32,
                            ..self.with_stream(id, next)
                        },
                    )
                },
            }
        }
    }

    /// Headers are sent on a stream that is there.
    pub open spec fn send_open(self, id: StreamId, eos: bool) -> Step<()> {
        match self.streams[id.0].send_opened(self.init_local_window_sz, eos) {
            Ok(stream) => (Ok(()), self.with_stream(id, stream)),
            Err(err) => (Err(err), self),
        }
    }

    /// Trailers are sent on a stream that is there.
    pub open spec fn send_trailers(self, id: StreamId, eos: bool) -> Step<()> {
        match self.streams[id.0].trailers_sent(eos) {
            Ok(stream) => (Ok(()), self.with_stream(id, stream)),
            Err(err) => (Err(err), self),
        }
    }

    /// Headers are sent.
    pub open spec fn send_headers(self, id: StreamId, trailers: bool, eos: bool) -> Step<()> {
        if id.is_zero() {
            (Err(ConnectionError::User(User::InvalidStreamId)), self)
        } else if self.streams.contains_key(id.0) {
            if trailers {
                self.send_trailers(id, eos)
            } else {
                self.send_open(id, eos)
            }
        } else if trailers || !self.can_local_open(id) {
            (Err(ConnectionError::User(User::UnexpectedFrameType)), self)
        } else if self.local_full() {
            (Err(ConnectionError::User(User::Rejected)), self)
        } else {
            self.local_opened(id).send_open(id, eos)
        }
    }

    /// So much data is sent.
    pub open spec fn send_data(self, id: StreamId, sz: WindowSize, eos: bool) -> Step<()> {
        if !self.streams.contains_key(id.0) {
            (Err(ConnectionError::User(User::UnexpectedFrameType)), self)
        } else {
            let stream = self.streams[id.0];
            match stream.send_flow() {
                None => (Err(ConnectionError::User(User::UnexpectedFrameType)), self),
                Some(flow) => if sz > self.send_flow_control.window_size || sz > flow.window_size {
                    (Err(ConnectionError::User(User::FlowControlViolation)), self)
                } else {
                    let claimed = stream.with_send_flow(flow.claimed(sz));
                    let next = if eos {
                        claimed.send_closed()->Ok_0
                    } else {
                        claimed
                    };
                    (
                        Ok(()),
                        StreamsModel {
                            send_flow_control: self.send_flow_control.claimed(sz),
                            reservations: used(self.reservations, id.0, sz),
                            ..self.with_stream(id, next)
                        },
                    )
                },
            }
        }
    }

    /// The refusal that is pending is handed out to be sent.
    pub open spec fn send_pending_refusal(self) -> (Option<Reset>, StreamsModel) {
        (
            match self.refused {
                Some(stream_id) => Some(Reset { stream_id, reason: Reason::RefusedStream }),
                None => None,
            },
            StreamsModel { refused: None, ..self },
        )
    }

    /// A refusal was handed to the transport. If it was not taken, it stays pending.
    pub open spec fn refusal_answered(self, id: StreamId, answer: AsyncSink) -> StreamsModel {
        match answer {
            AsyncSink::Ready => self,
            AsyncSink::NotReady => StreamsModel { refused: Some(id), ..self },
        }
    }

    /// A window update is received, and the task that waits is notified of it.
    pub open spec fn recv_window_update(self, frame: WindowUpdate) -> (bool, StreamsModel) {
        (
            self.blocked,
            StreamsModel {
                blocked: false,
                ..self.expand_window(frame.stream_id, frame.size_increment)
            },
        )
    }

    /// The window for sent data that an ID stands for: that of the connection, or that of a stream
    /// on which data can be sent.
    pub open spec fn send_flow(self, id: StreamId) -> Option<FlowControl> {
        if id.is_zero() {
            Some(self.send_flow_control)
        } else if self.streams.contains_key(id.0) {
            self.streams[id.0].send_flow()
        } else {
            None
        }
    }

    /// The streams with another window for sent data.
    pub open spec fn with_send_flow(self, id: StreamId, flow: FlowControl) -> StreamsModel {
        if id.is_zero() {
            StreamsModel { send_flow_control: flow, ..self }
        } else {
            StreamsModel {
                streams: self.streams.insert(id.0, self.streams[id.0].with_send_flow(flow)),
                ..self
            }
        }
    }

    /// A window for sent data is expanded, and a stream waits to be told of it. What is not there,
    /// or is closed to data, is left as it is.
    pub open spec fn expand_window(self, id: StreamId, sz: WindowSize) -> StreamsModel {
        match self.send_flow(id) {
            Some(flow) => {
                let expanded = self.with_send_flow(id, flow.expanded(sz));
                if !id.is_zero() && flow.update() is None && flow.expanded(sz).update() is Some {
                    StreamsModel {
                        pending_recv_window_updates: self.pending_recv_window_updates.push(id),
                        ..expanded
                    }
                } else {
                    expanded
                }
            },
            None => self,
        }
    }

    /// True if the window can be expanded by so much.
    pub open spec fn expand_fits(self, id: StreamId, sz: WindowSize) -> bool {
        self.send_flow(id) matches Some(flow) ==> flow.expand_fits(sz)
    }

    /// The expansion of a window for sent data is handed out, and may be used from then on: that of
    /// the connection, if there is any, else that of the first stream that waits. If there is none,
    /// the task waits.
    pub open spec fn poll_window_update(self) -> (Async<WindowUpdate>, StreamsModel)
        decreases self.pending_recv_window_updates.len(),
    {
        if self.send_flow_control.update() is Some {
            (
                Async::Ready(
                    WindowUpdate {
                        stream_id: StreamId(0),
                        size_increment: self.send_flow_control.update()->0,
                    },
                ),
                StreamsModel { send_flow_control: self.send_flow_control.applied(), ..self },
            )
        } else if self.pending_recv_window_updates.len() == 0 {
            (Async::NotReady, StreamsModel { blocked: true, ..self })
        } else {
            let id = self.pending_recv_window_updates[0];
            let rest = StreamsModel {
                pending_recv_window_updates: self.pending_recv_window_updates.skip(1),
                ..self
            };
            match self.stream_update(id.0) {
                Some(incr) => (
                    Async::Ready(WindowUpdate { stream_id: id, size_increment: incr }),
                    rest.applied(id),
                ),
                None => rest.poll_window_update(),
            }
        }
    }

    /// The streams after the expansion of a stream's window for sent data was handed out.
    pub open spec fn applied(self, id: StreamId) -> StreamsModel {
        let stream = self.streams[id.0];
        StreamsModel {
            streams: self.streams.insert(
                id.0,
                stream.with_send_flow(stream.send_flow()->0.applied()),
            ),
            ..self
        }
    }

    /// Received data is released, so that the remote side may send as much again on the stream and
    /// on the connection. The answer is whether a window update is to be sent. No more can be
    /// released than was received, nor than the window of the stream can count.
    pub open spec fn release_capacity(self, id: StreamId, sz: WindowSize) -> Step<bool> {
        let flow = if id.is_zero() {
            None
        } else {
            self.recv_flow(id)
        };
        if sz > self.in_flight_data || (flow matches Some(f) && !f.expand_fits(sz)) {
            (Err(ConnectionError::User(User::ReleaseCapacityTooBig)), self)
        } else {
            let connection = self.recv_flow_control.expanded(sz);
            let released = StreamsModel {
                in_flight_data: (self.in_flight_data - sz) as u32,
                recv_flow_control: connection,
                ..self
            };
            match flow {
                None => (Ok(connection.advertised() is Some), released),
                Some(f) => {
                    let queued = f.expanded(sz).advertised() is Some;
                    (
                        Ok(connection.advertised() is Some || queued),
                        StreamsModel {
                            streams: released.streams.insert(
                                id.0,
                                released.streams[id.0].with_recv_flow(f.expanded(sz)),
                            ),
                            pending_send_window_updates: if queued {
                                released.pending_send_window_updates.push(id)
                            } else {
                                released.pending_send_window_updates
                            },
                            ..released
                        },
                    )
                },
            }
        }
    }

    /// What the remote side may send on the connection in all, once everything is released and
    /// advertised.
    pub open spec fn total_window(self) -> int {
        self.recv_flow_control.window_size + self.recv_flow_control.next_window_update
            + self.in_flight_data
    }

    /// The connection's window for received data is to have this size in all. What was advertised
    /// is not taken back.
    pub open spec fn set_target_window_size(self, size: WindowSize) -> StreamsModel {
        let flow = self.recv_flow_control;
        let next = if size >= self.total_window() {
            flow.next_window_update + (size - self.total_window())
        } else if flow.next_window_update >= self.total_window() - size {
            flow.next_window_update - (self.total_window() - size)
        } else {
            0
        };
        StreamsModel {
            recv_flow_control: FlowControl { next_window_update: next as u32, ..flow },
            ..self
        }
    }

    /// The settings of the remote side take effect: how many streams the local side may initiate,
    /// and the window for sent data that new streams start with. What is not mentioned stays.
    pub open spec fn apply_remote_settings(
        self,
        max_concurrent_streams: Option<u32>,
        initial_window_size: Option<u32>,
    ) -> StreamsModel {
        StreamsModel {
            max_local_initiated: match max_concurrent_streams {
                Some(max) => Some(max as usize),
                None => self.max_local_initiated,
            },
            init_local_window_sz: match initial_window_size {
                Some(size) => size,
                None => self.init_local_window_sz,
            },
            ..self
        }
    }

    /// The connection fails. What made it fail first is what the readers of its streams are told.
    pub open spec fn recv_err(self, err: ConnectionError) -> StreamsModel {
        StreamsModel {
            failure: match self.failure {
                Some(first) => Some(first),
                None => Some(err),
            },
            ..self
        }
    }

    /// What the reader of a stream finds behind what was received: the end of the stream, or what
    /// made the connection fail before it ended; else there is more to come.
    pub open spec fn poll_recv_end(self, id: StreamId) -> Result<Async<()>, ConnectionError> {
        if !self.streams.contains_key(id.0) || self.streams[id.0].recv_ended() {
            Ok(Async::Ready(()))
        } else {
            match self.failure {
                Some(err) => Err(err),
                None => Ok(Async::NotReady),
            }
        }
    }

    /// The oldest stream that the remote side initiated is handed out, if there is one.
    pub open spec fn next_incoming(self) -> (Option<StreamId>, StreamsModel) {
        if self.incoming.len() > 0 {
            (
                Some(self.incoming[0]),
                StreamsModel { incoming: self.incoming.skip(1), ..self },
            )
        } else {
            (None, self)
        }
    }

    /// What a stream may send at most, for itself.
    pub open spec fn stream_window(self, id: u32) -> WindowSize {
        if self.streams.contains_key(id) {
            match self.streams[id].send_flow() {
                Some(flow) => flow.window_size,
                None => 0,
            }
        } else {
            0
        }
    }

    /// What the stream gets of a window of the connection of which `left` is left, when it is given
    /// to the reservations from the `k`th on in their order.
    pub open spec fn share(self, k: int, left: int, id: u32) -> int
        decreases self.reservations.len() - k,
    {
        if k >= self.reservations.len() {
            0
        } else {
            let granted = self.granted(k, left);
            if self.reservations[k].0 == id {
                granted
            } else {
                self.share(k + 1, left - granted, id)
            }
        }
    }

    /// What the `k`th reservation gets where `left` is left: what it wants, as far as the windows
    /// go.
    pub open spec fn granted(self, k: int, left: int) -> int {
        let (id, wanted) = self.reservations[k];
        min(min(wanted as int, self.stream_window(id) as int), left)
    }

    /// How much data the stream may send of what it reserved. The window of the connection goes to
    /// those that reserved first.
    pub open spec fn capacity(self, id: StreamId) -> int {
        self.share(0, self.send_flow_control.window_size as int, id.0)
    }

    /// A stream wants to send so much data. It keeps its turn if it has one.
    pub open spec fn reserve_capacity(self, id: StreamId, sz: WindowSize) -> StreamsModel {
        let k = find(self.reservations, id.0);
        StreamsModel {
            reservations: if k < self.reservations.len() {
                self.reservations.update(k, (id.0, sz))
            } else {
                self.reservations.push((id.0, sz))
            },
            ..self
        }
    }

    /// The window for received data that an ID stands for: that of the connection, or that of a
    /// stream on which data can be received.
    pub open spec fn recv_flow(self, id: StreamId) -> Option<FlowControl> {
        if id.is_zero() {
            Some(self.recv_flow_control)
        } else if self.streams.contains_key(id.0) {
            self.streams[id.0].recv_flow()
        } else {
            None
        }
    }

    /// What has yet to be advertised of a window for received data, if it is worth a window update.
    pub open spec fn recv_update(self, id: StreamId) -> Option<WindowSize> {
        match self.recv_flow(id) {
            Some(flow) => flow.advertised(),
            None => None,
        }
    }

    /// The next window update to send: that of the connection, if it has one, else that of the
    /// first stream in the queue that has one. The stream leaves the queue, and so do those before
    /// it.
    pub open spec fn next_window_update(self) -> (Option<WindowUpdate>, StreamsModel)
        decreases self.pending_send_window_updates.len(),
    {
        if self.recv_flow_control.advertised() is Some {
            (
                Some(
                    WindowUpdate {
                        stream_id: StreamId(0),
                        size_increment: self.recv_flow_control.advertised()->0,
                    },
                ),
                self,
            )
        } else if self.pending_send_window_updates.len() == 0 {
            (None, self)
        } else {
            let id = self.pending_send_window_updates[0];
            let rest = StreamsModel {
                pending_send_window_updates: self.pending_send_window_updates.skip(1),
                ..self
            };
            match self.recv_update(id) {
                Some(incr) => (Some(WindowUpdate { stream_id: id, size_increment: incr }), rest),
                None => rest.next_window_update(),
            }
        }
    }

    /// A window update was handed to the transport. If it was taken, the window grows by it; if
    /// not, the stream goes back to the front of the queue.
    pub open spec fn window_update_answered(self, id: StreamId, answer: AsyncSink) -> StreamsModel {
        match answer {
            AsyncSink::Ready => if id.is_zero() {
                StreamsModel { recv_flow_control: self.recv_flow_control.applied(), ..self }
            } else {
                let stream = self.streams[id.0];
                StreamsModel {
                    streams: self.streams.insert(
                        id.0,
                        stream.with_recv_flow(stream.recv_flow()->0.applied()),
                    ),
                    ..self
                }
            },
            AsyncSink::NotReady => if id.is_zero() {
                self
            } else {
                StreamsModel {
                    pending_send_window_updates: seq![id] + self.pending_send_window_updates,
                    ..self
                }
            },
        }
    }
}

// ===== What every operation keeps =====

/// There are fewer streams than there are numbers that a counter can take.
proof fn ids_are_counted(ids: Set<u32>)
    requires
        ids.finite(),
        !ids.contains(0),
    ensures
        ids.len() <= u32::MAX,
{
    let numbers = vstd::set_lib::set_int_range(1, 0x1_0000_0000);
    vstd::set_lib::lemma_int_range(1, 0x1_0000_0000);
    let as_numbers = ids.map(|id: u32| id as int);
    assert(vstd::relations::injective_on(|id: u32| id as int, ids));
    vstd::set_lib::lemma_map_size(ids, as_numbers, |id: u32| id as int);
    assert(as_numbers.subset_of(numbers));
    vstd::set_lib::lemma_len_subset(as_numbers, numbers);
}

/// A stream that closes is counted, and leaves the others counted.
proof fn with_stream_keeps_count(m: StreamsModel, id: StreamId, stream: Stream)
    requires
        m.is_counted(),
        m.streams.contains_key(id.0),
        !(m.streams[id.0] is Closed),
    ensures
        m.with_stream(id, stream).is_counted(),
        local_init(m.is_server, id) ==> m.num_local_initiated > 0,
        !local_init(m.is_server, id) ==> m.num_remote_initiated > 0,
{
    let after = m.with_stream(id, stream);
    let local = local_init(m.is_server, id);
    assert(after.streams.dom() =~= m.streams.dom());
    assert(m.active(local).contains(id.0));
    assert(m.active(local).len() > 0) by {
        if m.active(local).len() == 0 {
            assert(m.active(local) =~= Set::empty());
        }
    }
    if stream is Closed {
        assert(after.active(local) =~= m.active(local).remove(id.0));
    } else {
        assert(after.active(local) =~= m.active(local));
    }
    assert(after.active(!local) =~= m.active(!local));
}

/// A stream changes its state, and has nothing new to be told.
pub proof fn with_stream_keeps_wf(m: StreamsModel, id: StreamId, stream: Stream)
    requires
        m.wf(),
        m.streams.contains_key(id.0),
        !(m.streams[id.0] is Closed),
        stream.windows_fit(),
        stream.send_flow() matches Some(flow) && flow.update() is Some ==> m.stream_update(
            id.0,
        ) is Some,
    ensures
        m.with_stream(id, stream).wf(),
        local_init(m.is_server, id) ==> m.num_local_initiated > 0,
        !local_init(m.is_server, id) ==> m.num_remote_initiated > 0,
{
    with_stream_keeps_count(m, id, stream);
    let after = m.with_stream(id, stream);
    assert forall|other: u32| #[trigger]
        after.streams.contains_key(other) && after.stream_update(other) is Some implies after
        .pending_recv_window_updates.contains(StreamId(other)) by {
        assert(m.streams.contains_key(other));
        assert(m.stream_update(other) is Some);
    }
}

/// A stream that opens is counted, where there is room for it.
pub proof fn opening_keeps_wf(m: StreamsModel, id: StreamId)
    requires
        m.wf(),
        !m.streams.contains_key(id.0),
    ensures
        m.can_remote_open(id) ==> m.num_remote_initiated < usize::MAX,
        m.can_remote_open(id) && !m.remote_full() ==> m.remote_opened(id).wf(),
        m.can_local_open(id) ==> m.num_local_initiated < usize::MAX,
        m.can_local_open(id) ==> m.local_opened(id).wf(),
{
    let local = local_init(m.is_server, id);
    let others = m.active(local);
    if m.can_remote_open(id) || m.can_local_open(id) {
        assert(!others.contains(id.0));
        ids_are_counted(others.insert(id.0));
        assert(m.remote_opened(id).active(local) =~= others.insert(id.0));
        assert(m.remote_opened(id).active(!local) =~= m.active(!local));
        assert(m.local_opened(id).active(local) =~= others.insert(id.0));
        assert(m.local_opened(id).active(!local) =~= m.active(!local));
        opening_keeps_queue(m, m.remote_opened(id), id);
        opening_keeps_queue(m, m.local_opened(id), id);
    }
}

/// A stream that opens has nothing to be told.
proof fn opening_keeps_queue(m: StreamsModel, after: StreamsModel, id: StreamId)
    requires
        m.updates_are_queued(),
        after.streams == m.streams.insert(id.0, Stream::Idle),
        after.pending_recv_window_updates == m.pending_recv_window_updates,
    ensures
        after.updates_are_queued(),
{
    assert forall|other: u32| #[trigger]
        after.streams.contains_key(other) && after.stream_update(other) is Some implies after
        .pending_recv_window_updates.contains(StreamId(other)) by {
        assert(m.streams.contains_key(other));
        assert(m.stream_update(other) is Some);
    }
}

/// Streams that are open or closed as before are counted as before.
proof fn same_streams_same_count(m: StreamsModel, after: StreamsModel)
    requires
        m.is_counted(),
        after.is_server == m.is_server,
        after.max_remote_initiated == m.max_remote_initiated,
        after.num_remote_initiated == m.num_remote_initiated,
        after.num_local_initiated == m.num_local_initiated,
        after.streams.dom() == m.streams.dom(),
        forall|id: u32| #[trigger]
            m.streams.contains_key(id) ==> (after.streams[id] is Closed) == (
            m.streams[id] is Closed),
    ensures
        after.is_counted(),
{
    assert forall|id: u32| after.active(true).contains(id) == m.active(true).contains(id) by {
        assert(after.streams.contains_key(id) == m.streams.contains_key(id));
    }
    assert forall|id: u32| after.active(false).contains(id) == m.active(false).contains(id) by {
        assert(after.streams.contains_key(id) == m.streams.contains_key(id));
    }
    assert(after.active(true) =~= m.active(true));
    assert(after.active(false) =~= m.active(false));
    assert(after.streams.contains_key(0) == m.streams.contains_key(0));
}

/// Where the streams stay as they are, they stay counted, and those that wait keep waiting.
pub proof fn same_streams_keep_wf(m: StreamsModel, after: StreamsModel)
    requires
        m.wf(),
        after.is_server == m.is_server,
        after.max_remote_initiated == m.max_remote_initiated,
        after.num_remote_initiated == m.num_remote_initiated,
        after.num_local_initiated == m.num_local_initiated,
        after.streams == m.streams,
        after.pending_recv_window_updates == m.pending_recv_window_updates,
        after.recv_flow_control.expand_fits(after.in_flight_data),
        after.send_flow_control.update_fits(),
    ensures
        after.wf(),
{
    same_streams_same_count(m, after);
    assert forall|id: u32| #[trigger]
        after.streams.contains_key(id) && after.stream_update(id) is Some implies after
        .pending_recv_window_updates.contains(StreamId(id)) by {
        assert(m.streams.contains_key(id));
        assert(m.stream_update(id) is Some);
    }
}

/// A window for sent data that is expanded is counted, and its stream waits to be told.
proof fn expansion_keeps_wf(m: StreamsModel, id: StreamId, sz: WindowSize)
    requires
        m.wf(),
        m.expand_fits(id, sz),
    ensures
        m.expand_window(id, sz).wf(),
{
    let after = m.expand_window(id, sz);
    if id.is_zero() {
        same_streams_keep_wf(m, after);
    } else if m.send_flow(id) is Some {
        assert(after.streams.dom() =~= m.streams.dom());
        same_streams_same_count(m, after);
        let pushed = m.pending_recv_window_updates.push(id);
        assert(pushed.last() == id);
        assert(pushed.contains(id));
        assert forall|other: u32| #[trigger]
            after.streams.contains_key(other) && after.stream_update(other) is Some implies after
            .pending_recv_window_updates.contains(StreamId(other)) by {
            assert(m.streams.contains_key(other));
            if other != id.0 || m.stream_update(other) is Some {
                assert(m.stream_update(other) is Some);
                let queue = m.pending_recv_window_updates;
                assert(queue.contains(StreamId(other)));
                let k = choose|k: int| 0 <= k < queue.len() && queue[k] == StreamId(other);
                assert(pushed[k] == StreamId(other));
            }
        }
    }
}

/// A stream that is told of the expansion of its window, or has none, leaves the queue.
proof fn leaving_the_queue_keeps_wf(m: StreamsModel)
    requires
        m.wf(),
        m.pending_recv_window_updates.len() > 0,
    ensures
        ({
            let id = m.pending_recv_window_updates[0];
            let rest = StreamsModel {
                pending_recv_window_updates: m.pending_recv_window_updates.skip(1),
                ..m
            };
            if m.stream_update(id.0) is Some {
                rest.applied(id).wf()
            } else {
                rest.wf()
            }
        }),
{
    let queue = m.pending_recv_window_updates;
    let id = queue[0];
    let rest = StreamsModel { pending_recv_window_updates: queue.skip(1), ..m };
    let after = if m.stream_update(id.0) is Some {
        rest.applied(id)
    } else {
        rest
    };
    assert(after.streams.dom() =~= m.streams.dom());
    same_streams_same_count(m, after);
    assert forall|other: u32| #[trigger]
        after.streams.contains_key(other) && after.stream_update(other) is Some implies after
        .pending_recv_window_updates.contains(StreamId(other)) by {
        assert(m.streams.contains_key(other));
        assert(other != id.0);
        assert(m.stream_update(other) is Some);
        assert(queue.contains(StreamId(other)));
        let k = choose|k: int| 0 <= k < queue.len() && queue[k] == StreamId(other);
        assert(queue.skip(1)[k - 1] == StreamId(other));
    }
}

/// A window for received data changes; the streams stay counted, and have nothing new to be told.
proof fn recv_flow_keeps_wf(m: StreamsModel, after: StreamsModel, id: StreamId, flow: FlowControl)
    requires
        m.wf(),
        m.streams.contains_key(id.0),
        m.streams[id.0].recv_flow() is Some,
        flow.update_fits(),
        after.is_server == m.is_server,
        after.max_remote_initiated == m.max_remote_initiated,
        after.num_remote_initiated == m.num_remote_initiated,
        after.num_local_initiated == m.num_local_initiated,
        after.streams == m.streams.insert(id.0, m.streams[id.0].with_recv_flow(flow)),
        after.pending_recv_window_updates == m.pending_recv_window_updates,
        after.recv_flow_control.expand_fits(after.in_flight_data),
        after.send_flow_control == m.send_flow_control,
    ensures
        after.wf(),
{
    assert(after.streams.dom() =~= m.streams.dom());
    same_streams_same_count(m, after);
    assert forall|other: u32| #[trigger]
        after.streams.contains_key(other) && after.stream_update(other) is Some implies after
        .pending_recv_window_updates.contains(StreamId(other)) by {
        assert(m.streams.contains_key(other));
        assert(m.stream_update(other) is Some);
    }
}

/// The reservation of a stream is the first with its number.
pub proof fn found_is_first(reservations: Seq<(u32, WindowSize)>, id: u32)
    ensures
        0 <= find(reservations, id) <= reservations.len(),
        find(reservations, id) < reservations.len() ==> reservations[find(reservations, id)].0
            == id,
        forall|k: int|
            0 <= k < find(reservations, id) ==> (#[trigger] reservations[k]).0 != id,
    decreases reservations.len(),
{
    if reservations.len() > 0 {
        let front = reservations.drop_last();
        found_is_first(front, id);
        assert(forall|k: int| 0 <= k < front.len() ==> front[k] == #[trigger] reservations[k]);
    }
}

// ===== impl Streams =====

impl Streams {
    pub fn new<P: Peer>(config: Config) -> (r: Streams)
        ensures
            r@ == StreamsModel::of_config(P::spec_is_server(), config),
            r@.wf(),
    {
        Streams::with_windows::<P>(
            config,
            config.init_remote_window_sz,
            config.init_local_window_sz,
        )
    }

    /// A set of streams where the windows of the connection have other sizes than those of the
    /// streams.
    pub fn with_windows<P: Peer>(config: Config, recv: WindowSize, send: WindowSize) -> (r: Streams)
        ensures
            r@ == StreamsModel::of_windows(P::spec_is_server(), config, recv, send),
            r@.wf(),
    {
        let r = Streams {
            inner: Inner {
                is_server: P::is_server(),
                max_remote_initiated: config.max_remote_initiated,
                num_remote_initiated: 0,
                init_remote_window_sz: config.init_remote_window_sz,
                max_local_initiated: config.max_local_initiated,
                num_local_initiated: 0,
                init_local_window_sz: config.init_local_window_sz,
                recv_flow_control: FlowControl::new(recv),
                send_flow_control: FlowControl::new(send),
                pending_recv_window_updates: VecDeque::new(),
                pending_send_window_updates: VecDeque::new(),
                blocked: false,
                refused: None,
                in_flight_data: 0,
                last_processed_id: StreamId::zero(),
                incoming: VecDeque::new(),
                failure: None,
                reservations: Vec::new(),
            },
            streams: new_map(),
        };
        proof {
            assert(r@.pending_recv_window_updates =~= Seq::empty());
            assert(r@.pending_send_window_updates =~= Seq::empty());
            assert(r@.incoming =~= Seq::empty());
            assert(r@.reservations =~= Seq::empty());
            assert(r@.active(true) =~= Set::empty());
            assert(r@.active(false) =~= Set::empty());
        }
        r
    }

    /// Headers are received. They are handed back if they are to be acted upon: a stream that
    /// would be one too many is refused.
    pub fn recv_headers(&mut self, frame: Headers) -> (r: Result<Option<Headers>, ConnectionError>)
        requires
            old(self)@.wf(),
            old(self)@.supports_recv_headers(frame@.stream_id, frame@.is_trailers()),
        ensures
            final(self)@.wf(),
            ({
                let (answer, after) = old(self)@.recv_headers(
                    frame@.stream_id,
                    frame@.is_trailers(),
                    frame@.flags.has(END_STREAM),
                );
                &&& final(self)@ == after
                &&& r == match answer {
                    Ok(true) => Ok(Some(frame)),
                    Ok(false) => Ok(None),
                    Err(err) => Err(err),
                }
            }),
    {
        let id = frame.stream_id();
        if let Err(err) = validate_stream_id(id, ConnectionError::Proto(Reason::ProtocolError)) {
            return Err(err);
        }
        let trailers = frame.is_trailers();
        if map_get(&self.streams, id.0).is_none() {
            // Trailers cannot open a stream. Trailers are header frames
            // that do not contain pseudo headers. Requests MUST contain a
            // method and responses MUST contain a status. If they do not,
            // they are considered to be malformed.
            if trailers {
                return Err(ConnectionError::Proto(Reason::ProtocolError));
            }
            proof {
                opening_keeps_wf(self@, id);
            }
            match self.inner.remote_open(id) {
                Ok(Some(stream)) => {
                    map_insert(&mut self.streams, id.0, stream);
                },
                Ok(None) => {
                    proof {
                        same_streams_keep_wf(old(self)@, self@);
                    }
                    return Ok(None);
                },
                Err(err) => return Err(err),
            }
        }
        let ghost m = self@;
        let eos = frame.is_end_stream();
        if let Some(stream) = map_get_mut(&mut self.streams, id.0) {
            proof {
                let s = m.streams[id.0];
                if trailers {
                    if s.trailers_received(eos) is Ok {
                        with_stream_keeps_wf(m, id, s.trailers_received(eos)->Ok_0);
                    }
                } else if s.recv_opened(m.init_remote_window_sz, eos) is Ok {
                    with_stream_keeps_wf(
                        m,
                        id,
                        s.recv_opened(m.init_remote_window_sz, eos)->Ok_0,
                    );
                }
            }
            let r = if trailers {
                self.inner.recv_trailers(id, stream, eos)
            } else {
                self.inner.recv_headers(id, stream, eos)
            };
            if let Err(err) = r {
                assert(self@.streams =~= m.streams);
                return Err(err);
            }
        }
        Ok(Some(frame))
    }

    /// Data is received.
    pub fn recv_data(&mut self, frame: &Data) -> (r: Result<(), ConnectionError>)
        requires
            old(self)@.wf(),
            frame@.payload.len() <= MAX_WINDOW_SIZE,
        ensures
            final(self)@.wf(),
            (r, final(self)@) == old(self)@.recv_data(
                frame@.stream_id,
                frame@.payload.len() as u32,
                frame@.end_stream,
            ),
    {
        let id = frame.stream_id();
        let sz: WindowSize = frame.len() as WindowSize;
        let eos = frame.is_end_stream();
        let ghost m = self@;
        match map_get_mut(&mut self.streams, id.0) {
            Some(stream) => {
                let ghost s = m.streams[id.0];
                let ghost next = {
                    let claimed = s.with_recv_flow(s.recv_flow()->0.claimed(sz));
                    if s.recv_flow() is None || sz > s.recv_flow()->0.window_size {
                        s
                    } else if eos {
                        claimed.recv_closed()->Ok_0
                    } else {
                        claimed
                    }
                };
                proof {
                    if s.recv_flow() is Some {
                        with_stream_keeps_wf(m, id, next);
                    }
                }
                // Ensure there's enough capacity on the connection before acting on the
                // stream.
                let r = self.inner.recv_data(id, stream, sz, eos);
                proof {
                    if r is Err {
                        assert(self@.streams =~= m.streams);
                    } else {
                        same_streams_keep_wf(m.with_stream(id, next), self@);
                    }
                }
                r
            },
            None => Err(ConnectionError::Proto(Reason::ProtocolError)),
        }
    }

    /// The remote side expands a window for sent data. The answer is whether a task waits to be
    /// notified of it.
    pub fn recv_window_update(&mut self, frame: WindowUpdate) -> (r: bool)
        requires
            old(self)@.wf(),
            old(self)@.expand_fits(frame.stream_id, frame.size_increment),
        ensures
            final(self)@.wf(),
            (r, final(self)@) == old(self)@.recv_window_update(frame),
    {
        // The remote may send window updates for streams that the local now
        // considers closed. It's ok...
        self.expand_window(frame.stream_id(), frame.size_increment());
        let ghost m = self@;
        let blocked = self.inner.blocked;
        self.inner.blocked = false;
        proof {
            same_streams_keep_wf(m, self@);
        }
        blocked
    }

    /// Expands a window for sent data.
    pub fn expand_window(&mut self, id: StreamId, sz: WindowSize)
        requires
            old(self)@.wf(),
            old(self)@.expand_fits(id, sz),
        ensures
            final(self)@.wf(),
            final(self)@ == old(self)@.expand_window(id, sz),
    {
        let ghost m = self@;
        proof {
            expansion_keeps_wf(m, id, sz);
        }
        if id.is_zero() {
            self.inner.expand_connection_window(sz);
        } else {
            if let Some(stream) = map_get_mut(&mut self.streams, id.0) {
                self.inner.expand_stream_window(id, sz, stream);
            }
            assert(self@.streams =~= m.expand_window(id, sz).streams);
        }
    }

    /// Headers are sent.
    pub fn send_headers(&mut self, frame: &Headers) -> (r: Result<(), ConnectionError>)
        requires
            old(self)@.wf(),
        ensures
            final(self)@.wf(),
            (r, final(self)@) == old(self)@.send_headers(
                frame@.stream_id,
                frame@.is_trailers(),
                frame@.flags.has(END_STREAM),
            ),
    {
        let id = frame.stream_id();
        if let Err(err) = validate_stream_id(id, ConnectionError::User(User::InvalidStreamId)) {
            return Err(err);
        }
        let trailers = frame.is_trailers();
        if map_get(&self.streams, id.0).is_none() {
            // Trailers cannot open a stream. Trailers are header frames
            // that do not contain pseudo headers. Requests MUST contain a
            // method and responses MUST contain a status. If they do not,
            // they are considered to be malformed.
            if trailers {
                return Err(ConnectionError::User(User::UnexpectedFrameType));
            }
            proof {
                opening_keeps_wf(self@, id);
            }
            match self.inner.local_open(id) {
                Ok(stream) => {
                    map_insert(&mut self.streams, id.0, stream);
                },
                Err(err) => return Err(err),
            }
        }
        let ghost m = self@;
        let eos = frame.is_end_stream();
        if let Some(stream) = map_get_mut(&mut self.streams, id.0) {
            proof {
                let s = m.streams[id.0];
                if trailers {
                    if s.trailers_sent(eos) is Ok {
                        with_stream_keeps_wf(m, id, s.trailers_sent(eos)->Ok_0);
                    }
                } else if s.send_opened(m.init_local_window_sz, eos) is Ok {
                    with_stream_keeps_wf(m, id, s.send_opened(m.init_local_window_sz, eos)->Ok_0);
                }
            }
            let r = if trailers {
                self.inner.send_trailers(id, stream, eos)
            } else {
                self.inner.send_headers(id, stream, eos)
            };
            if let Err(err) = r {
                assert(self@.streams =~= m.streams);
                return Err(err);
            }
        }
        Ok(())
    }

    /// Data is sent.
    pub fn send_data(&mut self, frame: &Data) -> (r: Result<(), ConnectionError>)
        requires
            old(self)@.wf(),
            frame@.payload.len() <= MAX_WINDOW_SIZE,
        ensures
            final(self)@.wf(),
            (r, final(self)@) == old(self)@.send_data(
                frame@.stream_id,
                frame@.payload.len() as u32,
                frame@.end_stream,
            ),
    {
        let id = frame.stream_id();
        let sz: WindowSize = frame.len() as WindowSize;
        let eos = frame.is_end_stream();
        let ghost m = self@;
        match map_get_mut(&mut self.streams, id.0) {
            Some(stream) => {
                let ghost s = m.streams[id.0];
                let ghost next = {
                    let claimed = s.with_send_flow(s.send_flow()->0.claimed(sz));
                    if s.send_flow() is None || sz > s.send_flow()->0.window_size {
                        s
                    } else if eos {
                        claimed.send_closed()->Ok_0
                    } else {
                        claimed
                    }
                };
                proof {
                    if s.send_flow() is Some {
                        with_stream_keeps_wf(m, id, next);
                    }
                }
                // Ensure there's enough capacity on the connection before acting on the
                // stream.
                let r = self.inner.send_data(id, stream, sz, eos);
                proof {
                    if r is Err {
                        assert(self@.streams =~= m.streams);
                    } else {
                        same_streams_keep_wf(m.with_stream(id, next), self@);
                    }
                }
                r
            },
            None => Err(ConnectionError::User(User::UnexpectedFrameType)),
        }
    }

    /// True if `recv_headers` supports the frame: a refusal must have been sent before another
    /// stream can be opened.
    pub fn can_recv_headers(&self, frame: &Headers) -> (r: bool)
        ensures
            r == self@.supports_recv_headers(frame@.stream_id, frame@.is_trailers()),
    {
        let id = frame.stream_id();
        id.is_zero() || map_get(&self.streams, id.0).is_some() || frame.is_trailers()
            || self.inner.refused.is_none()
    }

    /// True if the window for sent data can be expanded by so much.
    pub fn can_expand_window(&self, id: StreamId, sz: WindowSize) -> (r: bool)
        requires
            self@.wf(),
        ensures
            r == self@.expand_fits(id, sz),
    {
        if id.is_zero() {
            let flow = self.inner.send_flow_control;
            flow.window_size + flow.next_window_update <= u32::MAX - sz
        } else {
            match map_get(&self.streams, id.0) {
                Some(stream) => {
                    assert(self@.streams.contains_key(id.0));
                    let mut stream = *stream;
                    match stream.send_flow_control() {
                        Some(flow) => flow.window_size + flow.next_window_update <= u32::MAX - sz,
                        None => true,
                    }
                },
                None => true,
            }
        }
    }

    /// Hands out the expansion of a window for sent data, which may be used from now on. If there
    /// is none, the calling task is to be notified of the next.
    pub fn poll_window_update(&mut self) -> (r: Result<Async<WindowUpdate>, ConnectionError>)
        requires
            old(self)@.wf(),
        ensures
            final(self)@.wf(),
            r is Ok,
            (r->Ok_0, final(self)@) == old(self)@.poll_window_update(),
    {
        self.inner.poll_window_update(&mut self.streams)
    }

    /// Received data is released, so that the remote side may send as much again on the stream and
    /// on the connection. The answer is whether a window update is to be sent, of which the task
    /// that drives the connection is to be notified.
    pub fn release_capacity(&mut self, id: StreamId, sz: WindowSize) -> (r: Result<
        bool,
        ConnectionError,
    >)
        requires
            old(self)@.wf(),
        ensures
            final(self)@.wf(),
            (r, final(self)@) == old(self)@.release_capacity(id, sz),
    {
        let ghost m = self@;
        let too_big = ConnectionError::User(User::ReleaseCapacityTooBig);
        if sz > self.inner.in_flight_data {
            return Err(too_big);
        }
        let mut queued = false;
        let mut found = false;
        if !id.is_zero() {
            if let Some(stream) = map_get_mut(&mut self.streams, id.0) {
                assert(m.streams.contains_key(id.0));
                if let Some(flow) = stream.recv_flow_control() {
                    if flow.window_size + flow.next_window_update > u32::MAX - sz {
                        assert(self@.streams =~= m.streams);
                        return Err(too_big);
                    }
                    flow.expand_window(sz);
                    queued = flow.peek_window_update().is_some();
                    found = true;
                }
            }
        }
        if queued {
            self.inner.pending_send_window_updates.push_back(id);
        }
        self.inner.in_flight_data = self.inner.in_flight_data - sz;
        self.inner.recv_flow_control.expand_window(sz);
        proof {
            assert(found == (!id.is_zero() && m.recv_flow(id) is Some));
            if found {
                recv_flow_keeps_wf(m, self@, id, m.recv_flow(id)->0.expanded(sz));
            } else {
                assert(self@.streams =~= m.streams);
                same_streams_keep_wf(m, self@);
            }
        }
        Ok(self.inner.recv_flow_control.peek_window_update().is_some() || queued)
    }

    /// Sets what the remote side may send on the connection in all. What was advertised is not
    /// taken back.
    pub fn set_target_window_size(&mut self, size: WindowSize)
        requires
            old(self)@.wf(),
        ensures
            final(self)@.wf(),
            final(self)@ == old(self)@.set_target_window_size(size),
            final(self)@.total_window() == if size >= old(self)@.recv_flow_control.window_size
                + old(self)@.in_flight_data {
                size as int
            } else {
                old(self)@.recv_flow_control.window_size + old(self)@.in_flight_data
            },
    {
        let ghost m = self@;
        let flow = self.inner.recv_flow_control;
        let total: WindowSize = flow.window_size + flow.next_window_update
            + self.inner.in_flight_data;
        if size >= total {
            self.inner.recv_flow_control.expand_window(size - total);
        } else if flow.next_window_update >= total - size {
            self.inner.recv_flow_control.next_window_update = flow.next_window_update - (total
                - size);
        } else {
            self.inner.recv_flow_control.next_window_update = 0;
        }
        proof {
            same_streams_keep_wf(m, self@);
        }
    }

    /// The settings of the remote side take effect.
    pub fn apply_remote_settings(&mut self, settings: &Settings)
        requires
            old(self)@.wf(),
        ensures
            final(self)@.wf(),
            final(self)@ == old(self)@.apply_remote_settings(
                settings.max_concurrent_streams,
                settings.initial_window_size,
            ),
    {
        let ghost m = self@;
        if let Some(max) = settings.max_concurrent_streams {
            self.inner.max_local_initiated = Some(max as usize);
        }
        if let Some(size) = settings.initial_window_size {
            self.inner.init_local_window_sz = size;
        }
        proof {
            same_streams_keep_wf(m, self@);
        }
    }

    /// Whether the local side can initiate another stream: not as long as there are as many active
    /// ones as there may be.
    pub fn poll_send_request_ready(&self) -> (r: Async<()>)
        ensures
            r == if self@.local_full() {
                Async::NotReady
            } else {
                Async::Ready(())
            },
    {
        match self.inner.max_local_initiated {
            Some(max) => {
                if max <= self.inner.num_local_initiated {
                    Async::NotReady
                } else {
                    Async::Ready(())
                }
            },
            None => Async::Ready(()),
        }
    }

    /// The connection fails. The answer is the last stream that the remote side initiated.
    pub fn recv_err(&mut self, err: ConnectionError) -> (r: StreamId)
        requires
            old(self)@.wf(),
        ensures
            final(self)@.wf(),
            final(self)@ == old(self)@.recv_err(err),
            r == old(self)@.last_processed_id,
    {
        if self.inner.failure.is_none() {
            self.inner.failure = Some(err);
        }
        proof {
            same_streams_keep_wf(old(self)@, self@);
        }
        self.inner.last_processed_id
    }

    /// What the reader of a stream finds behind what was received: it is ready if the stream has
    /// ended, and an error if the connection failed before that.
    pub fn poll_recv_end(&self, id: StreamId) -> (r: Result<Async<()>, ConnectionError>)
        ensures
            r == self@.poll_recv_end(id),
    {
        match map_get(&self.streams, id.0) {
            Some(stream) => {
                if stream.is_recv_ended() {
                    return Ok(Async::Ready(()));
                }
                match self.inner.failure {
                    Some(err) => Err(err),
                    None => Ok(Async::NotReady),
                }
            },
            None => Ok(Async::Ready(())),
        }
    }

    /// Hands out the streams that the remote side initiated, oldest first.
    pub fn next_incoming(&mut self) -> (r: Option<StreamId>)
        requires
            old(self)@.wf(),
        ensures
            final(self)@.wf(),
            (r, final(self)@) == old(self)@.next_incoming(),
    {
        let ghost m = self@;
        let r = self.inner.incoming.pop_front();
        proof {
            if m.incoming.len() > 0 {
                assert(self@.incoming =~= m.incoming.skip(1));
            } else {
                assert(self@.incoming =~= m.incoming);
            }
            same_streams_keep_wf(m, self@);
        }
        r
    }

    /// The last stream that the remote side initiated; zero if there is none.
    pub fn last_processed_id(&self) -> (r: StreamId)
        ensures
            r == self@.last_processed_id,
    {
        self.inner.last_processed_id
    }

    /// A stream wants to send so much data. It keeps its turn if it has one.
    pub fn reserve_capacity(&mut self, id: StreamId, sz: WindowSize)
        requires
            old(self)@.wf(),
        ensures
            final(self)@.wf(),
            final(self)@ == old(self)@.reserve_capacity(id, sz),
    {
        let ghost m = self@;
        let k: usize = self.inner.find_reservation(id);
        proof {
            found_is_first(m.reservations, id.0);
        }
        if k < self.inner.reservations.len() {
            self.inner.reservations.set(k, (id.0, sz));
        } else {
            self.inner.reservations.push((id.0, sz));
        }
        proof {
            same_streams_keep_wf(m, self@);
        }
    }

    /// How much data the stream may send of what it reserved. The window of the connection goes to
    /// those that reserved first.
    pub fn capacity(&self, id: StreamId) -> (r: WindowSize)
        ensures
            r == self@.capacity(id),
    {
        let mut left: WindowSize = self.inner.send_flow_control.window_size;
        let mut k: usize = 0;
        while k < self.inner.reservations.len()
            invariant
                0 <= k <= self.inner.reservations@.len(),
                self@.capacity(id) == self@.share(k as int, left as int, id.0),
            decreases self.inner.reservations@.len() - k,
        {
            let (stream_id, wanted) = self.inner.reservations[k];
            let window: WindowSize = match map_get(&self.streams, stream_id) {
                Some(stream) => {
                    let mut stream = *stream;
                    match stream.send_flow_control() {
                        Some(flow) => flow.window_size,
                        None => 0,
                    }
                },
                None => 0,
            };
            let mut granted: WindowSize = wanted;
            if window < granted {
                granted = window;
            }
            if left < granted {
                granted = left;
            }
            assert(granted == self@.granted(k as int, left as int));
            if stream_id == id.0 {
                return granted;
            }
            left = left - granted;
            k = k + 1;
        }
        0
    }

    /// The frame that tells the remote that a stream is refused, if one is. What the transport
    /// says to it goes to `refusal_answered`.
    pub fn send_pending_refusal(&mut self) -> (r: Option<Reset>)
        requires
            old(self)@.wf(),
        ensures
            final(self)@.wf(),
            (r, final(self)@) == old(self)@.send_pending_refusal(),
    {
        let r = self.inner.send_pending_refusal();
        proof {
            same_streams_keep_wf(old(self)@, self@);
        }
        r
    }

    /// The transport took the refusal, or did not: then it stays pending.
    pub fn refusal_answered(&mut self, frame: Reset, answer: AsyncSink) -> (r: Async<()>)
        requires
            old(self)@.wf(),
        ensures
            final(self)@.wf(),
            final(self)@ == old(self)@.refusal_answered(frame.stream_id, answer),
            r == match answer {
                AsyncSink::Ready => Async::Ready(()),
                AsyncSink::NotReady => Async::NotReady,
            },
    {
        match answer {
            AsyncSink::Ready => Async::Ready(()),
            AsyncSink::NotReady => {
                self.inner.refused = Some(frame.stream_id());
                proof {
                    same_streams_keep_wf(old(self)@, self@);
                }
                Async::NotReady
            },
        }
    }

    /// The next window update to send, if there is one: that of the connection, else that of the
    /// first stream in the queue that has one. What the transport says to it goes to
    /// `window_update_answered`.
    pub fn send_pending_window_updates(&mut self) -> (r: Option<WindowUpdate>)
        requires
            old(self)@.wf(),
        ensures
            final(self)@.wf(),
            (r, final(self)@) == old(self)@.next_window_update(),
            r matches Some(frame) ==> final(self)@.recv_update(frame.stream_id) == Some(
                frame.size_increment,
            ),
    {
        match self.inner.send_connection_window_update() {
            Some(frame) => Some(frame),
            None => self.inner.send_stream_window_update(&self.streams),
        }
    }

    /// The transport took the window update, which the window then grows by; or it did not: then
    /// the stream goes back to the front of the queue.
    pub fn window_update_answered(&mut self, frame: WindowUpdate, answer: AsyncSink) -> (r: Async<
        (),
    >)
        requires
            old(self)@.wf(),
            old(self)@.recv_update(frame.stream_id) == Some(frame.size_increment),
        ensures
            final(self)@.wf(),
            final(self)@ == old(self)@.window_update_answered(frame.stream_id, answer),
            r == match answer {
                AsyncSink::Ready => Async::Ready(()),
                AsyncSink::NotReady => Async::NotReady,
            },
    {
        let ghost m = self@;
        let id = frame.stream_id();
        match answer {
            AsyncSink::Ready => {
                if id.is_zero() {
                    self.inner.recv_flow_control.apply_window_update();
                    proof {
                        same_streams_keep_wf(m, self@);
                    }
                } else {
                    assert(m.streams.contains_key(id.0));
                    if let Some(stream) = map_get_mut(&mut self.streams, id.0) {
                        if let Some(flow) = stream.recv_flow_control() {
                            flow.apply_window_update();
                        }
                    }
                    proof {
                        recv_flow_keeps_wf(m, self@, id, m.recv_flow(id)->0.applied());
                    }
                }
                Async::Ready(())
            },
            AsyncSink::NotReady => {
                if !id.is_zero() {
                    self.inner.pending_send_window_updates.push_front(id);
                    proof {
                        assert(self@.pending_send_window_updates =~= seq![id]
                            + m.pending_send_window_updates);
                        same_streams_keep_wf(m, self@);
                    }
                }
                Async::NotReady
            },
        }
    }

    /// Returns the number of active streams.
    ///
    /// An active stream is a stream that has not yet transitioned to a closed
    /// state.
    pub fn num_active_streams(&self) -> (r: usize)
        requires
            self@.wf(),
        ensures
            r == self@.active(true).len() + self@.active(false).len(),
            r == self@.streams.dom().filter(|id: u32| !(self@.streams[id] is Closed)).len(),
    {
        proof {
            let all = self@.streams.dom().filter(|id: u32| !(self@.streams[id] is Closed));
            assert(self@.active(true).disjoint(self@.active(false)));
            vstd::set_lib::lemma_set_disjoint_lens(self@.active(true), self@.active(false));
            assert(self@.active(true) + self@.active(false) =~= all);
            ids_are_counted(all);
        }
        self.inner.num_local_initiated + self.inner.num_remote_initiated
    }

    /// Returns the number of streams that are held in memory.
    ///
    /// A wired stream is a stream that is either active or is closed but must
    /// stay in memory for some reason.
    pub fn num_wired_streams(&self) -> (r: usize)
        ensures
            r == self@.streams.dom().len(),
    {
        map_len(&self.streams)
    }
}

// ===== impl Inner =====

impl Inner {
    /// The state with one stream less that is counted.
    spec fn without(self, id: StreamId) -> Inner {
        if local_init(self.is_server, id) {
            Inner { num_local_initiated: (self.num_local_initiated - 1) as usize, ..self }
        } else {
            Inner { num_remote_initiated: (self.num_remote_initiated - 1) as usize, ..self }
        }
    }

    /// True if a stream with this ID can be counted.
    spec fn counts(self, id: StreamId) -> bool {
        if local_init(self.is_server, id) {
            self.num_local_initiated > 0
        } else {
            self.num_remote_initiated > 0
        }
    }

    /// The state, with one stream less that is counted if the stream is closed.
    spec fn settled(self, id: StreamId, stream: Stream) -> Inner {
        if stream is Closed {
            self.without(id)
        } else {
            self
        }
    }

    /// Update state reflecting a new, remotely opened stream
    ///
    /// Returns the stream state if successful. `None` if refused
    fn remote_open(&mut self, id: StreamId) -> (r: Result<Option<Stream>, ConnectionError>)
        requires
            old(self).refused is None,
            !id.is_zero() && !local_init(old(self).is_server, id) ==> old(
                self
            ).num_remote_initiated < usize::MAX,
        ensures
            if id.is_zero() || local_init(old(self).is_server, id) {
                r == Err::<Option<Stream>, ConnectionError>(
                    ConnectionError::Proto(Reason::ProtocolError),
                ) && *final(self) == *old(self)
            } else if old(self).max_remote_initiated matches Some(max) && max <= old(
                self
            ).num_remote_initiated {
                r == Ok::<Option<Stream>, ConnectionError>(None) && *final(self) == (Inner {
                    refused: Some(id),
                    ..*old(self)
                })
            } else {
                r == Ok::<Option<Stream>, ConnectionError>(Some(Stream::Idle)) && final(
                    self
                ).incoming@ == old(self).incoming@.push(id) && *final(self) == (Inner {
                    incoming: final(self).incoming,
                    num_remote_initiated: (old(self).num_remote_initiated + 1) as usize,
                    last_processed_id: if id.0 > old(self).last_processed_id.0 {
                        id
                    } else {
                        old(self).last_processed_id
                    },
                    ..*old(self)
                })
            },
    {
        if !self.can_remote_open(id) {
            return Err(ConnectionError::Proto(Reason::ProtocolError));
        }
        if let Some(max) = self.max_remote_initiated {
            if max <= self.num_remote_initiated {
                self.refused = Some(id);
                return Ok(None);
            }
        }
        // Increment the number of remote initiated streams
        self.num_remote_initiated = self.num_remote_initiated + 1;
        if id.0 > self.last_processed_id.0 {
            self.last_processed_id = id;
        }
        self.incoming.push_back(id);
        Ok(Some(Stream::default()))
    }

    /// Transition the stream state based on receiving headers
    fn recv_headers(&mut self, id: StreamId, stream: &mut Stream, eos: bool) -> (r: Result<
        (),
        ConnectionError,
    >)
        requires
            !id.is_zero(),
            old(stream).recv_opened(old(self).init_remote_window_sz, eos) is Ok ==> old(
                self
            ).counts(id),
        ensures
            match old(stream).recv_opened(old(self).init_remote_window_sz, eos) {
                Ok(s) => {
                    &&& r == Ok::<(), ConnectionError>(())
                    &&& *final(stream) == s
                    &&& *final(self) == old(self).settled(id, s)
                },
                Err(err) => {
                    &&& r == Err::<(), ConnectionError>(err)
                    &&& *final(stream) == *old(stream)
                    &&& *final(self) == *old(self)
                },
            },
    {
        if let Err(err) = stream.recv_open(self.init_remote_window_sz, eos) {
            return Err(err);
        }
        if stream.is_closed() {
            self.stream_closed(id);
        }
        Ok(())
    }

    /// Transition the stream state based on receiving trailers
    fn recv_trailers(&mut self, id: StreamId, stream: &mut Stream, eos: bool) -> (r: Result<
        (),
        ConnectionError,
    >)
        requires
            !id.is_zero(),
            old(stream).trailers_received(eos) is Ok ==> old(self).counts(id),
        ensures
            match old(stream).trailers_received(eos) {
                Ok(s) => {
                    &&& r == Ok::<(), ConnectionError>(())
                    &&& *final(stream) == s
                    &&& *final(self) == old(self).settled(id, s)
                },
                Err(err) => {
                    &&& r == Err::<(), ConnectionError>(err)
                    &&& *final(stream) == *old(stream)
                    &&& *final(self) == *old(self)
                },
            },
    {
        if let Err(err) = stream.recv_trailers(eos) {
            return Err(err);
        }
        if stream.is_closed() {
            self.stream_closed(id);
        }
        Ok(())
    }

    fn recv_data(&mut self, id: StreamId, stream: &mut Stream, sz: WindowSize, eos: bool) -> (r:
        Result<(), ConnectionError>)
        requires
            !id.is_zero(),
            old(stream).recv_flow() is Some ==> old(self).counts(id),
            old(self).recv_flow_control.expand_fits(old(self).in_flight_data),
        ensures
            match old(stream).recv_flow() {
                None => {
                    &&& r == Err::<(), ConnectionError>(
                        ConnectionError::Proto(Reason::ProtocolError),
                    )
                    &&& *final(stream) == *old(stream)
                    &&& *final(self) == *old(self)
                },
                Some(flow) => if sz > old(self).recv_flow_control.window_size || sz
                    > flow.window_size {
                    &&& r == Err::<(), ConnectionError>(
                        ConnectionError::Proto(Reason::FlowControlError),
                    )
                    &&& *final(stream) == *old(stream)
                    &&& *final(self) == *old(self)
                } else {
                    let claimed = old(stream).with_recv_flow(flow.claimed(sz));
                    let next = if eos {
                        claimed.recv_closed()->Ok_0
                    } else {
                        claimed
                    };
                    &&& r == Ok::<(), ConnectionError>(())
                    &&& *final(stream) == next
                    &&& *final(self) == (Inner {
                        recv_flow_control: old(self).recv_flow_control.claimed(sz),
                        in_flight_data: (old(self).in_flight_data + sz) as u32,
                        ..old(self).settled(id, next)
                    })
                },
            },
    {
        let err = ConnectionError::Proto(Reason::FlowControlError);
        match stream.recv_flow_control() {
            Some(flow) => {
                // Ensure there's enough capacity on the connection before
                // acting on the stream.
                if let Err(err) = self.recv_flow_control.ensure_window(sz, err) {
                    return Err(err);
                }
                // Claim the window on the stream
                if let Err(err) = flow.claim_window(sz, err) {
                    return Err(err);
                }
                // Claim the window on the connection.
                if let Err(err) = self.recv_flow_control.claim_window(sz, err) {
                    return Err(err);
                }
                self.in_flight_data = self.in_flight_data + sz;
            },
            None => return Err(ConnectionError::Proto(Reason::ProtocolError)),
        }
        if eos {
            if let Err(err) = stream.recv_close() {
                return Err(err);
            }
            if stream.is_closed() {
                self.stream_closed(id);
            }
        }
        Ok(())
    }

    /// Update state reflecting a new, locally opened stream
    ///
    /// Returns the stream state if successful.
    fn local_open(&mut self, id: StreamId) -> (r: Result<Stream, ConnectionError>)
        requires
            !id.is_zero() && local_init(old(self).is_server, id) ==> old(self).num_local_initiated
                < usize::MAX,
        ensures
            if id.is_zero() || !local_init(old(self).is_server, id) {
                r == Err::<Stream, ConnectionError>(
                    ConnectionError::User(User::UnexpectedFrameType),
                ) && *final(self) == *old(self)
            } else if old(self).max_local_initiated matches Some(max) && max <= old(
                self
            ).num_local_initiated {
                r == Err::<Stream, ConnectionError>(ConnectionError::User(User::Rejected))
                    && *final(self) == *old(self)
            } else {
                r == Ok::<Stream, ConnectionError>(Stream::Idle) && *final(self) == (Inner {
                    num_local_initiated: (old(self).num_local_initiated + 1) as usize,
                    ..*old(self)
                })
            },
    {
        if !self.can_local_open(id) {
            return Err(ConnectionError::User(User::UnexpectedFrameType));
        }
        if let Some(max) = self.max_local_initiated {
            if max <= self.num_local_initiated {
                return Err(ConnectionError::User(User::Rejected));
            }
        }
        // Increment the number of locally initiated streams
        self.num_local_initiated = self.num_local_initiated + 1;
        Ok(Stream::default())
    }

    /// Transition the stream state based on sending headers
    fn send_headers(&mut self, id: StreamId, stream: &mut Stream, eos: bool) -> (r: Result<
        (),
        ConnectionError,
    >)
        requires
            !id.is_zero(),
            old(stream).send_opened(old(self).init_local_window_sz, eos) is Ok ==> old(
                self
            ).counts(id),
        ensures
            match old(stream).send_opened(old(self).init_local_window_sz, eos) {
                Ok(s) => {
                    &&& r == Ok::<(), ConnectionError>(())
                    &&& *final(stream) == s
                    &&& *final(self) == old(self).settled(id, s)
                },
                Err(err) => {
                    &&& r == Err::<(), ConnectionError>(err)
                    &&& *final(stream) == *old(stream)
                    &&& *final(self) == *old(self)
                },
            },
    {
        if let Err(err) = stream.send_open(self.init_local_window_sz, eos) {
            return Err(err);
        }
        if stream.is_closed() {
            self.stream_closed(id);
        }
        Ok(())
    }

    /// Transition the stream state based on sending trailers
    fn send_trailers(&mut self, id: StreamId, stream: &mut Stream, eos: bool) -> (r: Result<
        (),
        ConnectionError,
    >)
        requires
            !id.is_zero(),
            old(stream).trailers_sent(eos) is Ok ==> old(self).counts(id),
        ensures
            match old(stream).trailers_sent(eos) {
                Ok(s) => {
                    &&& r == Ok::<(), ConnectionError>(())
                    &&& *final(stream) == s
                    &&& *final(self) == old(self).settled(id, s)
                },
                Err(err) => {
                    &&& r == Err::<(), ConnectionError>(err)
                    &&& *final(stream) == *old(stream)
                    &&& *final(self) == *old(self)
                },
            },
    {
        if let Err(err) = stream.send_trailers(eos) {
            return Err(err);
        }
        if stream.is_closed() {
            self.stream_closed(id);
        }
        Ok(())
    }

    fn send_data(&mut self, id: StreamId, stream: &mut Stream, sz: WindowSize, eos: bool) -> (r:
        Result<(), ConnectionError>)
        requires
            !id.is_zero(),
            old(stream).send_flow() is Some ==> old(self).counts(id),
        ensures
            match old(stream).send_flow() {
                None => {
                    &&& r == Err::<(), ConnectionError>(
                        ConnectionError::User(User::UnexpectedFrameType),
                    )
                    &&& *final(stream) == *old(stream)
                    &&& *final(self) == *old(self)
                },
                Some(flow) => if sz > old(self).send_flow_control.window_size || sz
                    > flow.window_size {
                    &&& r == Err::<(), ConnectionError>(
                        ConnectionError::User(User::FlowControlViolation),
                    )
                    &&& *final(stream) == *old(stream)
                    &&& *final(self) == *old(self)
                } else {
                    let claimed = old(stream).with_send_flow(flow.claimed(sz));
                    let next = if eos {
                        claimed.send_closed()->Ok_0
                    } else {
                        claimed
                    };
                    &&& r == Ok::<(), ConnectionError>(())
                    &&& *final(stream) == next
                    &&& final(self).reservations@ == used(old(self).reservations@, id.0, sz)
                    &&& *final(self) == (Inner {
                        send_flow_control: old(self).send_flow_control.claimed(sz),
                        reservations: final(self).reservations,
                        ..old(self).settled(id, next)
                    })
                },
            },
    {
        let err = ConnectionError::User(User::FlowControlViolation);
        match stream.send_flow_control() {
            Some(flow) => {
                if let Err(err) = self.send_flow_control.ensure_window(sz, err) {
                    return Err(err);
                }
                // Claim the window on the stream
                if let Err(err) = flow.claim_window(sz, err) {
                    return Err(err);
                }
                // Claim the window on the connection
                if let Err(err) = self.send_flow_control.claim_window(sz, err) {
                    return Err(err);
                }
                self.use_reservation(id, sz);
            },
            None => return Err(ConnectionError::User(User::UnexpectedFrameType)),
        }
        if eos {
            if let Err(err) = stream.send_close() {
                return Err(err);
            }
            if stream.is_closed() {
                self.stream_closed(id);
            }
        }
        Ok(())
    }

    /// Where the reservation of the stream stands; behind all of them if it has none.
    fn find_reservation(&self, id: StreamId) -> (r: usize)
        ensures
            r == find(self.reservations@, id.0),
    {
        proof {
            found_is_first(self.reservations@, id.0);
        }
        let mut k: usize = 0;
        while k < self.reservations.len() && self.reservations[k].0 != id.0
            invariant
                0 <= k <= self.reservations@.len(),
                0 <= find(self.reservations@, id.0) <= self.reservations@.len(),
                find(self.reservations@, id.0) < self.reservations@.len()
                    ==> self.reservations@[find(self.reservations@, id.0)].0 == id.0,
                forall|j: int|
                    0 <= j < find(self.reservations@, id.0)
                        ==> (#[trigger] self.reservations@[j]).0 != id.0,
                forall|j: int| 0 <= j < k ==> (#[trigger] self.reservations@[j]).0 != id.0,
            decreases self.reservations@.len() - k,
        {
            k = k + 1;
        }
        k
    }

    /// The stream sent so much of what it reserved.
    fn use_reservation(&mut self, id: StreamId, sz: WindowSize)
        ensures
            final(self).reservations@ == used(old(self).reservations@, id.0, sz),
            *final(self) == (Inner { reservations: final(self).reservations, ..*old(self) }),
    {
        let k: usize = self.find_reservation(id);
        if k < self.reservations.len() {
            proof {
                found_is_first(self.reservations@, id.0);
            }
            let wanted: WindowSize = self.reservations[k].1;
            let left: WindowSize = if wanted >= sz {
                wanted - sz
            } else {
                0
            };
            self.reservations.set(k, (id.0, left));
        }
    }

    /// Get pending window updates
    fn poll_window_update(&mut self, streams: &mut OrderMap<u32, Stream>) -> (r: Result<
        Async<WindowUpdate>,
        ConnectionError,
    >)
        requires
            (Streams { inner: *old(self), streams: *old(streams) })@.wf(),
        ensures
            (Streams { inner: *final(self), streams: *final(streams) })@.wf(),
            r is Ok,
            (r->Ok_0, (Streams { inner: *final(self), streams: *final(streams) })@) == (Streams {
                inner: *old(self),
                streams: *old(streams),
            })@.poll_window_update(),
    {
        let ghost m = (Streams { inner: *self, streams: *streams })@;
        // This biases connection window updates, which probably makes sense.
        if let Some(incr) = self.send_flow_control.apply_window_update() {
            proof {
                let after = (Streams { inner: *self, streams: *streams })@;
                same_streams_keep_wf(m, after);
            }
            return Ok(Async::Ready(WindowUpdate::new(StreamId::zero(), incr)));
        }
        loop
            invariant
                m == (Streams { inner: *old(self), streams: *old(streams) })@,
                self.send_flow_control.update() is None,
                (Streams { inner: *self, streams: *streams })@.wf(),
                (Streams { inner: *self, streams: *streams })@.poll_window_update()
                    == m.poll_window_update(),
            decreases self.pending_recv_window_updates@.len(),
        {
            let ghost before = (Streams { inner: *self, streams: *streams })@;
            match self.pending_recv_window_updates.pop_front() {
                Some(id) => {
                    let ghost rest = (Streams { inner: *self, streams: *streams })@;
                    proof {
                        assert(self.pending_recv_window_updates@
                            =~= before.pending_recv_window_updates.skip(1));
                        leaving_the_queue_keeps_wf(before);
                    }
                    if let Some(stream) = map_get_mut(streams, id.0) {
                        assert(rest.streams.contains_key(id.0));
                        if let Some(flow) = stream.send_flow_control() {
                            if let Some(incr) = flow.apply_window_update() {
                                assert((Streams { inner: *self, streams: *streams })@
                                    == rest.applied(id));
                                return Ok(Async::Ready(WindowUpdate::new(id, incr)));
                            }
                        }
                    }
                    assert((Streams { inner: *self, streams: *streams })@ =~= rest);
                },
                None => {
                    // Update the task.
                    self.blocked = true;
                    proof {
                        assert(before.pending_recv_window_updates.len() == 0);
                        let after = (Streams { inner: *self, streams: *streams })@;
                        assert(after.pending_recv_window_updates
                            =~= before.pending_recv_window_updates);
                        same_streams_keep_wf(before, after);
                    }
                    return Ok(Async::NotReady);
                },
            }
        }
    }

    /// The next refusal to send.
    fn send_pending_refusal(&mut self) -> (r: Option<Reset>)
        ensures
            *final(self) == (Inner { refused: None, ..*old(self) }),
            r == match old(self).refused {
                Some(stream_id) => Some(Reset { stream_id, reason: Reason::RefusedStream }),
                None => None,
            },
    {
        match self.refused.take() {
            Some(stream_id) => Some(Reset::new(stream_id, Reason::RefusedStream)),
            None => None,
        }
    }

    /// The next connection level window update to send.
    fn send_connection_window_update(&self) -> (r: Option<WindowUpdate>)
        ensures
            r == match self.recv_flow_control.advertised() {
                Some(incr) => Some(
                    WindowUpdate { stream_id: StreamId(0), size_increment: incr },
                ),
                None => None,
            },
    {
        match self.recv_flow_control.peek_window_update() {
            Some(incr) => Some(WindowUpdate::new(StreamId::zero(), incr)),
            None => None,
        }
    }

    /// The next stream level window update to send.
    fn send_stream_window_update(&mut self, streams: &OrderMap<u32, Stream>) -> (r: Option<
        WindowUpdate,
    >)
        requires
            (Streams { inner: *old(self), streams: *streams })@.wf(),
            old(self).recv_flow_control.advertised() is None,
        ensures
            (Streams { inner: *final(self), streams: *streams })@.wf(),
            (r, (Streams { inner: *final(self), streams: *streams })@) == (Streams {
                inner: *old(self),
                streams: *streams,
            })@.next_window_update(),
            r matches Some(frame) ==> (Streams {
                inner: *final(self),
                streams: *streams,
            })@.recv_update(frame.stream_id) == Some(frame.size_increment),
    {
        let ghost m = (Streams { inner: *self, streams: *streams })@;
        loop
            invariant
                m == (Streams { inner: *old(self), streams: *streams })@,
                m.wf(),
                self.recv_flow_control.advertised() is None,
                (Streams { inner: *self, streams: *streams })@.next_window_update()
                    == m.next_window_update(),
                (Streams { inner: *self, streams: *streams })@ == (StreamsModel {
                    pending_send_window_updates: self.pending_send_window_updates@,
                    ..m
                }),
            decreases self.pending_send_window_updates@.len(),
        {
            let ghost before = (Streams { inner: *self, streams: *streams })@;
            match self.pending_send_window_updates.pop_front() {
                Some(id) => {
                    let ghost after = (Streams { inner: *self, streams: *streams })@;
                    proof {
                        assert(self.pending_send_window_updates@
                            =~= before.pending_send_window_updates.skip(1));
                        same_streams_keep_wf(m, after);
                    }
                    if let Some(stream) = map_get(streams, id.0) {
                        let mut stream = *stream;
                        if let Some(flow) = stream.recv_flow_control() {
                            if let Some(incr) = flow.peek_window_update() {
                                return Some(WindowUpdate::new(id, incr));
                            }
                        }
                    }
                },
                None => {
                    assert(self.pending_send_window_updates@
                        =~= before.pending_send_window_updates);
                    return None;
                },
            }
        }
    }

    fn expand_connection_window(&mut self, sz: WindowSize)
        requires
            old(self).send_flow_control.expand_fits(sz),
        ensures
            *final(self) == (Inner {
                send_flow_control: old(self).send_flow_control.expanded(sz),
                ..*old(self)
            }),
    {
        self.send_flow_control.expand_window(sz);
    }

    fn expand_stream_window(&mut self, id: StreamId, sz: WindowSize, stream: &mut Stream)
        requires
            old(stream).send_flow() matches Some(flow) ==> flow.expand_fits(sz),
        ensures
            *final(stream) == match old(stream).send_flow() {
                Some(flow) => old(stream).with_send_flow(flow.expanded(sz)),
                None => *old(stream),
            },
            final(self).pending_recv_window_updates@ == match old(stream).send_flow() {
                Some(flow) => if flow.update() is None && flow.expanded(sz).update() is Some {
                    old(self).pending_recv_window_updates@.push(id)
                } else {
                    old(self).pending_recv_window_updates@
                },
                None => old(self).pending_recv_window_updates@,
            },
            *final(self) == (Inner {
                pending_recv_window_updates: final(self).pending_recv_window_updates,
                ..*old(self)
            }),
    {
        // It's fine for this to be None and silently ignored.
        if let Some(flow) = stream.send_flow_control() {
            let waits = flow.next_window_update > 0;
            flow.expand_window(sz);
            if !waits && flow.next_window_update > 0 {
                self.pending_recv_window_updates.push_back(id);
            }
        }
    }

    fn stream_closed(&mut self, id: StreamId)
        requires
            !id.is_zero(),
            old(self).counts(id),
        ensures
            *final(self) == old(self).without(id),
    {
        if self.is_local_init(id) {
            self.num_local_initiated = self.num_local_initiated - 1;
        } else {
            self.num_remote_initiated = self.num_remote_initiated - 1;
        }
    }

    fn is_local_init(&self, id: StreamId) -> (r: bool)
        requires
            !id.is_zero(),
        ensures
            r == local_init(self.is_server, id),
    {
        self.is_server == id.is_server_initiated()
    }

    /// Returns true if the remote peer can initiate a stream with the given ID.
    fn can_remote_open(&self, id: StreamId) -> (r: bool)
        ensures
            r == (!id.is_zero() && !local_init(self.is_server, id)),
    {
        !id.is_zero() && !self.is_local_init(id)
    }

    /// Returns true if the local actor can initiate a stream with the given ID.
    fn can_local_open(&self, id: StreamId) -> (r: bool)
        ensures
            r == (!id.is_zero() && local_init(self.is_server, id)),
    {
        !id.is_zero() && self.is_local_init(id)
    }
}

/// Ensures non-zero stream ID
fn validate_stream_id(id: StreamId, err: ConnectionError) -> (r: Result<(), ConnectionError>)
    ensures
        r == if id.is_zero() {
            Err(err)
        } else {
            Ok(())
        },
{
    if id.is_zero() {
        Err(err)
    } else {
        Ok(())
    }
}

} // verus!
