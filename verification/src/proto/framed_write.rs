//! Frames on their way to the transport.

use crate::buf::{self, buffer_contents, made_capacity};
use crate::frame::data::DataModel;
use crate::frame::headers::{
    lists_headers, with_frame_len, HeaderBlock, Iter, END_HEADERS, END_STREAM,
};
use crate::frame::{
    Continuation, Data, Frame, Head, HeadersFlag, Kind, Pseudo, Settings, StreamId,
    DEFAULT_MAX_FRAME_SIZE, HEADER_LEN, MAX_PAYLOAD_LEN,
};
use crate::hpack::Encode;
use bytes::BytesMut;
use vstd::prelude::*;

verus! {

/// Encodes frames into a buffer, from which they are written to the transport.
#[derive(Debug)]
pub struct FramedWrite {
    /// Write buffer
    buf: BytesMut,
    /// How much of the buffer has been written
    pos: usize,
    /// Next frame to encode
    next: Option<Next>,
    /// Max frame size, this is specified by the peer
    max_frame_size: usize,
}

/// What of a frame has yet to be encoded.
#[derive(Debug)]
pub enum Next {
    Data {
        /// How much of the current frame has yet to be written
        frame_len: usize,
        /// How much of the data has been written
        sent: usize,
        /// Data frame to encode
        data: Data,
    },
    Continuation(Continuation),
}

/// Initialize the connection with this amount of write buffer.
pub const DEFAULT_BUFFER_CAPACITY: usize = 4_096;

/// Chain payloads of at least this size. The remote never advertises a max frame size less than
/// this: it cannot be less than 16 KiB.
pub const CHAIN_THRESHOLD: usize = 256;

/// Min buffer required to attempt to write a frame
pub const MIN_BUFFER_CAPACITY: usize = HEADER_LEN + CHAIN_THRESHOLD;

/// The state of the writer, as values.
#[verifier::ext_equal]
pub struct FramedWriteModel {
    /// What has been encoded since the last flush.
    pub buf: Seq<u8>,
    /// How much the buffer was made to hold.
    pub capacity: nat,
    /// How much of it has been written.
    pub pos: int,
    pub next: Option<Next>,
    pub max_frame_size: usize,
}

/// What to do after a frame was taken.
#[derive(Debug)]
pub enum SendStep {
    /// Nothing: the frame is encoded, or the rest of it is kept to be.
    Done,
    /// Encode these headers, and hand the header block to `finish_headers`.
    EncodeHeaders(HeaderBlock),
}

/// What to do next in order to flush.
#[derive(Clone, Copy, Debug, PartialEq, Eq, Structural)]
pub enum FlushStep {
    /// Write from `pending` to the transport, and tell `wrote` how much was written.
    Write,
    /// Encode the headers that `continue_headers` hands out, and hand the header block to
    /// `finish_continuation`.
    EncodeContinuation,
    /// Flush the transport, and tell `flushed` when that is done.
    Flush,
}

/// What to do to find out whether a frame can be sent.
#[derive(Clone, Copy, Debug, PartialEq, Eq, Structural)]
pub enum ReadyStep {
    /// One can be sent.
    Ready,
    /// Flush, then ask again.
    Flush,
    /// None can be sent yet.
    NotReady,
}

impl View for FramedWrite {
    type V = FramedWriteModel;

    closed spec fn view(&self) -> FramedWriteModel {
        FramedWriteModel {
            buf: buffer_contents(self.buf),
            capacity: made_capacity(self.buf),
            pos: self.pos as int,
            next: self.next,
            max_frame_size: self.max_frame_size,
        }
    }
}

/// How much of so many bytes goes into one frame.
pub open spec fn cut(len: int, max: int) -> int {
    if max <= len {
        max
    } else {
        len
    }
}

/// A frame with a part of the data. Only the last part ends the stream.
pub open spec fn part(data: DataModel, from: int, len: int) -> DataModel {
    DataModel {
        stream_id: data.stream_id,
        payload: data.payload.subrange(from, from + len),
        end_stream: data.end_stream && from + len == data.payload.len(),
    }
}

/// The data from `from` on, in frames of at most `max` bytes.
pub open spec fn parts(data: DataModel, from: int, max: int) -> Seq<DataModel>
    decreases data.payload.len() - from,
{
    if max <= 0 || from >= data.payload.len() {
        Seq::empty()
    } else {
        let len = cut(data.payload.len() - from, max);
        seq![part(data, from, len)] + parts(data, from + len, max)
    }
}

/// Frames as they stand on the wire, one after the other.
pub open spec fn wires(frames: Seq<DataModel>) -> Seq<u8>
    decreases frames.len(),
{
    if frames.len() == 0 {
        Seq::empty()
    } else {
        frames[0].wire() + wires(frames.skip(1))
    }
}

/// The payloads of frames, one after the other.
pub open spec fn payloads(frames: Seq<DataModel>) -> Seq<u8>
    decreases frames.len(),
{
    if frames.len() == 0 {
        Seq::empty()
    } else {
        frames[0].payload + payloads(frames.skip(1))
    }
}

impl FramedWriteModel {
    pub open spec fn wf(self) -> bool {
        &&& 0 <= self.pos <= self.buf.len()
        &&& 0 < self.max_frame_size <= MAX_PAYLOAD_LEN
        &&& self.next matches Some(Next::Data { frame_len, sent, data }) ==> 0 < frame_len && sent
            + frame_len <= data@.payload.len() <= usize::MAX
    }

    /// What is to be written next: what has been encoded, then what the current frame has of the
    /// data that is kept.
    pub open spec fn pending(self) -> Seq<u8> {
        if self.pos < self.buf.len() {
            self.buf.skip(self.pos)
        } else {
            match self.next {
                Some(Next::Data { frame_len, sent, data }) => data@.payload.subrange(
                    sent as int,
                    sent + frame_len,
                ),
                _ => Seq::empty(),
            }
        }
    }

    /// All that is to be written: what has been encoded, and the data that is kept, in as many
    /// frames as it takes. Headers that are kept come behind it.
    pub open spec fn queued(self) -> Seq<u8> {
        self.buf.skip(self.pos) + self.kept()
    }

    /// The data that is kept: what the current frame has of it, and the frames behind that.
    pub open spec fn kept(self) -> Seq<u8> {
        match self.next {
            Some(Next::Data { frame_len, sent, data }) => data@.payload.subrange(
                sent as int,
                sent + frame_len,
            ) + wires(parts(data@, sent + frame_len, self.max_frame_size as int)),
            _ => Seq::empty(),
        }
    }

    /// True if there is nothing left to write.
    pub open spec fn is_empty(self) -> bool {
        self.next is None && self.pending().len() == 0
    }

    /// The writer after the transport took so many bytes. When a frame is written and there is more
    /// data, the head of the next frame is encoded.
    pub open spec fn written(self, n: int) -> FramedWriteModel {
        if self.pos < self.buf.len() {
            FramedWriteModel { pos: self.pos + n, ..self }
        } else {
            match self.next {
                Some(Next::Data { frame_len, sent, data }) => {
                    let done = sent + n;
                    if n < frame_len {
                        FramedWriteModel {
                            next: Some(
                                Next::Data {
                                    frame_len: (frame_len - n) as usize,
                                    sent: done as usize,
                                    data,
                                },
                            ),
                            ..self
                        }
                    } else if done == data@.payload.len() {
                        FramedWriteModel { next: None, ..self }
                    } else {
                        let len = cut(data@.payload.len() - done, self.max_frame_size as int);
                        FramedWriteModel {
                            buf: part(data@, done, len).head().wire(len),
                            pos: 0,
                            next: Some(
                                Next::Data { frame_len: len as usize, sent: done as usize, data },
                            ),
                            ..self
                        }
                    }
                },
                _ => self,
            }
        }
    }

    /// True if so many more bytes can be put into the buffer.
    pub open spec fn has_room(self, n: int) -> bool {
        self.buf.len() + n <= isize::MAX
    }

    /// True if another frame can be encoded whatever the allocator gave: none is kept, and it fits
    /// into what the buffer was made to hold.
    pub open spec fn is_sure_of_capacity(self) -> bool {
        self.next is None && self.buf.len() + MIN_BUFFER_CAPACITY <= self.capacity
    }

    /// True if the frame can be sent: PUSH_PROMISE and PRIORITY frames are not supported, payloads
    /// have a length that can be written, and what is encoded fits into the buffer.
    pub open spec fn supports(self, frame: Frame) -> bool {
        match frame {
            Frame::PushPromise(_) => false,
            Frame::Priority(_) => false,
            Frame::Headers(_) => self.has_room(HEADER_LEN as int),
            Frame::Data(data) => if data@.payload.len() >= CHAIN_THRESHOLD {
                self.has_room(HEADER_LEN as int)
            } else {
                self.has_room(frame.wire().len() as int)
            },
            Frame::Ping(ping) => ping@.payload.len() <= MAX_PAYLOAD_LEN && self.has_room(
                frame.wire().len() as int,
            ),
            Frame::Settings(_) => self.has_room(HEADER_LEN + 36),
            Frame::GoAway(_) => self.has_room(HEADER_LEN + 8),
            Frame::Reset(_) => self.has_room(HEADER_LEN + 4),
            Frame::WindowUpdate(_) => self.has_room(HEADER_LEN + 4),
        }
    }
}

/// What to do to find out whether a frame can be sent, given whether there is capacity and whether
/// a flush has been tried.
pub fn ready_step(has_capacity: bool, flushed: bool) -> (r: ReadyStep)
    ensures
        r == if has_capacity {
            ReadyStep::Ready
        } else if !flushed {
            ReadyStep::Flush
        } else {
            ReadyStep::NotReady
        },
{
    if has_capacity {
        ReadyStep::Ready
    } else if !flushed {
        // Try flushing
        ReadyStep::Flush
    } else {
        ReadyStep::NotReady
    }
}

impl FramedWrite {
    pub fn new() -> (r: FramedWrite)
        ensures
            r@.wf(),
            r@ == (FramedWriteModel {
                buf: Seq::empty(),
                capacity: DEFAULT_BUFFER_CAPACITY as nat,
                pos: 0,
                next: None,
                max_frame_size: DEFAULT_MAX_FRAME_SIZE,
            }),
    {
        FramedWrite {
            buf: buf::new_buffer(DEFAULT_BUFFER_CAPACITY),
            pos: 0,
            next: None,
            max_frame_size: DEFAULT_MAX_FRAME_SIZE,
        }
    }

    /// The settings of the peer take effect: DATA frames that are started from now on are no larger
    /// than it takes. A size that no peer can ask for is ignored.
    pub fn apply_remote_settings(&mut self, settings: &Settings)
        requires
            old(self)@.wf(),
        ensures
            final(self)@.wf(),
            final(self)@ == (FramedWriteModel {
                max_frame_size: match settings.max_frame_size {
                    Some(max) => if DEFAULT_MAX_FRAME_SIZE <= max <= MAX_PAYLOAD_LEN {
                        max as usize
                    } else {
                        old(self)@.max_frame_size
                    },
                    None => old(self)@.max_frame_size,
                },
                ..old(self)@
            }),
    {
        if let Some(max) = settings.max_frame_size {
            let max: usize = max as usize;
            if DEFAULT_MAX_FRAME_SIZE <= max && max <= MAX_PAYLOAD_LEN {
                self.max_frame_size = max;
            }
        }
    }

    /// True if another frame can be encoded: none is kept, and the buffer has enough spare
    /// capacity. How much it has beyond what it was made with is up to the allocator.
    pub fn has_capacity(&self) -> (r: bool)
        ensures
            self@.is_sure_of_capacity() ==> r,
            r ==> self@.next is None && self@.has_room(MIN_BUFFER_CAPACITY as int),
    {
        self.has_capacity_with(buf::spare_capacity(&self.buf))
    }

    /// True if another frame can be encoded into a buffer with so much spare capacity.
    pub fn has_capacity_with(&self, spare: usize) -> (r: bool)
        ensures
            r == (self@.next is None && spare >= MIN_BUFFER_CAPACITY),
    {
        self.next.is_none() && spare >= MIN_BUFFER_CAPACITY
    }

    /// True if there is nothing left to write.
    pub fn is_empty(&self) -> (r: bool)
        requires
            self@.wf(),
        ensures
            r == self@.is_empty(),
    {
        self.next.is_none() && self.pos == buf::buffer_len(&self.buf)
    }

    /// The length of the next frame, where so much data is left: all of it, as far as the peer
    /// takes it.
    fn frame_len(&self, len: usize) -> (r: usize)
        ensures
            r == cut(len as int, self@.max_frame_size as int),
    {
        if self.max_frame_size <= len {
            self.max_frame_size
        } else {
            len
        }
    }

    /// True if so many more bytes can be put into the buffer.
    fn has_room(&self, n: usize) -> (r: bool)
        ensures
            r == self@.has_room(n as int),
    {
        let len: usize = buf::buffer_len(&self.buf);
        let max: usize = isize::MAX as usize;
        len <= max && n <= max - len
    }

    /// True if `start_send` supports the frame.
    pub fn can_send(&self, frame: &Frame) -> (r: bool)
        ensures
            r == self@.supports(*frame),
    {
        match frame {
            Frame::PushPromise(_) => false,
            Frame::Priority(_) => false,
            Frame::Headers(_) => self.has_room(HEADER_LEN),
            Frame::Data(data) => {
                if data.len() >= CHAIN_THRESHOLD {
                    self.has_room(HEADER_LEN)
                } else {
                    self.has_room(HEADER_LEN + data.len())
                }
            },
            Frame::Ping(ping) => ping.len() <= MAX_PAYLOAD_LEN && self.has_room(
                HEADER_LEN + ping.len(),
            ),
            Frame::Settings(_) => self.has_room(HEADER_LEN + 36),
            Frame::GoAway(_) => self.has_room(HEADER_LEN + 8),
            Frame::Reset(_) => self.has_room(HEADER_LEN + 4),
            Frame::WindowUpdate(_) => self.has_room(HEADER_LEN + 4),
        }
    }

    /// Takes a frame. Large payloads are kept, with only the head encoded; the headers of HEADERS
    /// frames are handed out to be encoded; all other frames are encoded.
    pub fn start_send(&mut self, item: Frame) -> (r: SendStep)
        requires
            old(self)@.wf(),
            old(self)@.next is None,
            old(self)@.supports(item),
        ensures
            final(self)@.wf(),
            match item {
                Frame::Data(data) => if data@.payload.len() >= CHAIN_THRESHOLD {
                    let max = old(self)@.max_frame_size as int;
                    let len = cut(data@.payload.len() as int, max);
                    &&& r is Done
                    &&& final(self)@ == (FramedWriteModel {
                        buf: old(self)@.buf + part(data@, 0, len).head().wire(len),
                        next: Some(Next::Data { frame_len: len as usize, sent: 0, data }),
                        ..old(self)@
                    })
                    &&& final(self)@.queued() == old(self)@.queued() + wires(
                        parts(data@, 0, max),
                    )
                } else {
                    &&& r is Done
                    &&& final(self)@ == (FramedWriteModel {
                        buf: old(self)@.buf + item.wire(),
                        ..old(self)@
                    })
                },
                Frame::Headers(headers) => {
                    &&& r matches SendStep::EncodeHeaders(block) && {
                        &&& block.pos == old(self)@.buf.len()
                        &&& block.stream_id == headers@.stream_id
                        &&& exists|pseudo: Pseudo|
                            pseudo@ == headers@.pseudo && #[trigger] lists_headers(
                                block.headers.remaining(),
                                pseudo,
                                headers@.fields,
                            )
                    }
                    &&& final(self)@ == (FramedWriteModel {
                        buf: old(self)@.buf + headers@.head().wire(0),
                        ..old(self)@
                    })
                },
                _ => {
                    &&& r is Done
                    &&& final(self)@ == (FramedWriteModel {
                        buf: old(self)@.buf + item.wire(),
                        ..old(self)@
                    })
                },
            },
    {
        match item {
            Frame::Data(v) => {
                if v.len() >= CHAIN_THRESHOLD {
                    let len: usize = self.frame_len(v.len());

                    // Encode the frame head to the buffer
                    v.part_head(0, len).encode(len, &mut self.buf);

                    // Save the data frame
                    self.next = Some(Next::Data { frame_len: len, sent: 0, data: v });
                    proof {
                        data_goes_behind(old(self)@, self@, v@);
                    }
                } else {
                    v.encode(&mut self.buf);
                }
            },
            Frame::Headers(v) => {
                return SendStep::EncodeHeaders(v.encode(&mut self.buf));
            },
            Frame::Settings(v) => {
                v.encode(&mut self.buf);
            },
            Frame::Ping(v) => {
                v.encode(&mut self.buf);
            },
            Frame::GoAway(v) => {
                v.encode(&mut self.buf);
            },
            Frame::Reset(v) => {
                v.encode(&mut self.buf);
            },
            Frame::WindowUpdate(v) => {
                v.encode(&mut self.buf);
            },
            Frame::PushPromise(_) | Frame::Priority(_) => {},
        }
        SendStep::Done
    }

    /// Takes the header block that was encoded of the headers that `start_send` handed out. Headers
    /// that did not fit are kept.
    pub fn finish_headers(&mut self, block: HeaderBlock, encoded: Encode, bytes: &[u8])
        requires
            old(self)@.wf(),
            block.pos + HEADER_LEN == old(self)@.buf.len(),
            bytes@.len() <= MAX_PAYLOAD_LEN,
            old(self)@.has_room(bytes@.len() as int),
        ensures
            final(self)@.buf == with_frame_len(old(self)@.buf + bytes@, block.pos as int),
            final(self)@.capacity == old(self)@.capacity,
            final(self)@.pos == old(self)@.pos,
            final(self)@.max_frame_size == old(self)@.max_frame_size,
            final(self)@.wf(),
            final(self)@.next == match encoded {
                Encode::Full => old(self)@.next,
                Encode::Partial(state) => Some(
                    Next::Continuation(
                        Continuation {
                            stream_id: block.stream_id,
                            hpack: state,
                            headers: block.headers,
                        },
                    ),
                ),
            },
    {
        buf::extend_from_slice(&mut self.buf, bytes);
        if let Some(continuation) = block.finish(encoded, &mut self.buf) {
            self.next = Some(Next::Continuation(continuation));
        }
    }

    /// The HEADERS frame that starts at `pos` is about to be written. If the rest of its headers is
    /// kept, a CONTINUATION frame follows it: the frame then does not say that the headers end.
    pub fn announce_continuation(&mut self, pos: usize)
        requires
            old(self)@.wf(),
            old(self)@.pos <= pos,
            pos + HEADER_LEN <= old(self)@.buf.len(),
        ensures
            final(self)@.wf(),
            final(self)@ == match old(self)@.next {
                Some(Next::Continuation(_)) => (FramedWriteModel {
                    buf: old(self)@.buf.update(pos + 4, to_be_continued(old(self)@.buf[pos + 4])),
                    ..old(self)@
                }),
                _ => old(self)@,
            },
    {
        if let Some(Next::Continuation(_)) = &self.next {
            let all = buf::buffer_slice(&self.buf);
            let flag: u8 = vstd::slice::slice_subrange(all, pos, all.len())[4];
            buf::write_u8(&mut self.buf, pos + 4, flag & 0xfb);
        }
    }

    /// Hands out the headers that are kept, once everything before them is written.
    pub fn continue_headers(&mut self) -> (r: Option<Continuation>)
        requires
            old(self)@.wf(),
        ensures
            final(self)@.wf(),
            match old(self)@.next {
                Some(Next::Continuation(continuation)) if old(self)@.pending().len() == 0 => {
                    &&& r == Some(continuation)
                    &&& final(self)@ == (FramedWriteModel {
                        buf: Seq::empty(),
                        pos: 0,
                        next: None,
                        ..old(self)@
                    })
                },
                _ => r is None && final(self)@ == old(self)@,
            },
    {
        if self.pos < buf::buffer_len(&self.buf) {
            return None;
        }
        match self.next.take() {
            Some(Next::Continuation(continuation)) => {
                self.pos = 0;
                buf::clear_buffer(&mut self.buf);
                Some(continuation)
            },
            next => {
                self.next = next;
                None
            },
        }
    }

    /// Takes the header block that was encoded of the headers that `continue_headers` handed out:
    /// it goes into a CONTINUATION frame. Headers that did not fit are kept again.
    pub fn finish_continuation(
        &mut self,
        stream_id: StreamId,
        headers: Iter,
        encoded: Encode,
        bytes: &[u8],
    )
        requires
            old(self)@.wf(),
            old(self)@.next is None,
            bytes@.len() <= MAX_PAYLOAD_LEN,
            old(self)@.has_room(HEADER_LEN + bytes@.len()),
        ensures
            final(self)@.wf(),
            ({
                let head = Head {
                    kind: Kind::Continuation,
                    flag: if encoded is Full {
                        END_HEADERS
                    } else {
                        0
                    },
                    stream_id,
                };
                final(self)@ == (FramedWriteModel {
                    buf: old(self)@.buf + head.wire(bytes@.len() as int) + bytes@,
                    next: match encoded {
                        Encode::Full => None,
                        Encode::Partial(hpack) => Some(
                            Next::Continuation(Continuation { stream_id, hpack, headers }),
                        ),
                    },
                    ..old(self)@
                })
            }),
    {
        let flag: u8 = match &encoded {
            Encode::Full => END_HEADERS,
            Encode::Partial(_) => 0,
        };
        let head = Head::new(Kind::Continuation, flag, stream_id);
        head.encode(bytes.len(), &mut self.buf);
        buf::extend_from_slice(&mut self.buf, bytes);
        if let Encode::Partial(hpack) = encoded {
            self.next = Some(Next::Continuation(Continuation { stream_id, hpack, headers }));
        }
    }

    /// What to do next in order to flush.
    pub fn poll_complete(&self) -> (r: FlushStep)
        requires
            self@.wf(),
        ensures
            r == if self@.pending().len() > 0 {
                FlushStep::Write
            } else if self@.next is Some {
                FlushStep::EncodeContinuation
            } else {
                FlushStep::Flush
            },
            r is EncodeContinuation ==> self@.next matches Some(Next::Continuation(_)),
            r is Flush <==> self@.is_empty(),
    {
        // As long as there is data to write, try to write it!
        if self.pos < buf::buffer_len(&self.buf) {
            return FlushStep::Write;
        }
        match &self.next {
            Some(Next::Data { .. }) => FlushStep::Write,
            Some(Next::Continuation(_)) => FlushStep::EncodeContinuation,
            None => FlushStep::Flush,
        }
    }

    /// What is to be written next.
    pub fn pending(&self) -> (r: &[u8])
        requires
            self@.wf(),
        ensures
            r@ == self@.pending(),
    {
        let all = buf::buffer_slice(&self.buf);
        if self.pos < all.len() {
            assert(all@.subrange(self.pos as int, all@.len() as int) =~= all@.skip(
                self.pos as int,
            ));
            return vstd::slice::slice_subrange(all, self.pos, all.len());
        }
        match &self.next {
            Some(Next::Data { frame_len, sent, data }) => {
                let payload = buf::bytes_slice(data.payload());
                vstd::slice::slice_subrange(payload, *sent, *sent + *frame_len)
            },
            _ => {
                assert(all@.subrange(0, 0) =~= Seq::empty());
                vstd::slice::slice_subrange(all, 0, 0)
            },
        }
    }

    /// The transport took so many bytes.
    pub fn wrote(&mut self, n: usize)
        requires
            old(self)@.wf(),
            n <= old(self)@.pending().len(),
        ensures
            final(self)@.wf(),
            final(self)@ == old(self)@.written(n as int),
            final(self)@.queued() == old(self)@.queued().skip(n as int),
    {
        proof {
            output_is_in_order(self@, n as int);
        }
        if self.pos < buf::buffer_len(&self.buf) {
            self.pos = self.pos + n;
            return ;
        }
        match self.next.take() {
            Some(Next::Data { frame_len, sent, data }) => {
                let done: usize = sent + n;
                if n < frame_len {
                    self.next = Some(Next::Data { frame_len: frame_len - n, sent: done, data });
                } else if done < data.len() {
                    // Start the next frame
                    let len: usize = self.frame_len(data.len() - done);
                    self.pos = 0;
                    buf::clear_buffer(&mut self.buf);
                    data.part_head(done, len).encode(len, &mut self.buf);
                    self.next = Some(Next::Data { frame_len: len, sent: done, data });
                }
            },
            next => {
                self.next = next;
            },
        }
    }

    /// The transport is flushed.
    pub fn flushed(&mut self)
        requires
            old(self)@.wf(),
            old(self)@.is_empty(),
        ensures
            final(self)@.wf(),
            final(self)@ == (FramedWriteModel { buf: Seq::empty(), pos: 0, ..old(self)@ }),
            final(self)@.pending() == old(self)@.pending(),
    {
        // Clear internal buffer
        self.pos = 0;
        buf::clear_buffer(&mut self.buf);
        assert(self@.pending() =~= old(self)@.pending());
    }

    /// What to do to find out whether a frame can be sent, given whether a flush has been tried.
    pub fn poll_ready(&self, flushed: bool) -> (r: ReadyStep)
        ensures
            self@.is_sure_of_capacity() ==> r is Ready,
            r is Ready ==> self@.next is None && self@.has_room(MIN_BUFFER_CAPACITY as int),
            r is Flush ==> !flushed,
            r is NotReady ==> flushed,
    {
        ready_step(self.has_capacity(), flushed)
    }
}

/// The flags of a HEADERS frame whose headers go on in another one.
pub open spec fn to_be_continued(flag: u8) -> u8 {
    flag & 0xfb
}

/// The frame that a CONTINUATION frame follows is as it was but for the flag that says that its
/// headers end, which it does not have.
pub proof fn only_the_end_of_headers_is_taken_back(before: Seq<u8>, head: Head, block: Seq<u8>)
    ensures
        ({
            let pos = before.len() as int;
            let frame = before + head.wire(block.len() as int) + block;
            let flag = to_be_continued(head.flag);
            &&& frame.update(pos + 4, to_be_continued(frame[pos + 4])) == before + (Head {
                flag,
                ..head
            }).wire(block.len() as int) + block
            &&& !HeadersFlag(flag).has(END_HEADERS)
            &&& HeadersFlag(flag).has(END_STREAM) == HeadersFlag(head.flag).has(END_STREAM)
        }),
{
    let flag = head.flag;
    let pos = before.len() as int;
    let frame = before + head.wire(block.len() as int) + block;
    assert(frame[pos + 4] == flag);
    assert(frame.update(pos + 4, flag & 0xfb) =~= before + (Head {
        flag: flag & 0xfb,
        ..head
    }).wire(block.len() as int) + block);
    assert((flag & 0xfb) & 0x4 != 0x4) by (bit_vector);
    assert((flag & 0xfb) & 0x1 == flag & 0x1) by (bit_vector);
}

/// Where there is capacity, there is room for every frame but a PING with an overlong payload.
pub proof fn capacity_is_room(m: FramedWriteModel, frame: Frame)
    requires
        m.has_room(MIN_BUFFER_CAPACITY as int),
        !(frame is PushPromise) && !(frame is Priority),
        frame matches Frame::Ping(ping) ==> ping@.payload.len() <= CHAIN_THRESHOLD,
    ensures
        m.supports(frame),
{
}

/// A frame that is encoded goes behind all that is to be written.
pub proof fn frames_go_behind(m: FramedWriteModel, frame: Seq<u8>)
    requires
        m.wf(),
        m.next is None,
    ensures
        (FramedWriteModel { buf: m.buf + frame, ..m }).queued() == m.queued() + frame,
{
    assert((m.buf + frame).skip(m.pos) =~= m.buf.skip(m.pos) + frame);
}

/// Data that is kept goes behind all that is to be written.
proof fn data_goes_behind(m: FramedWriteModel, after: FramedWriteModel, data: DataModel)
    requires
        m.wf(),
        m.next is None,
        data.payload.len() > 0,
        ({
            let len = cut(data.payload.len() as int, m.max_frame_size as int);
            &&& after.buf == m.buf + part(data, 0, len).head().wire(len)
            &&& after.pos == m.pos
            &&& after.max_frame_size == m.max_frame_size
            &&& after.next matches Some(Next::Data { frame_len, sent, data: d }) && frame_len == len
                && sent == 0 && d@ == data
        }),
    ensures
        after.queued() == m.queued() + wires(parts(data, 0, m.max_frame_size as int)),
{
    let max = m.max_frame_size as int;
    let len = cut(data.payload.len() as int, max);
    let first = part(data, 0, len);
    let rest = parts(data, len, max);
    frames_are_joined(first, rest);
    assert((m.buf + first.head().wire(len)).skip(m.pos) =~= m.buf.skip(m.pos) + first.head().wire(
        len,
    ));
    assert(after.queued() =~= m.queued() + wires(parts(data, 0, max)));
}

/// A frame stands on the wire before those behind it.
proof fn frames_are_joined(first: DataModel, rest: Seq<DataModel>)
    ensures
        wires(seq![first] + rest) == first.wire() + wires(rest),
        payloads(seq![first] + rest) == first.payload + payloads(rest),
{
    assert((seq![first] + rest).skip(1) =~= rest);
}

/// The transport gets the bytes in the order in which they were queued, each of them once: what is
/// written next is what all that is to be written starts with, and what was written is gone from
/// the front of it.
pub proof fn output_is_in_order(m: FramedWriteModel, n: int)
    requires
        m.wf(),
        0 <= n <= m.pending().len(),
    ensures
        m.queued().take(m.pending().len() as int) == m.pending(),
        m.written(n).wf(),
        m.written(n).queued() == m.queued().skip(n),
{
    let front = m.buf.skip(m.pos);
    if m.pos < m.buf.len() {
        taken_from_the_front(front, m.kept(), n);
        assert(front.skip(n) =~= m.buf.skip(m.pos + n));
    } else {
        assert(front =~= Seq::empty());
        assert(m.queued() =~= m.kept());
        match m.next {
            Some(Next::Data { frame_len, sent, data }) => {
                let max = m.max_frame_size as int;
                let rest = wires(parts(data@, sent + frame_len, max));
                let current = data@.payload.subrange(sent as int, sent + frame_len);
                taken_from_the_front(current, rest, n);
                frame_moves_on(m, n, frame_len, sent, data);
            },
            _ => {
                assert(m.queued().take(0) =~= m.pending());
                assert(m.queued().skip(0) =~= m.queued());
            },
        }
    }
}

/// What is taken from the front of the first of two sequences leaves the second as it is.
proof fn taken_from_the_front(first: Seq<u8>, second: Seq<u8>, n: int)
    requires
        0 <= n <= first.len(),
    ensures
        (first + second).take(first.len() as int) == first,
        (first + second).skip(n) == first.skip(n) + second,
{
    assert((first + second).take(first.len() as int) =~= first);
    assert((first + second).skip(n) =~= first.skip(n) + second);
}

/// When the transport takes data that is kept, what is left of it is what is to be written.
proof fn frame_moves_on(m: FramedWriteModel, n: int, frame_len: usize, sent: usize, data: Data)
    requires
        m.wf(),
        m.pos == m.buf.len(),
        m.next == Some(Next::Data { frame_len, sent, data }),
        0 <= n <= frame_len,
    ensures
        m.written(n).wf(),
        ({
            let current = data@.payload.subrange(sent as int, sent + frame_len);
            m.written(n).queued() == current.skip(n) + wires(
                parts(data@, sent + frame_len, m.max_frame_size as int),
            )
        }),
{
    let max = m.max_frame_size as int;
    let payload = data@.payload;
    let current = payload.subrange(sent as int, sent + frame_len);
    let rest = wires(parts(data@, sent + frame_len, max));
    let done = sent + n;
    let after = m.written(n);
    if n < frame_len {
        assert(after.buf.skip(after.pos) =~= Seq::empty());
        assert(current.skip(n) =~= payload.subrange(done, sent + frame_len));
        assert(after.queued() =~= current.skip(n) + rest);
    } else {
        assert(current.skip(n) =~= Seq::empty());
        assert(current.skip(n) + rest =~= rest);
        if done == payload.len() {
            assert(after.buf.skip(after.pos) =~= Seq::empty());
            assert(after.queued() =~= rest);
        } else {
            let len = cut(payload.len() - done, max);
            let first = part(data@, done, len);
            frames_are_joined(first, parts(data@, done + len, max));
            assert(after.buf.skip(0) =~= first.head().wire(len));
            assert(after.queued() =~= rest);
        }
    }
}

/// Data is written in full, however small the frames are that the peer takes: the frames carry all
/// of it, in order, none of them more than the peer takes, and only the last one ends the stream.
pub proof fn data_is_written_in_full(data: DataModel, from: int, max: int)
    requires
        0 < max,
        0 <= from < data.payload.len(),
    ensures
        ({
            let frames = parts(data, from, max);
            &&& payloads(frames) == data.payload.skip(from)
            &&& frames.len() > 0
            &&& frames.last().end_stream == data.end_stream
            &&& forall|i: int|
                0 <= i < frames.len() ==> (#[trigger] frames[i]).stream_id == data.stream_id && 0
                    < frames[i].payload.len() <= max && (i < frames.len() - 1
                    ==> !frames[i].end_stream)
            &&& data.payload.len() - from <= max ==> frames == seq![
                part(data, from, data.payload.len() - from),
            ]
        }),
    decreases data.payload.len() - from,
{
    let len = cut(data.payload.len() - from, max);
    let first = part(data, from, len);
    let rest = parts(data, from + len, max);
    frames_are_joined(first, rest);
    if from + len < data.payload.len() {
        data_is_written_in_full(data, from + len, max);
    }
    assert(first.payload + data.payload.skip(from + len) =~= data.payload.skip(from));
    assert(parts(data, from, max) == seq![first] + rest);
    assert forall|i: int| 0 <= i < parts(data, from, max).len() implies (#[trigger] parts(
        data,
        from,
        max,
    )[i]).stream_id == data.stream_id && 0 < parts(data, from, max)[i].payload.len() <= max && (i
        < parts(data, from, max).len() - 1 ==> !parts(data, from, max)[i].end_stream) by {
        if i > 0 {
            assert(parts(data, from, max)[i] == rest[i - 1]);
        }
    }
}

} // verus!
