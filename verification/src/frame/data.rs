use super::head::{Head, Kind};
use super::headers::END_STREAM;
use super::stream_id::StreamId;
use super::Frame;
use crate::buf::{self, buffer_contents, bytes_contents, made_capacity};
use bytes::{Bytes, BytesMut};
use vstd::prelude::*;

verus! {

/// A DATA frame.
#[derive(Debug)]
pub struct Data {
    stream_id: StreamId,
    payload: Bytes,
    end_stream: bool,
}

/// A DATA frame, as values.
#[verifier::ext_equal]
pub struct DataModel {
    pub stream_id: StreamId,
    pub payload: Seq<u8>,
    pub end_stream: bool,
}

impl View for Data {
    type V = DataModel;

    closed spec fn view(&self) -> DataModel {
        DataModel {
            stream_id: self.stream_id,
            payload: bytes_contents(self.payload),
            end_stream: self.end_stream,
        }
    }
}

impl DataModel {
    pub open spec fn head(self) -> Head {
        Head {
            kind: Kind::Data,
            flag: if self.end_stream {
                END_STREAM
            } else {
                0
            },
            stream_id: self.stream_id,
        }
    }

    /// The frame as it stands on the wire.
    pub open spec fn wire(self) -> Seq<u8> {
        self.head().wire(self.payload.len() as int) + self.payload
    }
}

impl Data {
    /// A frame after which the stream goes on.
    pub fn new(stream_id: StreamId, payload: Bytes) -> (r: Data)
        ensures
            r@ == (DataModel { stream_id, payload: bytes_contents(payload), end_stream: false }),
    {
        Data { stream_id, payload, end_stream: false }
    }

    pub fn stream_id(&self) -> (r: StreamId)
        ensures
            r == self@.stream_id,
    {
        self.stream_id
    }

    pub fn payload(&self) -> (r: &Bytes)
        ensures
            bytes_contents(*r) == self@.payload,
    {
        &self.payload
    }

    /// The length of the payload.
    pub fn len(&self) -> (r: usize)
        ensures
            r == self@.payload.len(),
    {
        buf::bytes_slice(&self.payload).len()
    }

    pub fn is_end_stream(&self) -> (r: bool)
        ensures
            r == self@.end_stream,
    {
        self.end_stream
    }

    pub fn set_end_stream(&mut self)
        ensures
            final(self)@ == (DataModel { end_stream: true, ..old(self)@ }),
    {
        self.end_stream = true;
    }

    pub fn head(&self) -> (r: Head)
        ensures
            r == self@.head(),
    {
        let flag: u8 = if self.end_stream {
            END_STREAM
        } else {
            0
        };
        Head::new(Kind::Data, flag, self.stream_id)
    }

    /// The head of a frame with a part of the payload. Only the last part ends the stream.
    pub fn part_head(&self, from: usize, len: usize) -> (r: Head)
        requires
            from + len <= self@.payload.len(),
        ensures
            r == (DataModel {
                end_stream: self@.end_stream && from + len == self@.payload.len(),
                ..self@
            }).head(),
    {
        let total: usize = self.len();
        let flag: u8 = if self.end_stream && from + len == total {
            END_STREAM
        } else {
            0
        };
        Head::new(Kind::Data, flag, self.stream_id)
    }

    /// Appends the frame.
    pub fn encode(&self, dst: &mut BytesMut)
        requires
            self@.payload.len() <= super::MAX_PAYLOAD_LEN,
            buffer_contents(*old(dst)).len() + super::HEADER_LEN + self@.payload.len()
                <= isize::MAX,
        ensures
            buffer_contents(*final(dst)) == buffer_contents(*old(dst)) + self@.wire(),
            made_capacity(*final(dst)) == made_capacity(*old(dst)),
    {
        let payload = buf::bytes_slice(&self.payload);
        self.head().encode(payload.len(), dst);
        buf::extend_from_slice(dst, payload);
    }
}

impl From<Data> for Frame {
    fn from(src: Data) -> (r: Frame) {
        Frame::Data(src)
    }
}

impl vstd::std_specs::convert::FromSpecImpl<Data> for Frame {
    open spec fn obeys_from_spec() -> bool {
        true
    }

    open spec fn from_spec(src: Data) -> Frame {
        Frame::Data(src)
    }
}

} // verus!
