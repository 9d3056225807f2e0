use super::head::{Head, Kind};
use super::stream_id::StreamId;
use super::Frame;
use crate::buf::{self, be32, buffer_contents, made_capacity};
use bytes::BytesMut;
use vstd::prelude::*;

verus! {

/// A WINDOW_UPDATE frame.
#[derive(Clone, Copy, Debug, PartialEq, Eq, Structural)]
pub struct WindowUpdate {
    pub stream_id: StreamId,
    pub size_increment: u32,
}

impl WindowUpdate {
    pub fn new(stream_id: StreamId, size_increment: u32) -> (r: WindowUpdate)
        ensures
            r == (WindowUpdate { stream_id, size_increment }),
    {
        WindowUpdate { stream_id, size_increment }
    }

    pub fn stream_id(&self) -> (r: StreamId)
        ensures
            r == self.stream_id,
    {
        self.stream_id
    }

    pub fn size_increment(&self) -> (r: u32)
        ensures
            r == self.size_increment,
    {
        self.size_increment
    }

    /// The frame as it stands on the wire.
    pub open spec fn wire(self) -> Seq<u8> {
        (Head { kind: Kind::WindowUpdate, flag: 0, stream_id: self.stream_id }).wire(4) + be32(
            self.size_increment as int,
        )
    }

    /// Appends the frame.
    pub fn encode(&self, dst: &mut BytesMut)
        requires
            buffer_contents(*old(dst)).len() + super::HEADER_LEN + 4 <= isize::MAX,
        ensures
            buffer_contents(*final(dst)) == buffer_contents(*old(dst)) + self.wire(),
            made_capacity(*final(dst)) == made_capacity(*old(dst)),
    {
        Head::new(Kind::WindowUpdate, 0, self.stream_id).encode(4, dst);
        buf::put_be32(dst, self.size_increment);
    }
}

impl From<WindowUpdate> for Frame {
    fn from(src: WindowUpdate) -> (r: Frame) {
        Frame::WindowUpdate(src)
    }
}

impl vstd::std_specs::convert::FromSpecImpl<WindowUpdate> for Frame {
    open spec fn obeys_from_spec() -> bool {
        true
    }

    open spec fn from_spec(src: WindowUpdate) -> Frame {
        Frame::WindowUpdate(src)
    }
}

} // verus!
