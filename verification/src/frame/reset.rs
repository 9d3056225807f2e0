use super::head::{Head, Kind};
use super::stream_id::StreamId;
use super::Frame;
use crate::buf::{self, be32, buffer_contents, made_capacity};
use crate::error::Reason;
use bytes::BytesMut;
use vstd::prelude::*;

verus! {

/// A RST_STREAM frame.
#[derive(Clone, Copy, Debug, PartialEq, Eq, Structural)]
pub struct Reset {
    pub stream_id: StreamId,
    pub reason: Reason,
}

impl Reset {
    pub fn new(stream_id: StreamId, reason: Reason) -> (r: Reset)
        ensures
            r == (Reset { stream_id, reason }),
    {
        Reset { stream_id, reason }
    }

    pub fn stream_id(&self) -> (r: StreamId)
        ensures
            r == self.stream_id,
    {
        self.stream_id
    }

    pub fn reason(&self) -> (r: Reason)
        ensures
            r == self.reason,
    {
        self.reason
    }

    /// The frame as it stands on the wire.
    pub open spec fn wire(self) -> Seq<u8> {
        (Head { kind: Kind::Reset, flag: 0, stream_id: self.stream_id }).wire(4) + be32(
            self.reason.spec_code() as int,
        )
    }

    /// Appends the frame.
    pub fn encode(&self, dst: &mut BytesMut)
        requires
            buffer_contents(*old(dst)).len() + super::HEADER_LEN + 4 <= isize::MAX,
        ensures
            buffer_contents(*final(dst)) == buffer_contents(*old(dst)) + self.wire(),
            made_capacity(*final(dst)) == made_capacity(*old(dst)),
    {
        Head::new(Kind::Reset, 0, self.stream_id).encode(4, dst);
        buf::put_be32(dst, self.reason.code());
    }
}

impl From<Reset> for Frame {
    fn from(src: Reset) -> (r: Frame) {
        Frame::Reset(src)
    }
}

impl vstd::std_specs::convert::FromSpecImpl<Reset> for Frame {
    open spec fn obeys_from_spec() -> bool {
        true
    }

    open spec fn from_spec(src: Reset) -> Frame {
        Frame::Reset(src)
    }
}

} // verus!
