use super::head::{Head, Kind};
use super::stream_id::StreamId;
use super::Frame;
use crate::buf::{self, be32, buffer_contents, made_capacity};
use crate::error::Reason;
use bytes::BytesMut;
use vstd::prelude::*;

verus! {

/// A GOAWAY frame.
#[derive(Clone, Copy, Debug, PartialEq, Eq, Structural)]
pub struct GoAway {
    pub last_stream_id: StreamId,
    pub reason: Reason,
}

impl GoAway {
    pub fn new(last_stream_id: StreamId, reason: Reason) -> (r: GoAway)
        ensures
            r == (GoAway { last_stream_id, reason }),
    {
        GoAway { last_stream_id, reason }
    }

    pub fn last_stream_id(&self) -> (r: StreamId)
        ensures
            r == self.last_stream_id,
    {
        self.last_stream_id
    }

    pub fn reason(&self) -> (r: Reason)
        ensures
            r == self.reason,
    {
        self.reason
    }

    /// The frame as it stands on the wire.
    pub open spec fn wire(self) -> Seq<u8> {
        (Head { kind: Kind::GoAway, flag: 0, stream_id: StreamId(0) }).wire(8) + be32(
            self.last_stream_id.0 as int,
        ) + be32(self.reason.spec_code() as int)
    }

    /// Appends the frame.
    pub fn encode(&self, dst: &mut BytesMut)
        requires
            buffer_contents(*old(dst)).len() + super::HEADER_LEN + 8 <= isize::MAX,
        ensures
            buffer_contents(*final(dst)) == buffer_contents(*old(dst)) + self.wire(),
            made_capacity(*final(dst)) == made_capacity(*old(dst)),
    {
        Head::new(Kind::GoAway, 0, StreamId::zero()).encode(8, dst);
        buf::put_be32(dst, self.last_stream_id.0);
        buf::put_be32(dst, self.reason.code());
    }
}

impl From<GoAway> for Frame {
    fn from(src: GoAway) -> (r: Frame) {
        Frame::GoAway(src)
    }
}

impl vstd::std_specs::convert::FromSpecImpl<GoAway> for Frame {
    open spec fn obeys_from_spec() -> bool {
        true
    }

    open spec fn from_spec(src: GoAway) -> Frame {
        Frame::GoAway(src)
    }
}

} // verus!
