use super::head::{Head, Kind};
use super::stream_id::StreamId;
use super::{Error, Frame};
use crate::buf::{self, buffer_contents, bytes_contents, made_capacity};
use bytes::{Bytes, BytesMut};
use vstd::prelude::*;

verus! {

pub const ACK_FLAG: u8 = 0x1;

/// The number of bytes that the payload of a PING frame has on the wire.
pub const PAYLOAD_LEN: usize = 8;

/// A PING frame, or the answer to one.
#[derive(Debug)]
pub struct Ping {
    ack: bool,
    payload: Bytes,
}

/// A PING frame, as values.
#[verifier::ext_equal]
pub struct PingModel {
    pub ack: bool,
    pub payload: Seq<u8>,
}

impl View for Ping {
    type V = PingModel;

    closed spec fn view(&self) -> PingModel {
        PingModel { ack: self.ack, payload: bytes_contents(self.payload) }
    }
}

impl PingModel {
    pub open spec fn head(self) -> Head {
        Head {
            kind: Kind::Ping,
            flag: if self.ack {
                ACK_FLAG
            } else {
                0
            },
            stream_id: StreamId(0),
        }
    }

    /// The frame as it stands on the wire.
    pub open spec fn wire(self) -> Seq<u8> {
        self.head().wire(self.payload.len() as int) + self.payload
    }

    /// The answer to the frame: the same payload, with the ACK flag set.
    pub open spec fn answer(self) -> PingModel {
        PingModel { ack: true, payload: self.payload }
    }
}

/// The frame that a head and a payload make up, or what is wrong with them.
pub open spec fn loaded(head: Head, payload: Seq<u8>) -> Result<PingModel, Error> {
    if head.stream_id.0 != 0 {
        Err(Error::InvalidStreamId)
    } else if payload.len() != PAYLOAD_LEN {
        Err(Error::BadFrameSize)
    } else {
        Ok(PingModel { ack: head.flag & ACK_FLAG != 0, payload })
    }
}

/// A PING frame whose payload has the length that it must have is read as it was written.
pub proof fn ping_is_read_back(ping: PingModel)
    requires
        ping.payload.len() == PAYLOAD_LEN,
    ensures
        loaded(ping.head(), ping.payload) == Ok::<PingModel, Error>(ping),
{
    assert(1u8 & 1 != 0 && 0u8 & 1 == 0) by (bit_vector);
}

impl Ping {
    pub fn ping(payload: Bytes) -> (r: Ping)
        ensures
            r@ == (PingModel { ack: false, payload: bytes_contents(payload) }),
    {
        Ping { ack: false, payload }
    }

    pub fn pong(payload: Bytes) -> (r: Ping)
        ensures
            r@ == (PingModel { ack: true, payload: bytes_contents(payload) }),
    {
        Ping { ack: true, payload }
    }

    pub fn is_ack(&self) -> (r: bool)
        ensures
            r == self@.ack,
    {
        self.ack
    }

    /// The length of the payload.
    pub fn len(&self) -> (r: usize)
        ensures
            r == self@.payload.len(),
    {
        buf::bytes_slice(&self.payload).len()
    }

    pub fn into_payload(self) -> (r: Bytes)
        ensures
            bytes_contents(r) == self@.payload,
    {
        self.payload
    }

    /// Builds a `Ping` frame from its head and its payload.
    pub fn load(head: Head, payload: Bytes) -> (r: Result<Ping, Error>)
        requires
            head.kind == Kind::Ping,
        ensures
            match r {
                Ok(ping) => loaded(head, bytes_contents(payload)) == Ok::<PingModel, Error>(ping@),
                Err(err) => loaded(head, bytes_contents(payload)) == Err::<PingModel, Error>(err),
            },
    {
        // PING frames are not associated with any individual stream.
        if !head.stream_id().is_zero() {
            return Err(Error::InvalidStreamId);
        }
        // PING frames contain 8 octets of opaque data in the payload.
        if buf::bytes_slice(&payload).len() != PAYLOAD_LEN {
            return Err(Error::BadFrameSize);
        }
        // When set, bit 0 indicates that this PING frame is a PING response. The other bits mean
        // nothing.
        let ack = head.flag() & ACK_FLAG != 0;
        Ok(Ping { ack, payload })
    }

    /// Appends the frame.
    pub fn encode(&self, dst: &mut BytesMut)
        requires
            self@.payload.len() <= super::MAX_PAYLOAD_LEN,
            buffer_contents(*old(dst)).len() + super::HEADER_LEN + self@.payload.len()
                <= isize::MAX,
        ensures
            buffer_contents(*final(dst)) == buffer_contents(*old(dst)) + self@.wire(),
            made_capacity(*final(dst)) == made_capacity(*old(dst)),
    {
        let payload = buf::bytes_slice(&self.payload);
        let flags = if self.ack {
            ACK_FLAG
        } else {
            0
        };
        let head = Head::new(Kind::Ping, flags, StreamId::zero());
        head.encode(payload.len(), dst);
        buf::extend_from_slice(dst, payload);
    }
}

impl From<Ping> for Frame {
    fn from(src: Ping) -> (r: Frame) {
        Frame::Ping(src)
    }
}

impl vstd::std_specs::convert::FromSpecImpl<Ping> for Frame {
    open spec fn obeys_from_spec() -> bool {
        true
    }

    open spec fn from_spec(src: Ping) -> Frame {
        Frame::Ping(src)
    }
}

} // verus!
