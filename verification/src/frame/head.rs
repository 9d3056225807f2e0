use super::stream_id::StreamId;
use crate::buf::{self, be24, be32, buffer_contents, made_capacity};
use bytes::BytesMut;
use vstd::prelude::*;

verus! {

/// The kinds of frames.
#[derive(Clone, Copy, Debug, PartialEq, Eq, Structural)]
pub enum Kind {
    Data,
    Headers,
    Priority,
    Reset,
    Settings,
    PushPromise,
    Ping,
    GoAway,
    WindowUpdate,
    Continuation,
}

impl Kind {
    /// The number that stands for the kind on the wire.
    pub open spec fn spec_code(self) -> u8 {
        match self {
            Kind::Data => 0,
            Kind::Headers => 1,
            Kind::Priority => 2,
            Kind::Reset => 3,
            Kind::Settings => 4,
            Kind::PushPromise => 5,
            Kind::Ping => 6,
            Kind::GoAway => 7,
            Kind::WindowUpdate => 8,
            Kind::Continuation => 9,
        }
    }

    /// The number that stands for the kind on the wire.
    pub fn code(self) -> (code: u8)
        ensures
            code == self.spec_code(),
    {
        match self {
            Kind::Data => 0,
            Kind::Headers => 1,
            Kind::Priority => 2,
            Kind::Reset => 3,
            Kind::Settings => 4,
            Kind::PushPromise => 5,
            Kind::Ping => 6,
            Kind::GoAway => 7,
            Kind::WindowUpdate => 8,
            Kind::Continuation => 9,
        }
    }
}

/// The head of a frame: all of it but the length.
#[derive(Clone, Copy, Debug, PartialEq, Eq, Structural)]
pub struct Head {
    pub kind: Kind,
    pub flag: u8,
    pub stream_id: StreamId,
}

impl Head {
    pub fn new(kind: Kind, flag: u8, stream_id: StreamId) -> (head: Head)
        ensures
            head == (Head { kind, flag, stream_id }),
    {
        Head { kind, flag, stream_id }
    }

    /// The stream that the frame is associated with.
    pub fn stream_id(&self) -> (id: StreamId)
        ensures
            id == self.stream_id,
    {
        self.stream_id
    }

    pub fn kind(&self) -> (kind: Kind)
        ensures
            kind == self.kind,
    {
        self.kind
    }

    pub fn flag(&self) -> (flag: u8)
        ensures
            flag == self.flag,
    {
        self.flag
    }

    /// The nine bytes in front of a payload of `payload_len` bytes.
    pub open spec fn wire(self, payload_len: int) -> Seq<u8> {
        be24(payload_len) + seq![self.kind.spec_code(), self.flag] + be32(self.stream_id.0 as int)
    }

    /// Appends the head of a frame whose payload has `payload_len` bytes.
    pub fn encode(&self, payload_len: usize, dst: &mut BytesMut)
        requires
            payload_len <= super::MAX_PAYLOAD_LEN,
            buffer_contents(*old(dst)).len() + super::HEADER_LEN <= isize::MAX,
        ensures
            buffer_contents(*final(dst)) == buffer_contents(*old(dst)) + self.wire(
                payload_len as int,
            ),
            made_capacity(*final(dst)) == made_capacity(*old(dst)),
    {
        let id: u32 = self.stream_id.0;
        let bytes: [u8; 9] = [
            (payload_len / 0x1_0000 % 0x100) as u8,
            (payload_len / 0x100 % 0x100) as u8,
            (payload_len % 0x100) as u8,
            self.kind.code(),
            self.flag,
            (id / 0x100_0000 % 0x100) as u8,
            (id / 0x1_0000 % 0x100) as u8,
            (id / 0x100 % 0x100) as u8,
            (id % 0x100) as u8,
        ];
        assert(bytes@ =~= self.wire(payload_len as int));
        buf::extend_from_slice(dst, bytes.as_slice());
    }
}

/// The bytes of a head are those of no other head and no other length.
pub proof fn heads_are_read_back(a: Head, a_len: int, b: Head, b_len: int)
    requires
        0 <= a_len <= super::MAX_PAYLOAD_LEN,
        0 <= b_len <= super::MAX_PAYLOAD_LEN,
        a.wire(a_len) == b.wire(b_len),
    ensures
        a == b,
        a_len == b_len,
{
    let (v, w) = (a.wire(a_len), b.wire(b_len));
    assert(v[0] == w[0] && v[1] == w[1] && v[2] == w[2]);
    assert(v[3] == w[3] && v[4] == w[4]);
    assert(v[5] == w[5] && v[6] == w[6] && v[7] == w[7] && v[8] == w[8]);
    same_digits(a_len, b_len);
    same_digits(a.stream_id.0 as int, b.stream_id.0 as int);
}

/// Numbers of four bytes with the same bytes are the same.
proof fn same_digits(a: int, b: int)
    requires
        0 <= a <= u32::MAX,
        0 <= b <= u32::MAX,
        a / 0x100_0000 % 0x100 == b / 0x100_0000 % 0x100,
        a / 0x1_0000 % 0x100 == b / 0x1_0000 % 0x100,
        a / 0x100 % 0x100 == b / 0x100 % 0x100,
        a % 0x100 == b % 0x100,
    ensures
        a == b,
{
}

} // verus!
