//! Where a frame ends in what was received.

use crate::buf::be24;
use crate::frame::laws::number;
use crate::frame::{Head, HEADER_LEN};
use vstd::prelude::*;

verus! {

/// The length of a frame exceeds the limit.
#[derive(Clone, Copy, Debug, PartialEq, Eq, Structural)]
pub struct FrameTooBig;

/// The number that three bytes stand for, most significant first.
pub open spec fn from_be24(bytes: Seq<u8>) -> int {
    bytes[0] * 0x1_0000 + bytes[1] * 0x100 + bytes[2]
}

/// The number of bytes of the frame that `src` starts with, head and payload; `None` if there are
/// not enough bytes to tell or if the frame is not complete.
pub open spec fn delimited(src: Seq<u8>, max_frame_length: int) -> Result<
    Option<usize>,
    FrameTooBig,
> {
    if src.len() < 3 {
        Ok(None)
    } else if from_be24(src) > max_frame_length {
        Err(FrameTooBig)
    } else if src.len() < HEADER_LEN + from_be24(src) {
        Ok(None)
    } else {
        Ok(Some((HEADER_LEN + from_be24(src)) as usize))
    }
}

/// The number of bytes of the frame that `src` starts with, head and payload; `None` if there are
/// not enough bytes to tell or if the frame is not complete. Payloads have at most
/// `max_frame_length` bytes.
pub fn delimit(src: &[u8], max_frame_length: usize) -> (r: Result<Option<usize>, FrameTooBig>)
    ensures
        r == delimited(src@, max_frame_length as int),
{
    if src.len() < 3 {
        // Not enough data
        return Ok(None);
    }
    let n: usize = src[0] as usize * 0x1_0000 + src[1] as usize * 0x100 + src[2] as usize;
    if n > max_frame_length {
        return Err(FrameTooBig);
    }
    // The length does not count the head
    let len: usize = n + HEADER_LEN;
    if src.len() < len {
        return Ok(None);
    }
    Ok(Some(len))
}

/// Three bytes stand for the number that they were made of.
pub proof fn be24_is_read_back(n: int)
    requires
        0 <= n < 0x100_0000,
    ensures
        from_be24(be24(n)) == n,
{
    assert(n / 0x1_0000 % 0x100 == n / 0x1_0000);
    assert(n / 0x100 == n / 0x1_0000 * 0x100 + n / 0x100 % 0x100);
}

/// A frame is found in what it was written to, whatever follows; as long as a part of it is
/// missing, there is no frame; and a frame with a payload over the limit is an error.
pub proof fn frames_are_delimited(head: Head, payload: Seq<u8>, rest: Seq<u8>, max: int)
    requires
        payload.len() < 0x100_0000,
    ensures
        ({
            let frame = head.wire(payload.len() as int) + payload;
            if payload.len() <= max {
                &&& delimited(frame + rest, max) == Ok::<Option<usize>, FrameTooBig>(
                    Some(frame.len() as usize),
                )
                &&& forall|n: int|
                    0 <= n < frame.len() ==> delimited(#[trigger] frame.take(n), max) == Ok::<
                        Option<usize>,
                        FrameTooBig,
                    >(None)
            } else {
                delimited(frame + rest, max) == Err::<Option<usize>, FrameTooBig>(FrameTooBig)
            }
        }),
{
    let frame = head.wire(payload.len() as int) + payload;
    let len = be24(payload.len() as int);
    be24_is_read_back(payload.len() as int);
    assert(from_be24(frame + rest) == from_be24(len)) by {
        assert((frame + rest)[0] == len[0]);
        assert((frame + rest)[1] == len[1]);
        assert((frame + rest)[2] == len[2]);
    }
    assert forall|n: int| 3 <= n < frame.len() implies from_be24(#[trigger] frame.take(n))
        == payload.len() by {
        assert(frame.take(n)[0] == len[0]);
        assert(frame.take(n)[1] == len[1]);
        assert(frame.take(n)[2] == len[2]);
    }
}

/// A frame is there once its head and as many bytes as its first three stand for are; until then
/// there is none, and a frame over the limit is an error as soon as its length is there.
pub proof fn frames_are_found(src: &[u8], max: usize, r: Result<Option<usize>, FrameTooBig>)
    requires
        call_ensures(delimit, (src, max), r),
    ensures
        ({
            let len = number(src@.take(3));
            &&& r is Err <==> src@.len() >= 3 && len > max
            &&& r matches Ok(Some(n)) ==> n == 9 + len && n <= src@.len() && len <= max
                && src@.len() >= 9
            &&& r matches Ok(None) ==> src@.len() < 9 || src@.len() < 9 + len
        }),
{
    if src@.len() >= 3 {
        let bytes = src@.take(3);
        reveal_with_fuel(number, 4);
        assert(bytes.drop_last().drop_last().drop_last() =~= Seq::empty());
    }
}

} // verus!
