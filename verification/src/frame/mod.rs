//! HTTP/2 frames.

pub mod data;
pub mod go_away;
mod head;
pub mod header_laws;
pub mod headers;
pub mod laws;
pub mod ping;
pub mod reset;
pub mod settings;
mod stream_id;
pub mod window_update;

pub use self::data::Data;
pub use self::go_away::GoAway;
pub use self::head::{Head, Kind};
pub use self::headers::{Continuation, Headers, HeadersFlag, Pseudo, PushPromise, StreamDependency};
pub use self::ping::Ping;
pub use self::reset::Reset;
pub use self::settings::Settings;
pub use self::stream_id::StreamId;
pub use self::window_update::WindowUpdate;
pub use crate::error::Reason;

use crate::hpack::DecoderError;
use vstd::prelude::*;

verus! {

/// The length of the head of a frame, in bytes.
pub const HEADER_LEN: usize = 9;

/// The largest payload that a peer accepts unless it says otherwise.
pub const DEFAULT_MAX_FRAME_SIZE: usize = 16_384;

/// The largest payload that there can be: its length has three bytes on the wire.
pub const MAX_PAYLOAD_LEN: usize = 0xff_ffff;

/// What is wrong with a frame that was received.
#[derive(Clone, Copy, Debug, PartialEq, Eq, Structural)]
pub enum Error {
    /// The payload has not the length that the kind of frame asks for.
    BadFrameSize,
    /// The kind of frame does not go with the stream ID.
    InvalidStreamId,
    /// The header block is malformed.
    Hpack(DecoderError),
}

/// A PRIORITY frame.
#[derive(Clone, Copy, Debug, PartialEq, Eq, Structural)]
pub struct Priority {
    pub stream_id: StreamId,
    pub dependency: StreamDependency,
}

/// A frame.
#[derive(Debug)]
pub enum Frame {
    Data(Data),
    Headers(Headers),
    Priority(Priority),
    PushPromise(PushPromise),
    Settings(Settings),
    Ping(Ping),
    GoAway(GoAway),
    Reset(Reset),
    WindowUpdate(WindowUpdate),
}

impl Frame {
    /// The frame as it stands on the wire. The headers of a HEADERS frame are encoded elsewhere,
    /// and frames that are never sent have no such form here.
    pub open spec fn wire(self) -> Seq<u8> {
        match self {
            Frame::Data(data) => data@.wire(),
            Frame::Settings(settings) => settings.wire(),
            Frame::Ping(ping) => ping@.wire(),
            Frame::GoAway(go_away) => go_away.wire(),
            Frame::Reset(reset) => reset.wire(),
            Frame::WindowUpdate(update) => update.wire(),
            _ => Seq::empty(),
        }
    }
}

} // verus!
