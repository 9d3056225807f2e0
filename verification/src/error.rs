//! The errors of a connection.

use crate::frame::StreamId;
use vstd::prelude::*;
use vstd::string::*;

verus! {

/// The reason that a RST_STREAM or GOAWAY frame gives.
#[derive(Clone, Copy, Debug, PartialEq, Eq, Structural)]
pub enum Reason {
    NoError,
    ProtocolError,
    InternalError,
    FlowControlError,
    SettingsTimeout,
    StreamClosed,
    FrameSizeError,
    RefusedStream,
    Cancel,
    CompressionError,
    ConnectError,
    EnhanceYourCalm,
    InadequateSecurity,
    Http11Required,
    /// A code that HTTP/2 does not define.
    Other(u32),
}

impl Reason {
    /// The error code that stands for the reason on the wire.
    pub open spec fn spec_code(self) -> u32 {
        match self {
            Reason::NoError => 0,
            Reason::ProtocolError => 1,
            Reason::InternalError => 2,
            Reason::FlowControlError => 3,
            Reason::SettingsTimeout => 4,
            Reason::StreamClosed => 5,
            Reason::FrameSizeError => 6,
            Reason::RefusedStream => 7,
            Reason::Cancel => 8,
            Reason::CompressionError => 9,
            Reason::ConnectError => 10,
            Reason::EnhanceYourCalm => 11,
            Reason::InadequateSecurity => 12,
            Reason::Http11Required => 13,
            Reason::Other(code) => code,
        }
    }

    /// The error code that stands for the reason on the wire.
    pub fn code(self) -> (code: u32)
        ensures
            code == self.spec_code(),
    {
        match self {
            Reason::NoError => 0,
            Reason::ProtocolError => 1,
            Reason::InternalError => 2,
            Reason::FlowControlError => 3,
            Reason::SettingsTimeout => 4,
            Reason::StreamClosed => 5,
            Reason::FrameSizeError => 6,
            Reason::RefusedStream => 7,
            Reason::Cancel => 8,
            Reason::CompressionError => 9,
            Reason::ConnectError => 10,
            Reason::EnhanceYourCalm => 11,
            Reason::InadequateSecurity => 12,
            Reason::Http11Required => 13,
            Reason::Other(code) => code,
        }
    }
}

/// A misuse of the library by the local side.
#[derive(Clone, Copy, Debug, PartialEq, Eq, Structural)]
pub enum User {
    /// The stream ID cannot be used for this.
    InvalidStreamId,
    /// The frame is not expected in the state that the stream is in.
    UnexpectedFrameType,
    /// The stream was rejected before it was opened.
    Rejected,
    /// More data was sent than the window allows.
    FlowControlViolation,
    /// An HTTP/2 request has neither a scheme nor an authority.
    MissingUriSchemeAndAuthority,
    /// There are no stream IDs left.
    OverflowedStreamId,
    /// More capacity was released than was received.
    ReleaseCapacityTooBig,
}

/// The kind of failure of the transport.
#[derive(Clone, Copy, Debug, PartialEq, Eq, Structural)]
pub enum IoKind {
    NotFound,
    PermissionDenied,
    ConnectionRefused,
    ConnectionReset,
    ConnectionAborted,
    NotConnected,
    AddrInUse,
    AddrNotAvailable,
    BrokenPipe,
    AlreadyExists,
    WouldBlock,
    InvalidInput,
    InvalidData,
    TimedOut,
    WriteZero,
    Interrupted,
    UnexpectedEof,
    Other,
}

/// What makes an operation on the connection fail.
#[derive(Clone, Copy, Debug, PartialEq, Eq, Structural)]
pub enum ConnectionError {
    /// The remote violated the protocol.
    Proto(Reason),
    /// The local side misused the library.
    User(User),
    /// The transport failed.
    Io(IoKind),
}

impl Reason {
    /// What the reason means.
    pub open spec fn meaning(self) -> Seq<char> {
        match self {
            Reason::NoError => "not a result of an error"@,
            Reason::ProtocolError => "unspecific protocol error detected"@,
            Reason::InternalError => "unexpected internal error encountered"@,
            Reason::FlowControlError => "flow-control protocol violated"@,
            Reason::SettingsTimeout => "settings ACK not received in timely manner"@,
            Reason::StreamClosed => "received frame when stream half-closed"@,
            Reason::FrameSizeError => "frame sent with invalid size"@,
            Reason::RefusedStream => "refused stream before processing any application logic"@,
            Reason::Cancel => "stream no longer needed"@,
            Reason::CompressionError => "unable to maintain the header compression context"@,
            Reason::ConnectError => "connection established in response to a CONNECT was reset"@,
            Reason::EnhanceYourCalm => "detected excessive load generating behavior"@,
            Reason::InadequateSecurity => "security properties do not meet minimum requirements"@,
            Reason::Http11Required => "endpoint requires HTTP/1.1"@,
            Reason::Other(_) => "unknown reason"@,
        }
    }

    /// What the reason means.
    pub fn description(self) -> (r: &'static str)
        ensures
            r@ == self.meaning(),
    {
        match self {
            Reason::NoError => "not a result of an error",
            Reason::ProtocolError => "unspecific protocol error detected",
            Reason::InternalError => "unexpected internal error encountered",
            Reason::FlowControlError => "flow-control protocol violated",
            Reason::SettingsTimeout => "settings ACK not received in timely manner",
            Reason::StreamClosed => "received frame when stream half-closed",
            Reason::FrameSizeError => "frame sent with invalid size",
            Reason::RefusedStream => "refused stream before processing any application logic",
            Reason::Cancel => "stream no longer needed",
            Reason::CompressionError => "unable to maintain the header compression context",
            Reason::ConnectError => "connection established in response to a CONNECT was reset",
            Reason::EnhanceYourCalm => "detected excessive load generating behavior",
            Reason::InadequateSecurity => "security properties do not meet minimum requirements",
            Reason::Http11Required => "endpoint requires HTTP/1.1",
            Reason::Other(_) => "unknown reason",
        }
    }

    /// The text of a protocol error with this reason.
    pub fn error_text(self) -> (r: String)
        ensures
            r@ == "protocol error: "@ + self.meaning(),
    {
        "protocol error: ".to_owned().concat(self.description())
    }
}

/// What makes receiving a frame fail.
#[derive(Clone, Copy, Debug, PartialEq, Eq, Structural)]
pub enum RecvError {
    /// The remote violated the protocol.
    Connection(Reason),
    /// The remote violated the protocol on one stream.
    Stream { id: StreamId, reason: Reason },
    /// The transport failed.
    Io(IoKind),
}

} // verus!
