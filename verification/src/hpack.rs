//! What header compression takes and gives: header lists, and how far an encoder got.

use crate::header::{FieldName, FieldValue, Method, RawValue, StatusCode};
use vstd::prelude::*;

verus! {

/// One header of a header list: a field, or one of the pseudo headers.
#[derive(Debug)]
pub enum Header<N, V> {
    Field { name: N, value: V },
    Authority(String),
    Method(Method),
    Scheme(String),
    Path(String),
    Status(StatusCode),
}

/// A header that was decoded.
pub type Decoded = Header<FieldName, FieldValue>;

/// A header to encode. A field without a name has the name of the field before it.
pub type ToEncode = Header<Option<Vec<u8>>, RawValue>;

/// What is wrong with a header block.
#[derive(Clone, Copy, Debug, PartialEq, Eq, Structural)]
pub enum DecoderError {
    InvalidRepresentation,
    InvalidIntegerPrefix,
    InvalidTableIndex,
    InvalidHuffmanCode,
    InvalidUtf8,
    InvalidStatusCode,
    InvalidPseudoheader,
    InvalidMaxDynamicSize,
    IntegerUnderflow,
    IntegerOverflow,
    StringUnderflow,
    /// A pseudo header occurs more than once.
    RepeatedPseudo,
}

/// Where an encoder stopped: the header that it took from the list and has yet to write.
#[derive(Debug)]
pub struct EncodeState {
    pub header: ToEncode,
}

/// How far an encoder got with a header list.
#[derive(Debug)]
pub enum Encode {
    /// To the end of the list.
    Full,
    /// To the end of the room it had.
    Partial(EncodeState),
}

} // verus!
