//! Requests and responses.

use crate::header::{Method, StatusCode};
use crate::uri::Uri;
use http::HeaderMap;
use vstd::prelude::*;

verus! {

/// The versions of HTTP.
#[derive(Clone, Copy, Debug, PartialEq, Eq, Structural)]
pub enum Version {
    Http09,
    Http10,
    Http11,
    Http2,
}

/// The head of a request.
#[derive(Debug)]
pub struct Request {
    pub method: Method,
    pub uri: Uri,
    pub version: Version,
    pub headers: HeaderMap,
}

/// A response.
#[derive(Debug)]
pub struct Response<T> {
    pub status: StatusCode,
    pub version: Version,
    pub headers: HeaderMap,
    pub body: T,
}

/// Whether data follows the headers.
#[derive(Clone, Copy, Debug, PartialEq, Eq, Structural)]
pub enum BodyType {
    Empty,
    Stream,
}

} // verus!
